use barterup_be::dates::CalendarDate;
use barterup_be::ids::Uuid;
use barterup_be::personal::{
    find_profile_fault, get_valid_skills, is_valid_skill, NewPersonal, Personal, ProfileFault,
};

fn day(text: &str) -> CalendarDate {
    CalendarDate::parse(text, "%Y-%m-%d").unwrap()
}

fn person(primary: &str, learn: &str, bio: &str, born: &str) -> Personal {
    Personal {
        id: Uuid { value: 1 },
        user_id: Uuid { value: 1 },
        date_of_birth: day(born),
        primary_skill: primary.to_string(),
        skill_to_learn: learn.to_string(),
        bio: bio.to_string(),
        profile_picture_url: None,
        created_at: None,
        updated_at: None,
    }
}

fn new_person(primary: &str, learn: &str, bio: &str, born: &str) -> NewPersonal {
    NewPersonal {
        user_id: Uuid { value: 1 },
        date_of_birth: day(born),
        primary_skill: primary.to_string(),
        skill_to_learn: learn.to_string(),
        bio: bio.to_string(),
        profile_picture_url: None,
    }
}

const BIO: &str = "I play the violin.";

#[test]
fn nine_skills_are_on_offer() {
    assert_eq!(
        get_valid_skills(),
        vec![
            "Music",
            "Art",
            "Cooking",
            "Photography",
            "Design",
            "Programming",
            "Writing",
            "Fitness",
            "Gardening"
        ]
    );
}

#[test]
fn skill_has_to_match_exactly() {
    for skill in get_valid_skills() {
        assert!(is_valid_skill(skill));
    }
    assert!(!is_valid_skill("music"));
    assert!(!is_valid_skill(" Music"));
    assert!(!is_valid_skill(""));
    assert!(!is_valid_skill("Juggling"));
}

#[test]
fn same_skill_twice_is_rejected_with_its_own_message() {
    let today = day("2024-01-01");
    let p = person("Music", "Music", BIO, "1990-06-15");
    assert_eq!(
        p.validate_on(today),
        Err("Primary skill and skill to learn cannot be the same.".to_string())
    );
    let n = new_person("Music", "Music", BIO, "1990-06-15");
    assert_eq!(
        n.validate_on(today),
        Err("Primary skill and skill to learn cannot be the same.".to_string())
    );
    assert_eq!(p.validate(), Err("Primary skill and skill to learn cannot be the same.".to_string()));
    assert_eq!(n.validate(), Err("Primary skill and skill to learn cannot be the same.".to_string()));
    assert_eq!(
        person("Music", "Art", BIO, "1800-01-01").validate(),
        Err("Age must be between 13-120 years".to_string())
    );
    assert_eq!(
        new_person("Music", "Art", BIO, "1800-01-01").validate(),
        Err("Invalid date of birth. Age must be between 13-120 years.".to_string())
    );
}

#[test]
fn valid_profile_passes() {
    let today = day("2024-01-01");
    assert_eq!(person("Music", "Art", BIO, "1990-06-15").validate_on(today), Ok(()));
    assert_eq!(new_person("Music", "Art", BIO, "1990-06-15").validate_on(today), Ok(()));
    assert_eq!(person("Music", "Art", BIO, "1990-06-15").validate(), Ok(()));
}

#[test]
fn each_fault_has_its_message() {
    let today = day("2024-01-01");
    let check = |p: Personal, message: &str| assert_eq!(p.validate_on(today), Err(message.to_string()));
    check(person("Music", "Art", BIO, "2020-01-01"), "Age must be between 13-120 years");
    check(person("Music", "Art", BIO, "1890-01-01"), "Age must be between 13-120 years");
    check(
        person("Juggling", "Art", BIO, "1990-06-15"),
        "Invalid primary skill. Please select from available options.",
    );
    check(
        person("Music", "Juggling", BIO, "1990-06-15"),
        "Invalid skill to learn. Please select from available options.",
    );
    check(person("Music", "Art", "   \n ", "1990-06-15"), "Bio cannot be empty");
    check(person("Music", "Art", "too short", "1990-06-15"), "Bio must be at least 10 characters long");
    check(
        person("Music", "Art", &"x".repeat(1001), "1990-06-15"),
        "Bio must be less than 1000 characters",
    );
    assert_eq!(
        new_person("Music", "Art", BIO, "2020-01-01").validate_on(today),
        Err("Invalid date of birth. Age must be between 13-120 years.".to_string())
    );
}

#[test]
fn faults_are_found_in_order() {
    let today = day("2024-01-01");
    let born = day("1990-06-15");
    assert_eq!(find_profile_fault(day("2020-01-01"), "x", "x", "", today), Some(ProfileFault::Age));
    assert_eq!(find_profile_fault(born, "x", "x", "", today), Some(ProfileFault::PrimarySkill));
    assert_eq!(find_profile_fault(born, "Art", "x", "", today), Some(ProfileFault::SkillToLearn));
    assert_eq!(find_profile_fault(born, "Art", "Art", "", today), Some(ProfileFault::SameSkill));
    assert_eq!(find_profile_fault(born, "Art", "Music", "", today), Some(ProfileFault::EmptyBio));
    assert_eq!(find_profile_fault(born, "Art", "Music", "123456789", today), Some(ProfileFault::ShortBio));
    assert_eq!(find_profile_fault(born, "Art", "Music", "1234567890", today), None);
    assert_eq!(find_profile_fault(born, "Art", "Music", &"x".repeat(1000), today), None);
    assert_eq!(
        find_profile_fault(born, "Art", "Music", &"x".repeat(1001), today),
        Some(ProfileFault::LongBio)
    );
}

#[test]
fn bio_length_counts_characters() {
    let today = day("2024-01-01");
    let born = day("1990-06-15");
    assert_eq!(find_profile_fault(born, "Art", "Music", "éééééééééé", today), None);
    assert_eq!(find_profile_fault(born, "Art", "Music", "ééééééééé", today), Some(ProfileFault::ShortBio));
    assert_eq!(find_profile_fault(born, "Art", "Music", &"é".repeat(1000), today), None);
    assert_eq!(find_profile_fault(born, "Art", "Music", &"é".repeat(1001), today), Some(ProfileFault::LongBio));
}

#[test]
fn fault_messages() {
    assert_eq!(ProfileFault::Age.message("too young"), "too young");
    assert_eq!(ProfileFault::EmptyBio.message("too young"), "Bio cannot be empty");
}

#[test]
fn age_and_picture() {
    let mut p = person("Music", "Art", BIO, "1990-06-15");
    assert_eq!(p.age_years_on(day("2024-01-01")), 33);
    assert!(p.age_years() >= 33);
    p.update_profile_picture(Some("/api/uploads/profile_pictures/a.png".to_string()));
    assert_eq!(p.profile_picture_url.as_deref(), Some("/api/uploads/profile_pictures/a.png"));
    assert_eq!(p.bio, BIO);
    p.update_profile_picture(None);
    assert_eq!(p.profile_picture_url, None);
}
