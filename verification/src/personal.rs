//! Profiles and the rules that a profile has to meet.

use crate::dates::{age_in_window, age_years_on, is_age_in_window, whole_years, CalendarDate};
use crate::ids::Uuid;
use crate::text::{blank, char_len, is_blank, owned, same_text};
use vstd::prelude::*;

verus! {

/// `chrono::NaiveDateTime`, which is carried along and never looked into.
#[verifier::external_type_specification]
#[verifier::external_body]
pub struct ExNaiveDateTime(chrono::NaiveDateTime);

/// The skills that a profile may name, in the order in which they are offered.
pub open spec fn valid_skills() -> Seq<Seq<char>> {
    seq![
        "Music"@,
        "Art"@,
        "Cooking"@,
        "Photography"@,
        "Design"@,
        "Programming"@,
        "Writing"@,
        "Fitness"@,
        "Gardening"@,
    ]
}

/// Whether `skill` is one of the skills on offer.
pub open spec fn valid_skill(skill: Seq<char>) -> bool {
    valid_skills().contains(skill)
}

/// The skills on offer.
pub fn get_valid_skills() -> (r: Vec<&'static str>)
    ensures
        r.deep_view() == valid_skills(),
{
    let r = vec![
        "Music",
        "Art",
        "Cooking",
        "Photography",
        "Design",
        "Programming",
        "Writing",
        "Fitness",
        "Gardening",
    ];
    assert(r.deep_view() =~= valid_skills());
    r
}

/// Whether `skill` is one of the skills on offer; case and white space count.
pub fn is_valid_skill(skill: &str) -> (r: bool)
    ensures
        r == valid_skill(skill@),
{
    let skills = get_valid_skills();
    let mut i: usize = 0;
    while i < skills.len()
        invariant
            i <= skills.len(),
            skills.deep_view() == valid_skills(),
            forall|j: int| 0 <= j < i ==> valid_skills()[j] != skill@,
        decreases skills.len() - i,
    {
        assert(skills.deep_view()[i as int] == skills@[i as int]@);
        if same_text(skills[i], skill) {
            assert(valid_skills()[i as int] == skill@);
            return true;
        }
        i += 1;
    }
    false
}

/// The first rule that a profile breaks.
#[derive(Clone, Copy, Debug, PartialEq, Eq, Structural)]
pub enum ProfileFault {
    /// The date of birth is less than 13 or more than 120 years back.
    Age,
    /// The primary skill is not on offer.
    PrimarySkill,
    /// The skill to learn is not on offer.
    SkillToLearn,
    /// Both skills are the same.
    SameSkill,
    /// The bio is blank.
    EmptyBio,
    /// The bio has fewer than 10 characters.
    ShortBio,
    /// The bio has more than 1000 characters.
    LongBio,
}

/// The first rule that the given fields break on the day `today`, if any. The
/// rules are tried in the order of `ProfileFault`.
pub open spec fn profile_fault(
    date_of_birth: CalendarDate,
    primary_skill: Seq<char>,
    skill_to_learn: Seq<char>,
    bio: Seq<char>,
    today: CalendarDate,
) -> Option<ProfileFault> {
    if !age_in_window(date_of_birth, today) {
        Some(ProfileFault::Age)
    } else if !valid_skill(primary_skill) {
        Some(ProfileFault::PrimarySkill)
    } else if !valid_skill(skill_to_learn) {
        Some(ProfileFault::SkillToLearn)
    } else if primary_skill == skill_to_learn {
        Some(ProfileFault::SameSkill)
    } else if blank(bio) {
        Some(ProfileFault::EmptyBio)
    } else if bio.len() < 10 {
        Some(ProfileFault::ShortBio)
    } else if bio.len() > 1000 {
        Some(ProfileFault::LongBio)
    } else {
        None
    }
}

impl ProfileFault {
    /// The complaint for a fault; `age` is the wording for a date of birth
    /// out of the window.
    pub open spec fn text(self, age: Seq<char>) -> Seq<char> {
        match self {
            ProfileFault::Age => age,
            ProfileFault::PrimarySkill => "Invalid primary skill. Please select from available options."@,
            ProfileFault::SkillToLearn => "Invalid skill to learn. Please select from available options."@,
            ProfileFault::SameSkill => "Primary skill and skill to learn cannot be the same."@,
            ProfileFault::EmptyBio => "Bio cannot be empty"@,
            ProfileFault::ShortBio => "Bio must be at least 10 characters long"@,
            ProfileFault::LongBio => "Bio must be less than 1000 characters"@,
        }
    }

    /// The complaint for a fault.
    pub fn message(self, age: &str) -> (r: String)
        ensures
            r@ == self.text(age@),
    {
        match self {
            ProfileFault::Age => owned(age),
            ProfileFault::PrimarySkill => owned(
                "Invalid primary skill. Please select from available options.",
            ),
            ProfileFault::SkillToLearn => owned(
                "Invalid skill to learn. Please select from available options.",
            ),
            ProfileFault::SameSkill => owned("Primary skill and skill to learn cannot be the same."),
            ProfileFault::EmptyBio => owned("Bio cannot be empty"),
            ProfileFault::ShortBio => owned("Bio must be at least 10 characters long"),
            ProfileFault::LongBio => owned("Bio must be less than 1000 characters"),
        }
    }
}

/// Finds the first rule that the given fields break on the day `today`.
pub fn find_profile_fault(
    date_of_birth: CalendarDate,
    primary_skill: &str,
    skill_to_learn: &str,
    bio: &str,
    today: CalendarDate,
) -> (r: Option<ProfileFault>)
    ensures
        r == profile_fault(date_of_birth, primary_skill@, skill_to_learn@, bio@, today),
{
    if !is_age_in_window(date_of_birth, today) {
        Some(ProfileFault::Age)
    } else if !is_valid_skill(primary_skill) {
        Some(ProfileFault::PrimarySkill)
    } else if !is_valid_skill(skill_to_learn) {
        Some(ProfileFault::SkillToLearn)
    } else if same_text(primary_skill, skill_to_learn) {
        Some(ProfileFault::SameSkill)
    } else if is_blank(bio) {
        Some(ProfileFault::EmptyBio)
    } else if char_len(bio) < 10 {
        Some(ProfileFault::ShortBio)
    } else if char_len(bio) > 1000 {
        Some(ProfileFault::LongBio)
    } else {
        None
    }
}

/// A profile that names one skill twice is never accepted, whatever else it
/// holds and whatever the day. Where its date of birth and its skill are in
/// order, the complaint is that the skills are the same.
pub proof fn lemma_same_skill_rejected(
    date_of_birth: CalendarDate,
    skill: Seq<char>,
    bio: Seq<char>,
    today: CalendarDate,
)
    ensures
        profile_fault(date_of_birth, skill, skill, bio, today) is Some,
        age_in_window(date_of_birth, today) && valid_skill(skill) ==> profile_fault(
            date_of_birth,
            skill,
            skill,
            bio,
            today,
        ) == Some(ProfileFault::SameSkill),
{
}

/// A profile that passes all rules has two different skills from the list, a
/// bio of 10 to 1000 characters and a date of birth in the window.
pub proof fn lemma_accepted_profile(
    date_of_birth: CalendarDate,
    primary_skill: Seq<char>,
    skill_to_learn: Seq<char>,
    bio: Seq<char>,
    today: CalendarDate,
)
    requires
        profile_fault(date_of_birth, primary_skill, skill_to_learn, bio, today) is None,
    ensures
        age_in_window(date_of_birth, today),
        valid_skill(primary_skill),
        valid_skill(skill_to_learn),
        primary_skill != skill_to_learn,
        10 <= bio.len() <= 1000,
{
}

/// A stored profile.
#[derive(Clone, Debug)]
pub struct Personal {
    pub id: Uuid,
    pub user_id: Uuid,
    pub date_of_birth: CalendarDate,
    pub primary_skill: String,
    pub skill_to_learn: String,
    pub bio: String,
    pub profile_picture_url: Option<String>,
    pub created_at: Option<chrono::NaiveDateTime>,
    pub updated_at: Option<chrono::NaiveDateTime>,
}

/// A profile that is about to be stored.
#[derive(Clone, Debug)]
pub struct NewPersonal {
    pub user_id: Uuid,
    pub date_of_birth: CalendarDate,
    pub primary_skill: String,
    pub skill_to_learn: String,
    pub bio: String,
    pub profile_picture_url: Option<String>,
}

/// The verdict on a profile: accepted, or the complaint for its first fault.
pub open spec fn verdict(fault: Option<ProfileFault>, age: Seq<char>, r: Result<(), String>) -> bool {
    match fault {
        None => r is Ok,
        Some(f) => r matches Err(m) && m@ == f.text(age),
    }
}

fn verdict_of(fault: Option<ProfileFault>, age: &str) -> (r: Result<(), String>)
    ensures
        verdict(fault, age@, r),
{
    match fault {
        None => Ok(()),
        Some(f) => Err(f.message(age)),
    }
}

impl Personal {
    /// The first rule that the profile breaks on the day `today`, if any.
    pub open spec fn fault(self, today: CalendarDate) -> Option<ProfileFault> {
        profile_fault(self.date_of_birth, self.primary_skill@, self.skill_to_learn@, self.bio@, today)
    }

    /// Checks the profile against the rules as of `today`.
    pub fn validate_on(&self, today: CalendarDate) -> (r: Result<(), String>)
        ensures
            verdict(self.fault(today), "Age must be between 13-120 years"@, r),
    {
        let fault = find_profile_fault(
            self.date_of_birth,
            self.primary_skill.as_str(),
            self.skill_to_learn.as_str(),
            self.bio.as_str(),
            today,
        );
        verdict_of(fault, "Age must be between 13-120 years")
    }

    /// Checks the profile against the rules as of today by the system clock:
    /// the verdict is that of `validate_on` for a day that the calendar holds,
    /// so a profile passes only where the rules that look at no day are met.
    pub fn validate(&self) -> (r: Result<(), String>)
        ensures
            verdict_of_a_day(self.date_of_birth, self.primary_skill@, self.skill_to_learn@,
                self.bio@, "Age must be between 13-120 years"@, r),
            r is Ok ==> dayless_rules(self.primary_skill@, self.skill_to_learn@, self.bio@),
    {
        self.validate_on(CalendarDate::today())
    }

    /// Age on the day `today`, in whole years.
    pub fn age_years_on(&self, today: CalendarDate) -> (r: i32)
        requires
            self.date_of_birth.wf(),
            today.wf(),
        ensures
            r == whole_years(self.date_of_birth, today),
    {
        age_years_on(self.date_of_birth, today)
    }

    /// Age today by the system clock, in whole years.
    pub fn age_years(&self) -> (r: i32)
        requires
            self.date_of_birth.wf(),
        ensures
            exists|today: CalendarDate| today.wf() && r == whole_years(self.date_of_birth, today),
    {
        let today = CalendarDate::today();
        self.age_years_on(today)
    }

    /// Replaces the picture URL and nothing else.
    pub fn update_profile_picture(&mut self, picture_url: Option<String>)
        ensures
            final(self).profile_picture_url == picture_url,
            final(self).id == old(self).id,
            final(self).user_id == old(self).user_id,
            final(self).date_of_birth == old(self).date_of_birth,
            final(self).primary_skill == old(self).primary_skill,
            final(self).skill_to_learn == old(self).skill_to_learn,
            final(self).bio == old(self).bio,
            final(self).created_at == old(self).created_at,
            final(self).updated_at == old(self).updated_at,
    {
        self.profile_picture_url = picture_url;
    }
}

impl NewPersonal {
    /// The first rule that the profile breaks on the day `today`, if any.
    pub open spec fn fault(self, today: CalendarDate) -> Option<ProfileFault> {
        profile_fault(self.date_of_birth, self.primary_skill@, self.skill_to_learn@, self.bio@, today)
    }

    /// Checks the profile against the rules as of `today`.
    pub fn validate_on(&self, today: CalendarDate) -> (r: Result<(), String>)
        ensures
            verdict(
                self.fault(today),
                "Invalid date of birth. Age must be between 13-120 years."@,
                r,
            ),
    {
        let fault = find_profile_fault(
            self.date_of_birth,
            self.primary_skill.as_str(),
            self.skill_to_learn.as_str(),
            self.bio.as_str(),
            today,
        );
        verdict_of(fault, "Invalid date of birth. Age must be between 13-120 years.")
    }

    /// Checks the profile against the rules as of today by the system clock:
    /// the verdict is that of `validate_on` for a day that the calendar holds,
    /// so a profile passes only where the rules that look at no day are met.
    pub fn validate(&self) -> (r: Result<(), String>)
        ensures
            verdict_of_a_day(self.date_of_birth, self.primary_skill@, self.skill_to_learn@,
                self.bio@, "Invalid date of birth. Age must be between 13-120 years."@, r),
            r is Ok ==> dayless_rules(self.primary_skill@, self.skill_to_learn@, self.bio@),
    {
        self.validate_on(CalendarDate::today())
    }
}

/// The rules that look at no day: two different skills from the list, and a
/// bio that is not blank and has 10 to 1000 characters.
pub open spec fn dayless_rules(primary_skill: Seq<char>, skill_to_learn: Seq<char>, bio: Seq<char>) -> bool {
    &&& valid_skill(primary_skill)
    &&& valid_skill(skill_to_learn)
    &&& primary_skill != skill_to_learn
    &&& !blank(bio)
    &&& 10 <= bio.len() <= 1000
}

/// Whether `r` is the verdict on the given fields on some day that the
/// calendar holds: accepted where no rule is broken on that day, else the
/// complaint for the first rule that is, with `age` as the wording for a date
/// of birth out of the window.
pub open spec fn verdict_of_a_day(
    date_of_birth: CalendarDate,
    primary_skill: Seq<char>,
    skill_to_learn: Seq<char>,
    bio: Seq<char>,
    age: Seq<char>,
    r: Result<(), String>,
) -> bool {
    exists|today: CalendarDate|
        today.wf() && verdict(
            #[trigger] profile_fault(date_of_birth, primary_skill, skill_to_learn, bio, today),
            age,
            r,
        )
}

} // verus!
