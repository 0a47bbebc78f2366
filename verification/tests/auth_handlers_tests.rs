use barterup_be::auth_handlers::{
    complete_profile_check, complete_profile_check_with, complete_profile_logged_in,
    complete_profile_reply, get_current_profile_reply, get_skills_reply, login_logged_in,
    login_reply, parse_birth_date, signup_check, signup_check_with, signup_reply,
    test_supabase_reply, test_supabase_request, LoginData, ProbeReport, ProfileFormFault,
};
use barterup_be::auth_service::{AuthError, AuthService};
use barterup_be::dates::CalendarDate;
use barterup_be::dtos::{
    CompleteProfileRequest, CreatePersonalDTO, PersonalDataOut, SessionOut, SignupIn,
};
use barterup_be::email::looks_like_email;
use barterup_be::http::{BaasResponse, Method};
use barterup_be::ids::Uuid;

fn signup(email: &str, password: &str) -> SignupIn {
    SignupIn { email: email.to_string(), password: password.to_string(), username: None }
}

fn today() -> CalendarDate {
    CalendarDate::parse("2024-01-01", "%Y-%m-%d").unwrap()
}

fn form(email: &str, password: &str, born: &str, primary: &str, learn: &str, bio: &str) -> CompleteProfileRequest {
    CompleteProfileRequest {
        email: email.to_string(),
        password: password.to_string(),
        profile: CreatePersonalDTO {
            date_of_birth: born.to_string(),
            primary_skill: primary.to_string(),
            skill_to_learn: learn.to_string(),
            bio: bio.to_string(),
        },
    }
}

fn session() -> SessionOut {
    SessionOut {
        access_token: "tok".to_string(),
        refresh_token: Some("ref".to_string()),
        expires_in: Some(3600),
        token_type: Some("bearer".to_string()),
    }
}

fn profile() -> PersonalDataOut {
    PersonalDataOut {
        id: Uuid { value: 7 },
        user_id: Uuid { value: 7 },
        date_of_birth: "1990-06-15".to_string(),
        primary_skill: "Music".to_string(),
        skill_to_learn: "Art".to_string(),
        bio: "I play the violin.".to_string(),
        profile_picture_url: None,
    }
}

#[test]
fn addresses_of_the_right_shape() {
    for ok in ["a@b.co", "first.last+tag@sub.example.org", "A_B%c-d@X-y.ZZ", "1@2.ab"] {
        assert!(looks_like_email(ok), "{}", ok);
    }
    for bad in ["", "a", "a@b", "a@b.c", "@b.co", "a@.co", "a b@c.de", "a@b.co ", "a@b.c0", "a@b,co"] {
        assert!(!looks_like_email(bad), "{}", bad);
    }
}

#[test]
fn malformed_address_is_answered_with_400() {
    for bad in ["", "nobody", "a@b", "a@b.c", "two@@x.org "] {
        let reply = signup_check(&signup(bad, "secret1")).unwrap_err();
        assert_eq!(reply.code, 400);
        assert_eq!(reply.body.status, "error");
        assert_eq!(reply.body.message, "Invalid email format");
        assert!(reply.body.data.is_none());
    }
}

#[test]
fn short_password_is_answered_with_400() {
    for bad in ["", "12345", "ééééé"] {
        let reply = signup_check(&signup("a@b.co", bad)).unwrap_err();
        assert_eq!(reply.code, 400);
        assert_eq!(reply.body.status, "error");
        assert_eq!(reply.body.message, "Password must be at least 6 characters long");
    }
    assert!(signup_check(&signup("a@b.co", "123456")).is_ok());
    assert!(signup_check(&signup("a@b.co", "éééééé")).is_ok());
}

#[test]
fn address_is_checked_before_the_password() {
    let reply = signup_check(&signup("nobody", "1")).unwrap_err();
    assert_eq!(reply.body.message, "Invalid email format");
}

#[test]
fn valid_signup_goes_on_with_the_address_normalized() {
    let body = SignupIn {
        email: "  Ann.Lee@Example.ORG \n".to_string(),
        password: "  secret ".to_string(),
        username: Some("ann".to_string()),
    };
    let data = signup_check(&body).unwrap();
    assert_eq!(data.email, "ann.lee@example.org");
    assert_eq!(data.password, "  secret ");
    assert_eq!(data.username.as_deref(), Some("ann"));
}

#[test]
fn signup_goes_by_what_was_found_of_the_address() {
    let body = signup("Whatever", "secret");
    let refused = signup_check_with(&body, "x".to_string(), false).unwrap_err();
    assert_eq!(refused.body.message, "Invalid email format");
    let taken = signup_check_with(&body, "x".to_string(), true).unwrap();
    assert_eq!(taken.email, "x");
    assert_eq!(taken.password, "secret");
    let short = signup_check_with(&signup("a@b.co", "12345"), "a@b.co".to_string(), true).unwrap_err();
    assert_eq!(short.body.message, "Password must be at least 6 characters long");
}

#[test]
fn form_goes_by_what_the_date_read_as() {
    let body = form("a@b.co", "secret", "whenever", "Music", "Art", "bio");
    let born = CalendarDate::parse("1990-06-15", "%Y-%m-%d");
    let plan = complete_profile_check_with(&body, born, today()).unwrap();
    assert_eq!(plan.profile.date_of_birth, "1990-06-15");
    let unread = complete_profile_check_with(&body, None, today()).unwrap_err();
    assert_eq!(unread.body.message, "Invalid date format. Use DD/MM/YYYY");
    let blank = form("a@b.co", "secret", " ", "Music", "Art", "bio");
    let missing = complete_profile_check_with(&blank, born, today()).unwrap_err();
    assert_eq!(missing.body.message, "All fields are required");
    let young = complete_profile_check_with(&body, Some(today()), today()).unwrap_err();
    assert_eq!(young.body.message, "Age must be between 13 and 120 years");
}

#[test]
fn signup_is_answered_with_201_and_the_identifier() {
    let reply = signup_reply(Ok(Uuid { value: 42 }));
    assert_eq!(reply.code, 201);
    assert_eq!(reply.body.status, "success");
    assert_eq!(reply.body.message, "Account created");
    let data = reply.body.data.unwrap();
    assert_eq!(data.user_id, Uuid { value: 42 });
    assert_eq!(data.message, "Account created successfully. Please complete your profile to continue.");
    assert_eq!(data.next_step, "complete_profile");
}

#[test]
fn refused_signup_is_answered_with_one_of_two_complaints() {
    let taken = signup_reply(Err(AuthError::Supabase("User already registered".to_string())));
    assert_eq!(taken.code, 400);
    assert_eq!(taken.body.message, "Email already exists. Please login instead.");
    assert!(taken.body.data.is_none());
    for other in [
        AuthError::Supabase("weak password".to_string()),
        AuthError::Http("connection refused".to_string()),
        AuthError::InvalidToken,
        AuthError::UserNotFound,
        AuthError::Other("already  registered".to_string()),
    ] {
        let reply = signup_reply(Err(other));
        assert_eq!(reply.code, 400);
        assert_eq!(reply.body.message, "Failed to create account. Please try again.");
    }
    let other = signup_reply(Err(AuthError::Other("already registered".to_string())));
    assert_eq!(other.body.message, "Email already exists. Please login instead.");
}

#[test]
fn date_of_birth_is_stored_in_iso_form() {
    let plan = complete_profile_check(
        &form("a@b.co", "secret", "15/06/1990", "Music", "Art", "I play the violin."),
        today(),
    )
    .unwrap();
    assert_eq!(plan.profile.date_of_birth, "1990-06-15");
    assert_eq!(plan.profile.primary_skill, "Music");
    assert_eq!(plan.profile.skill_to_learn, "Art");
    assert_eq!(plan.profile.bio, "I play the violin.");
    assert_eq!(plan.login.email, "a@b.co");
    assert_eq!(plan.login.password, "secret");
}

#[test]
fn iso_date_of_birth_is_accepted_too() {
    let plan = complete_profile_check(
        &form("a@b.co", "secret", "1990-06-15", "Music", "Music", "short"),
        today(),
    )
    .unwrap();
    assert_eq!(plan.profile.date_of_birth, "1990-06-15");
    assert_eq!(parse_birth_date("1990-06-15"), parse_birth_date("15/06/1990"));
    assert_eq!(parse_birth_date("06/15/1990"), None);
}

#[test]
fn each_fault_of_the_form_is_answered_with_400() {
    let bio = "I play the violin.";
    let cases = [
        (form(" ", "secret", "15/06/1990", "Music", "Art", bio), ProfileFormFault::MissingField),
        (form("a@b.co", "", "15/06/1990", "Music", "Art", bio), ProfileFormFault::MissingField),
        (form("a@b.co", "secret", "", "Music", "Art", bio), ProfileFormFault::MissingField),
        (form("a@b.co", "secret", "15/06/1990", "\t", "Art", bio), ProfileFormFault::MissingField),
        (form("a@b.co", "secret", "15/06/1990", "Music", "", bio), ProfileFormFault::MissingField),
        (form("a@b.co", "secret", "15/06/1990", "Music", "Art", "\n"), ProfileFormFault::MissingField),
        (form("a@b.co", "secret", "June 1990", "Music", "Art", bio), ProfileFormFault::DateFormat),
        (form("a@b.co", "secret", "31/02/1990", "Music", "Art", bio), ProfileFormFault::DateFormat),
        (form("a@b.co", "secret", "01/01/2020", "Music", "Art", bio), ProfileFormFault::Age),
        (form("a@b.co", "secret", "01/01/1890", "Music", "Art", bio), ProfileFormFault::Age),
        (form("a@b.co", "secret", "15/06/1990", &"m".repeat(101), "Art", bio), ProfileFormFault::SkillLength),
        (form("a@b.co", "secret", "15/06/1990", "Music", &"a".repeat(101), bio), ProfileFormFault::SkillLength),
        (form("a@b.co", "secret", "15/06/1990", "Music", "Art", &"b".repeat(1001)), ProfileFormFault::BioLength),
    ];
    for (body, fault) in cases {
        let reply = complete_profile_check(&body, today()).unwrap_err();
        assert_eq!(reply.code, 400);
        assert_eq!(reply.body.status, "error");
        assert_eq!(reply.body.message, fault.message());
        assert!(reply.body.data.is_none());
    }
    assert_eq!(ProfileFormFault::MissingField.message(), "All fields are required");
    assert_eq!(ProfileFormFault::DateFormat.message(), "Invalid date format. Use DD/MM/YYYY");
    assert_eq!(ProfileFormFault::Age.message(), "Age must be between 13 and 120 years");
    assert_eq!(ProfileFormFault::SkillLength.message(), "Skills must be less than 100 characters each");
    assert_eq!(ProfileFormFault::BioLength.message(), "Bio must be less than 1000 characters");
}

#[test]
fn lengths_at_the_limit_pass() {
    let body = form("a@b.co", "secret", "15/06/1990", &"m".repeat(100), &"a".repeat(100), &"b".repeat(1000));
    assert!(complete_profile_check(&body, today()).is_ok());
    let accented = form("a@b.co", "secret", "15/06/1990", &"é".repeat(100), "Art", &"ü".repeat(1000));
    assert!(complete_profile_check(&accented, today()).is_ok());
}

#[test]
fn age_window_is_inclusive() {
    let check = |born: &str, on: &str| {
        let today = CalendarDate::parse(on, "%Y-%m-%d").unwrap();
        complete_profile_check(&form("a@b.co", "secret", born, "Music", "Art", "bio"), today)
    };
    assert!(check("01/01/2011", "2024-01-01").is_ok());
    assert!(check("02/01/2011", "2024-01-01").is_err());
    assert!(check("02/01/1903", "2024-01-01").is_ok());
    assert!(check("01/01/1903", "2024-01-01").is_err());
    let twelve = check("31/10/2013", "2026-10-29").unwrap_err();
    assert_eq!(twelve.code, 400);
    assert_eq!(twelve.body.message, "Age must be between 13 and 120 years");
    assert!(check("29/10/2013", "2026-10-29").is_ok());
    assert!(check("30/11/1906", "2026-10-29").is_ok());
}

#[test]
fn bio_of_someone_old_is_still_looked_at() {
    let today = CalendarDate::parse("2026-10-29", "%Y-%m-%d").unwrap();
    let body = form("a@b.co", "secret", "30/11/1906", "Music", "Art", &"b".repeat(1001));
    let reply = complete_profile_check(&body, today).unwrap_err();
    assert_eq!(reply.body.message, "Bio must be less than 1000 characters");
}

#[test]
fn profile_completion_ends() {
    let failed = complete_profile_logged_in(Err(AuthError::Supabase("no".to_string()))).unwrap_err();
    assert_eq!(failed.code, 401);
    assert_eq!(failed.body.status, "error");
    assert_eq!(failed.body.message, "Invalid credentials or account not activated");
    let (kept, user) = complete_profile_logged_in(Ok((session(), Uuid { value: 7 }))).unwrap();
    assert_eq!(kept.access_token, "tok");
    assert_eq!(user, Uuid { value: 7 });
    let done = complete_profile_reply(session(), Ok(profile()));
    assert_eq!(done.code, 201);
    assert_eq!(done.body.status, "success");
    assert_eq!(done.body.message, "Profile completed and logged in");
    let data = done.body.data.unwrap();
    assert_eq!(data.session.access_token, "tok");
    assert_eq!(data.profile.id, Uuid { value: 7 });
    assert_eq!(data.message, "Profile completed successfully! Now you can upload a profile picture.");
    assert_eq!(data.next_step, "upload_profile");
    let lost = complete_profile_reply(session(), Err(AuthError::Supabase("no".to_string())));
    assert_eq!(lost.code, 500);
    assert_eq!(lost.body.message, "Failed to save profile. Please try again.");
    assert!(lost.body.data.is_none());
}

#[test]
fn login_ends_by_whether_there_is_a_profile() {
    let failed = login_logged_in(Err(AuthError::Http("down".to_string()))).unwrap_err();
    assert_eq!(failed.code, 401);
    assert_eq!(failed.body.status, "error");
    assert_eq!(failed.body.message, "Invalid email or password");
    let (kept, user) = login_logged_in(Ok((session(), Uuid { value: 7 }))).unwrap();
    assert_eq!(kept.access_token, "tok");
    assert_eq!(user, Uuid { value: 7 });
    let with = login_reply(session(), Ok(Some(profile())));
    assert_eq!(with.code, 200);
    assert_eq!(with.body.message, "Login successful");
    match with.body.data.unwrap() {
        LoginData::WithProfile(d) => {
            assert_eq!(d.session.access_token, "tok");
            assert_eq!(d.profile.bio, "I play the violin.");
            assert_eq!(d.message, "Login successful! Welcome back.");
            assert_eq!(d.next_step, "dashboard");
        }
        LoginData::NoProfile(_) => panic!("profile expected"),
    }
    let without = login_reply(session(), Ok(None));
    assert_eq!(without.code, 200);
    assert_eq!(without.body.message, "Profile required");
    match without.body.data.unwrap() {
        LoginData::NoProfile(d) => {
            assert_eq!(d.session.refresh_token.as_deref(), Some("ref"));
            assert_eq!(d.message, "Please complete your profile to continue.");
            assert_eq!(d.next_step, "complete_profile");
        }
        LoginData::WithProfile(_) => panic!("no profile expected"),
    }
    let lost = login_reply(session(), Err(AuthError::ProfileNotFound));
    assert_eq!(lost.code, 500);
    assert_eq!(lost.body.message, "Failed to verify account status");
}

#[test]
fn current_profile_is_found_missing_or_lost() {
    let found = get_current_profile_reply(Ok(Some(profile())));
    assert_eq!(found.code, 200);
    assert_eq!(found.body.message, "Profile retrieved successfully");
    assert_eq!(found.body.data.unwrap().primary_skill, "Music");
    let missing = get_current_profile_reply(Ok(None));
    assert_eq!(missing.code, 404);
    assert_eq!(missing.body.status, "error");
    assert_eq!(missing.body.message, "Profile not found. Please complete your profile first.");
    let lost = get_current_profile_reply(Err(AuthError::Http("down".to_string())));
    assert_eq!(lost.code, 500);
    assert_eq!(lost.body.message, "Failed to retrieve profile");
}

#[test]
fn skills_are_listed_with_their_number() {
    let reply = get_skills_reply();
    assert_eq!(reply.code, 200);
    assert_eq!(reply.body.message, "Skills retrieved successfully");
    let data = reply.body.data.unwrap();
    assert_eq!(data.total, 9);
    assert_eq!(data.skills.len(), 9);
    assert_eq!(data.skills[0], "Music");
    assert_eq!(data.skills[8], "Gardening");
}

#[test]
fn probe_passes_on_what_the_backend_said() {
    let svc = AuthService::new("https://p.supabase.co/", "anon", "service");
    let request = test_supabase_request(&svc);
    assert_eq!(request.method, Method::Get);
    assert_eq!(request.url, "https://p.supabase.co//rest/v1/profiles?limit=1");
    assert_eq!(
        request.headers,
        vec![
            ("apikey".to_string(), "anon".to_string()),
            ("Authorization".to_string(), "Bearer service".to_string())
        ]
    );
    let (code, report) = test_supabase_reply(Ok(BaasResponse {
        status: 503,
        status_text: "503 Service Unavailable".to_string(),
        body: "busy".to_string(),
    }));
    assert_eq!(code, 200);
    match report {
        ProbeReport::Reached { status, supabase_status, body } => {
            assert_eq!(status, "success");
            assert_eq!(supabase_status, 503);
            assert_eq!(body, "busy");
        }
        ProbeReport::Unreachable { .. } => panic!("answer expected"),
    }
    let (code, report) = test_supabase_reply(Err("timed out".to_string()));
    assert_eq!(code, 500);
    match report {
        ProbeReport::Unreachable { status, message } => {
            assert_eq!(status, "error");
            assert_eq!(message, "Supabase connection failed: timed out");
        }
        ProbeReport::Reached { .. } => panic!("failure expected"),
    }
}
