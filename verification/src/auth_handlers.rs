//! Signup, profile completion and login: what is checked before the backend is
//! asked, and what is answered once it has replied.

use crate::auth_service::{error_text, AuthError, AuthService, AuthServiceView};
use crate::http::{
    bearer_value, pair, service_headers, BaasRequest, BaasRequestView, BaasResponse, Method,
    RequestBody, RequestBodyView,
};
use crate::dates::{age_in_window, is_age_in_window, iso, parsed, CalendarDate};
use crate::dtos::{
    clone_opt, opt_text, CompleteProfileRequest, CreatePersonalDTO, CreatePersonalView, LoginIn,
    LoginInView, LoginNoProfileResponse, LoginWithProfileResponse, PersonalDataOut,
    ProfileCompleteResponse, SessionOut, SignupIn, SignupInView, SignupResponse,
};
use crate::email::{email_shaped, looks_like_email};
use crate::ids::Uuid;
use crate::personal::{get_valid_skills, valid_skills};
use crate::reply::{
    Reply, HTTP_BAD_REQUEST, HTTP_CREATED, HTTP_INTERNAL_ERROR, HTTP_NOT_FOUND, HTTP_OK,
    HTTP_UNAUTHORIZED,
};
use crate::text::{
    blank, char_len, contains, contains_text, is_blank, join2, lowercase, owned, to_lowercase,
    trim, trimmed,
};
use vstd::prelude::*;

verus! {

/// What is wrong with a signup.
#[derive(Clone, Copy, Debug, PartialEq, Eq, Structural)]
pub enum SignupFault {
    /// The address, trimmed and in lower case, has not the shape of one.
    Email,
    /// The password has fewer than 6 characters.
    Password,
}

impl SignupFault {
    /// What the client is told.
    pub open spec fn text(self) -> Seq<char> {
        match self {
            SignupFault::Email => "Invalid email format"@,
            SignupFault::Password => "Password must be at least 6 characters long"@,
        }
    }
}

/// The address as it is stored: trimmed, in lower case.
pub open spec fn normalized_email(email: Seq<char>) -> Seq<char> {
    lowercase(trimmed(email))
}

/// What is wrong with a signup, if anything, given whether its normalized
/// address has the shape of one; the address is looked at first.
pub open spec fn signup_fault_with(shaped: bool, password: Seq<char>) -> Option<SignupFault> {
    if !shaped {
        Some(SignupFault::Email)
    } else if password.len() < 6 {
        Some(SignupFault::Password)
    } else {
        None
    }
}

/// What is wrong with a signup, if anything.
pub open spec fn signup_fault(body: SignupInView) -> Option<SignupFault> {
    signup_fault_with(email_shaped(normalized_email(body.email)), body.password)
}

/// Checks a signup whose address has been normalized to `email` and found
/// `shaped` or not.
pub fn signup_check_with(body: &SignupIn, email: String, shaped: bool) -> (r: Result<
    SignupIn,
    Reply<SignupResponse>,
>)
    ensures
        match signup_fault_with(shaped, body.password@) {
            Some(fault) => r matches Err(reply) && reply.is_error(HTTP_BAD_REQUEST, fault.text()),
            None => r matches Ok(data) && data@ == (SignupInView {
                email: email@,
                password: body.password@,
                username: opt_text(body.username),
            }),
        },
{
    if !shaped {
        return Err(Reply::error(HTTP_BAD_REQUEST, "Invalid email format"));
    }
    if char_len(body.password.as_str()) < 6 {
        return Err(Reply::error(HTTP_BAD_REQUEST, "Password must be at least 6 characters long"));
    }
    Ok(SignupIn { email, password: body.password.clone(), username: clone_opt(&body.username) })
}

/// Checks a signup before anything is sent. A malformed address or a short
/// password is answered with 400 on the spot; otherwise the result is the
/// signup with its address normalized, ready for the backend.
pub fn signup_check(body: &SignupIn) -> (r: Result<SignupIn, Reply<SignupResponse>>)
    ensures
        match signup_fault(body@) {
            Some(fault) => r matches Err(reply) && reply.is_error(HTTP_BAD_REQUEST, fault.text()),
            None => r matches Ok(data) && data@ == (SignupInView {
                email: normalized_email(body.email@),
                password: body.password@,
                username: opt_text(body.username),
            }),
        },
        !email_shaped(normalized_email(body.email@)) ==> (r matches Err(reply) && reply.code
            == HTTP_BAD_REQUEST),
        body.password@.len() < 6 ==> (r matches Err(reply) && reply.code == HTTP_BAD_REQUEST),
{
    let trimmed_email = trim(body.email.as_str());
    let email = to_lowercase(trimmed_email.as_str());
    let shaped = looks_like_email(email.as_str());
    signup_check_with(body, email, shaped)
}

/// The complaint to the client about a signup that the backend refused.
pub open spec fn signup_refusal_text(error: Seq<char>) -> Seq<char> {
    if contains_text(error, "already registered"@) {
        "Email already exists. Please login instead."@
    } else {
        "Failed to create account. Please try again."@
    }
}

/// The answer to a signup, once the backend has replied: 201 with the new
/// user's identifier, or 400 with one of two complaints.
pub fn signup_reply(outcome: Result<Uuid, AuthError>) -> (r: Reply<SignupResponse>)
    ensures
        match outcome {
            Ok(id) => {
                &&& r.is_success(HTTP_CREATED, "Account created"@, true)
                &&& r.body.data matches Some(d)
                &&& d.user_id == id
                &&& d.message@
                    == "Account created successfully. Please complete your profile to continue."@
                &&& d.next_step@ == "complete_profile"@
            },
            Err(e) => r.is_error(HTTP_BAD_REQUEST, signup_refusal_text(error_text(e@))),
        },
{
    match outcome {
        Ok(user_id) => {
            let response = SignupResponse {
                user_id,
                message: owned(
                    "Account created successfully. Please complete your profile to continue.",
                ),
                next_step: owned("complete_profile"),
            };
            Reply::success(HTTP_CREATED, "Account created", Some(response))
        },
        Err(e) => {
            let described = e.message();
            if contains(described.as_str(), "already registered") {
                Reply::error(HTTP_BAD_REQUEST, "Email already exists. Please login instead.")
            } else {
                Reply::error(HTTP_BAD_REQUEST, "Failed to create account. Please try again.")
            }
        },
    }
}

/// What is wrong with a request to complete a profile.
#[derive(Clone, Copy, Debug, PartialEq, Eq, Structural)]
pub enum ProfileFormFault {
    /// A field is blank.
    MissingField,
    /// The date of birth reads neither as `DD/MM/YYYY` nor as `YYYY-MM-DD`.
    DateFormat,
    /// The date of birth is less than 13 or more than 120 years back.
    Age,
    /// A skill has more than 100 characters.
    SkillLength,
    /// The bio has more than 1000 characters.
    BioLength,
}

impl ProfileFormFault {
    /// What the client is told.
    pub open spec fn text(self) -> Seq<char> {
        match self {
            ProfileFormFault::MissingField => "All fields are required"@,
            ProfileFormFault::DateFormat => "Invalid date format. Use DD/MM/YYYY"@,
            ProfileFormFault::Age => "Age must be between 13 and 120 years"@,
            ProfileFormFault::SkillLength => "Skills must be less than 100 characters each"@,
            ProfileFormFault::BioLength => "Bio must be less than 1000 characters"@,
        }
    }

    /// What the client is told.
    pub fn message(self) -> (r: String)
        ensures
            r@ == self.text(),
    {
        match self {
            ProfileFormFault::MissingField => owned("All fields are required"),
            ProfileFormFault::DateFormat => owned("Invalid date format. Use DD/MM/YYYY"),
            ProfileFormFault::Age => owned("Age must be between 13 and 120 years"),
            ProfileFormFault::SkillLength => owned("Skills must be less than 100 characters each"),
            ProfileFormFault::BioLength => owned("Bio must be less than 1000 characters"),
        }
    }
}

/// The date that a date of birth names: read as `DD/MM/YYYY`, else as
/// `YYYY-MM-DD`.
pub open spec fn birth_date(text: Seq<char>) -> Option<CalendarDate> {
    match parsed(text, "%d/%m/%Y"@) {
        Some(d) => Some(d),
        None => parsed(text, "%Y-%m-%d"@),
    }
}

/// Reads a date of birth as `DD/MM/YYYY`, else as `YYYY-MM-DD`.
pub fn parse_birth_date(text: &str) -> (r: Option<CalendarDate>)
    ensures
        r == birth_date(text@),
        r matches Some(d) ==> d.wf(),
{
    match CalendarDate::parse(text, "%d/%m/%Y") {
        Some(d) => Some(d),
        None => CalendarDate::parse(text, "%Y-%m-%d"),
    }
}

/// What is wrong with a request to complete a profile on the day `today`, or
/// else the date of birth that it names.
pub open spec fn profile_form_verdict(
    email: Seq<char>,
    password: Seq<char>,
    profile: CreatePersonalView,
    today: CalendarDate,
) -> Result<CalendarDate, ProfileFormFault> {
    profile_form_verdict_with(email, password, profile, birth_date(profile.date_of_birth), today)
}

/// What is wrong with a request to complete a profile on the day `today`,
/// given the date that its date of birth reads as, or else that date. The rules
/// are tried in the order of `ProfileFormFault`.
pub open spec fn profile_form_verdict_with(
    email: Seq<char>,
    password: Seq<char>,
    profile: CreatePersonalView,
    birth: Option<CalendarDate>,
    today: CalendarDate,
) -> Result<CalendarDate, ProfileFormFault> {
    if blank(email) || blank(password) || blank(profile.date_of_birth) || blank(
        profile.primary_skill,
    ) || blank(profile.skill_to_learn) || blank(profile.bio) {
        Err(ProfileFormFault::MissingField)
    } else {
        match birth {
            None => Err(ProfileFormFault::DateFormat),
            Some(date) => if !age_in_window(date, today) {
                Err(ProfileFormFault::Age)
            } else if profile.primary_skill.len() > 100 || profile.skill_to_learn.len()
                > 100 {
                Err(ProfileFormFault::SkillLength)
            } else if profile.bio.len() > 1000 {
                Err(ProfileFormFault::BioLength)
            } else {
                Ok(date)
            },
        }
    }
}

/// What a valid request to complete a profile leads to: a login with the
/// request's credentials, then a write of the profile with its date of birth
/// in `YYYY-MM-DD`.
#[derive(Debug)]
pub struct CompleteProfilePlan {
    pub login: LoginIn,
    pub profile: CreatePersonalDTO,
}

/// Whether `r` answers a request as the verdict says: the complaint with 400,
/// or the plan with the date of birth in `YYYY-MM-DD`.
pub open spec fn is_completion_plan(
    verdict: Result<CalendarDate, ProfileFormFault>,
    body: CompleteProfileRequest,
    r: Result<CompleteProfilePlan, Reply<ProfileCompleteResponse>>,
) -> bool {
    match verdict {
        Err(fault) => r matches Err(reply) && reply.is_error(HTTP_BAD_REQUEST, fault.text()),
        Ok(date) => {
            &&& r matches Ok(plan)
            &&& plan.login@ == (LoginInView { email: body.email@, password: body.password@ })
            &&& plan.profile@ == (CreatePersonalView {
                date_of_birth: iso(date),
                primary_skill: body.profile.primary_skill@,
                skill_to_learn: body.profile.skill_to_learn@,
                bio: body.profile.bio@,
            })
        },
    }
}

/// Checks a request to complete a profile before anything is sent. A request
/// that breaks a rule is answered with 400 on the spot.
pub fn complete_profile_check(body: &CompleteProfileRequest, today: CalendarDate) -> (r: Result<
    CompleteProfilePlan,
    Reply<ProfileCompleteResponse>,
>)
    ensures
        is_completion_plan(
            profile_form_verdict(body.email@, body.password@, body.profile@, today),
            *body,
            r,
        ),
{
    let birth = parse_birth_date(body.profile.date_of_birth.as_str());
    complete_profile_check_with(body, birth, today)
}

/// Checks a request to complete a profile, given the date that its date of
/// birth reads as.
pub fn complete_profile_check_with(body: &CompleteProfileRequest, birth: Option<CalendarDate>, today: CalendarDate) -> (r:
    Result<CompleteProfilePlan, Reply<ProfileCompleteResponse>>)
    requires
        birth matches Some(d) ==> d.wf(),
    ensures
        is_completion_plan(
            profile_form_verdict_with(
                body.email@,
                body.password@,
                body.profile@,
                birth,
                today,
            ),
            *body,
            r,
        ),
{
    let profile = &body.profile;
    if is_blank(body.email.as_str()) || is_blank(body.password.as_str()) || is_blank(
        profile.date_of_birth.as_str(),
    ) || is_blank(profile.primary_skill.as_str()) || is_blank(profile.skill_to_learn.as_str())
        || is_blank(profile.bio.as_str()) {
        return Err(Reply::error(HTTP_BAD_REQUEST, "All fields are required"));
    }
    let date = match birth {
        Some(date) => date,
        None => {
            return Err(Reply::error(HTTP_BAD_REQUEST, "Invalid date format. Use DD/MM/YYYY"));
        },
    };
    if !is_age_in_window(date, today) {
        return Err(Reply::error(HTTP_BAD_REQUEST, "Age must be between 13 and 120 years"));
    }
    if char_len(profile.primary_skill.as_str()) > 100 || char_len(profile.skill_to_learn.as_str())
        > 100 {
        return Err(Reply::error(HTTP_BAD_REQUEST, "Skills must be less than 100 characters each"));
    }
    if char_len(profile.bio.as_str()) > 1000 {
        return Err(Reply::error(HTTP_BAD_REQUEST, "Bio must be less than 1000 characters"));
    }
    Ok(
        CompleteProfilePlan {
            login: LoginIn { email: body.email.clone(), password: body.password.clone() },
            profile: CreatePersonalDTO {
                date_of_birth: date.to_iso(),
                primary_skill: profile.primary_skill.clone(),
                skill_to_learn: profile.skill_to_learn.clone(),
                bio: profile.bio.clone(),
            },
        },
    )
}

/// What follows the login inside a profile completion: the profile write
/// for the user who logged in, or, where the login failed, 401 whatever the
/// reason.
pub fn complete_profile_logged_in(login: Result<(SessionOut, Uuid), AuthError>) -> (r: Result<
    (SessionOut, Uuid),
    Reply<ProfileCompleteResponse>,
>)
    ensures
        match login {
            Ok(logged_in) => r == Ok::<(SessionOut, Uuid), Reply<ProfileCompleteResponse>>(
                logged_in,
            ),
            Err(_) => r matches Err(reply) && reply.is_error(
                HTTP_UNAUTHORIZED,
                "Invalid credentials or account not activated"@,
            ),
        },
{
    match login {
        Ok(logged_in) => Ok(logged_in),
        Err(_) => Err(
            Reply::error(HTTP_UNAUTHORIZED, "Invalid credentials or account not activated"),
        ),
    }
}

/// The answer to a profile completion once the profile write has replied: 201
/// with the session and the stored profile, or 500.
pub fn complete_profile_reply(session: SessionOut, saved: Result<PersonalDataOut, AuthError>) -> (r:
    Reply<ProfileCompleteResponse>)
    ensures
        match saved {
            Ok(profile) => {
                &&& r.is_success(HTTP_CREATED, "Profile completed and logged in"@, true)
                &&& r.body.data matches Some(d)
                &&& d.session == session
                &&& d.profile == profile
                &&& d.message@
                    == "Profile completed successfully! Now you can upload a profile picture."@
                &&& d.next_step@ == "upload_profile"@
            },
            Err(_) => r.is_error(HTTP_INTERNAL_ERROR, "Failed to save profile. Please try again."@),
        },
{
    match saved {
        Ok(profile) => {
            let response = ProfileCompleteResponse {
                session,
                profile,
                message: owned(
                    "Profile completed successfully! Now you can upload a profile picture.",
                ),
                next_step: owned("upload_profile"),
            };
            Reply::success(HTTP_CREATED, "Profile completed and logged in", Some(response))
        },
        Err(_) => Reply::error(HTTP_INTERNAL_ERROR, "Failed to save profile. Please try again."),
    }
}

/// The skills on offer, with their number.
#[derive(Debug)]
pub struct SkillsResponse {
    pub skills: Vec<&'static str>,
    pub total: usize,
}

/// The answer to a request for the skills on offer.
pub fn get_skills_reply() -> (r: Reply<SkillsResponse>)
    ensures
        r.is_success(HTTP_OK, "Skills retrieved successfully"@, true),
        r.body.data matches Some(d) && d.skills.deep_view() == valid_skills() && d.total
            == valid_skills().len(),
{
    let skills = get_valid_skills();
    assert(skills.deep_view().len() == skills.len());
    let response = SkillsResponse { total: skills.len(), skills };
    Reply::success(HTTP_OK, "Skills retrieved successfully", Some(response))
}

/// What a login answers with: the session, and the profile where there is one.
#[derive(Debug)]
pub enum LoginData {
    WithProfile(LoginWithProfileResponse),
    NoProfile(LoginNoProfileResponse),
}

/// What follows a login: the lookup of the profile of the user who logged in,
/// or, where the credentials were refused or the login failed otherwise, 401
/// whatever the reason.
pub fn login_logged_in(login: Result<(SessionOut, Uuid), AuthError>) -> (r: Result<
    (SessionOut, Uuid),
    Reply<LoginData>,
>)
    ensures
        match login {
            Ok(logged_in) => r == Ok::<(SessionOut, Uuid), Reply<LoginData>>(logged_in),
            Err(_) => r matches Err(reply) && reply.is_error(
                HTTP_UNAUTHORIZED,
                "Invalid email or password"@,
            ),
        },
{
    match login {
        Ok(logged_in) => Ok(logged_in),
        Err(_) => Err(Reply::error(HTTP_UNAUTHORIZED, "Invalid email or password")),
    }
}

/// The answer to a login once the profile has been looked up: 200 with the
/// session either way, sending the client on to the dashboard where there is
/// a profile and to profile completion where there is none; 500 where the
/// lookup failed.
pub fn login_reply(session: SessionOut, found: Result<Option<PersonalDataOut>, AuthError>) -> (r:
    Reply<LoginData>)
    ensures
        match found {
            Ok(Some(profile)) => {
                &&& r.is_success(HTTP_OK, "Login successful"@, true)
                &&& r.body.data matches Some(LoginData::WithProfile(d))
                &&& d.session == session
                &&& d.profile == profile
                &&& d.message@ == "Login successful! Welcome back."@
                &&& d.next_step@ == "dashboard"@
            },
            Ok(None) => {
                &&& r.is_success(HTTP_OK, "Profile required"@, true)
                &&& r.body.data matches Some(LoginData::NoProfile(d))
                &&& d.session == session
                &&& d.message@ == "Please complete your profile to continue."@
                &&& d.next_step@ == "complete_profile"@
            },
            Err(_) => r.is_error(HTTP_INTERNAL_ERROR, "Failed to verify account status"@),
        },
{
    match found {
        Ok(Some(profile)) => {
            let response = LoginWithProfileResponse {
                session,
                profile,
                message: owned("Login successful! Welcome back."),
                next_step: owned("dashboard"),
            };
            Reply::success(HTTP_OK, "Login successful", Some(LoginData::WithProfile(response)))
        },
        Ok(None) => {
            let response = LoginNoProfileResponse {
                session,
                message: owned("Please complete your profile to continue."),
                next_step: owned("complete_profile"),
            };
            Reply::success(HTTP_OK, "Profile required", Some(LoginData::NoProfile(response)))
        },
        Err(_) => Reply::error(HTTP_INTERNAL_ERROR, "Failed to verify account status"),
    }
}

/// The answer to a request for the caller's own profile: 200 with the
/// profile, 404 where there is none yet, 500 where the lookup failed.
pub fn get_current_profile_reply(found: Result<Option<PersonalDataOut>, AuthError>) -> (r: Reply<
    PersonalDataOut,
>)
    ensures
        match found {
            Ok(Some(profile)) => r.is_success(HTTP_OK, "Profile retrieved successfully"@, true)
                && r.body.data == Some(profile),
            Ok(None) => r.is_error(
                HTTP_NOT_FOUND,
                "Profile not found. Please complete your profile first."@,
            ),
            Err(_) => r.is_error(HTTP_INTERNAL_ERROR, "Failed to retrieve profile"@),
        },
{
    match found {
        Ok(Some(profile)) => Reply::success(HTTP_OK, "Profile retrieved successfully", Some(profile)),
        Ok(None) => Reply::error(
            HTTP_NOT_FOUND,
            "Profile not found. Please complete your profile first.",
        ),
        Err(_) => Reply::error(HTTP_INTERNAL_ERROR, "Failed to retrieve profile"),
    }
}

/// The request that probes the backend: one row of the `profiles` table.
pub open spec fn probe_request(svc: AuthServiceView) -> BaasRequestView {
    BaasRequestView {
        method: Method::Get,
        url: svc.supabase_url + "/rest/v1/profiles?limit=1"@,
        headers: service_headers(svc.supabase_anon_key, svc.supabase_service_role_key, seq![]),
        query: seq![],
        body: RequestBodyView::Empty,
    }
}

/// The request that probes the backend.
pub fn test_supabase_request(svc: &AuthService) -> (r: BaasRequest)
    ensures
        r@ == probe_request(svc@),
{
    let headers = vec![
        pair("apikey", svc.supabase_anon_key.as_str()),
        (owned("Authorization"), bearer_value(svc.supabase_service_role_key.as_str())),
    ];
    let r = BaasRequest {
        method: Method::Get,
        url: join2(svc.supabase_url.as_str(), "/rest/v1/profiles?limit=1"),
        headers,
        query: Vec::new(),
        body: RequestBody::Empty,
    };
    assert(r@.headers =~= probe_request(svc@).headers);
    assert(r@.query =~= probe_request(svc@).query);
    r
}

/// What a probe of the backend found.
#[derive(Debug)]
pub enum ProbeReport {
    /// The backend answered; its status and body are passed on as they came.
    Reached { status: String, supabase_status: u16, body: String },
    /// The backend could not be reached.
    Unreachable { status: String, message: String },
}

/// The answer to a probe: 200 with whatever the backend said, whatever its
/// status; 500 where it could not be reached, with the reason.
pub fn test_supabase_reply(answer: Result<BaasResponse, String>) -> (r: (u16, ProbeReport))
    ensures
        match answer {
            Ok(resp) => {
                &&& r.0 == HTTP_OK
                &&& r.1 matches ProbeReport::Reached { status, supabase_status, body }
                &&& status@ == "success"@
                &&& supabase_status == resp.status
                &&& body == resp.body
            },
            Err(e) => {
                &&& r.0 == HTTP_INTERNAL_ERROR
                &&& r.1 matches ProbeReport::Unreachable { status, message }
                &&& status@ == "error"@
                &&& message@ == "Supabase connection failed: "@ + e@
            },
        },
{
    match answer {
        Ok(resp) => (
            HTTP_OK,
            ProbeReport::Reached {
                status: owned("success"),
                supabase_status: resp.status,
                body: resp.body,
            },
        ),
        Err(e) => (
            HTTP_INTERNAL_ERROR,
            ProbeReport::Unreachable {
                status: owned("error"),
                message: join2("Supabase connection failed: ", e.as_str()),
            },
        ),
    }
}


} // verus!
