//! Reading and updating the caller's own profile.

use crate::auth_service::{column_text, AuthService, AuthServiceView};
use crate::dates::{iso, parsed, CalendarDate};
use crate::dtos::{
    opt_text, CreatePersonalDTO, CreatePersonalView, PersonalDataOut, PersonalDataView,
};
use crate::http::{
    bearer_value, pair, service_headers, BaasRequest, BaasRequestView, BaasResponse,
    BaasResponseView, Method, RequestBody, RequestBodyView,
};
use crate::ids::{describe_uuid_error, uuid_of_text, uuid_text, Uuid};
use crate::json::{json_rows_of_text, parse_rows, Json};
use crate::reply::{
    is_success_status, success_status, Reply, HTTP_BAD_REQUEST, HTTP_INTERNAL_ERROR, HTTP_OK,
};
use crate::text::{blank, is_blank, join2, join3, join4, owned, trim, trimmed};
use vstd::prelude::*;

verus! {

/// A row of the `profiles` table, column by column.
#[derive(Debug)]
pub struct ProfileDbRecord {
    pub id: String,
    pub date_of_birth: Option<String>,
    pub primary_skill: Option<String>,
    pub skill_to_learn: Option<String>,
    pub bio: Option<String>,
    pub profile_picture_url: Option<String>,
    pub full_name: Option<String>,
    pub role: Option<String>,
}

/// The view of `ProfileDbRecord`: its texts as sequences of characters.
pub struct ProfileRecordView {
    pub id: Seq<char>,
    pub date_of_birth: Option<Seq<char>>,
    pub primary_skill: Option<Seq<char>>,
    pub skill_to_learn: Option<Seq<char>>,
    pub bio: Option<Seq<char>>,
    pub profile_picture_url: Option<Seq<char>>,
    pub full_name: Option<Seq<char>>,
    pub role: Option<Seq<char>>,
}

impl View for ProfileDbRecord {
    type V = ProfileRecordView;

    open spec fn view(&self) -> ProfileRecordView {
        ProfileRecordView {
            id: self.id@,
            date_of_birth: opt_text(self.date_of_birth),
            primary_skill: opt_text(self.primary_skill),
            skill_to_learn: opt_text(self.skill_to_learn),
            bio: opt_text(self.bio),
            profile_picture_url: opt_text(self.profile_picture_url),
            full_name: opt_text(self.full_name),
            role: opt_text(self.role),
        }
    }
}

/// The record in a row: each column that is a string, as it stands.
pub open spec fn record_of_row(row: Json) -> ProfileRecordView {
    ProfileRecordView {
        id: column_text(row, "id"@),
        date_of_birth: row.member_text("date_of_birth"@),
        primary_skill: row.member_text("primary_skill"@),
        skill_to_learn: row.member_text("skill_to_learn"@),
        bio: row.member_text("bio"@),
        profile_picture_url: row.member_text("profile_picture_url"@),
        full_name: row.member_text("full_name"@),
        role: row.member_text("role"@),
    }
}

fn optional_column(row: &Json, key: &str) -> (r: Option<String>)
    ensures
        opt_text(r) == row.member_text(key@),
{
    match row.get_str(key) {
        Some(t) => Some(owned(t)),
        None => None,
    }
}

fn record_from_row(row: &Json) -> (r: ProfileDbRecord)
    ensures
        r@ == record_of_row(*row),
{
    let id = match row.get_str("id") {
        Some(t) => owned(t),
        None => String::new(),
    };
    ProfileDbRecord {
        id,
        date_of_birth: optional_column(row, "date_of_birth"),
        primary_skill: optional_column(row, "primary_skill"),
        skill_to_learn: optional_column(row, "skill_to_learn"),
        bio: optional_column(row, "bio"),
        profile_picture_url: optional_column(row, "profile_picture_url"),
        full_name: optional_column(row, "full_name"),
        role: optional_column(row, "role"),
    }
}

/// The request that reads the profile row of `user_id` with the service role.
pub open spec fn profile_data_request(svc: AuthServiceView, user_id: u128) -> BaasRequestView {
    BaasRequestView {
        method: Method::Get,
        url: svc.supabase_url + "/rest/v1/profiles"@,
        headers: service_headers(
            svc.supabase_service_role_key,
            svc.supabase_service_role_key,
            seq![],
        ),
        query: seq![("id"@, "eq."@ + uuid_text(user_id)), ("select"@, "*"@)],
        body: RequestBodyView::Empty,
    }
}

/// The request that reads the profile row of `user_id` with the service role.
pub fn get_user_profile_data_request(svc: &AuthService, user_id: Uuid) -> (r: BaasRequest)
    ensures
        r@ == profile_data_request(svc@, user_id.value),
{
    let key = svc.supabase_service_role_key.as_str();
    let id = user_id.to_text();
    let headers = vec![pair("apikey", key), (owned("Authorization"), bearer_value(key))];
    let query = vec![(owned("id"), join2("eq.", id.as_str())), pair("select", "*")];
    let r = BaasRequest {
        method: Method::Get,
        url: join2(svc.supabase_url.as_str(), "/rest/v1/profiles"),
        headers,
        query,
        body: RequestBody::Empty,
    };
    assert(r@.headers =~= profile_data_request(svc@, user_id.value).headers);
    assert(r@.query =~= profile_data_request(svc@, user_id.value).query);
    r
}

/// What the answer to a profile read means, given the rows that its body
/// parses to: the first row's record, none for an empty array, or a complaint.
pub open spec fn profile_data_outcome_with(
    resp: BaasResponseView,
    rows: Result<Vec<Json>, String>,
) -> Result<Option<ProfileRecordView>, Seq<char>> {
    if !success_status(resp.status) {
        Err("Failed to get profile: "@ + resp.body)
    } else {
        match rows {
            Err(e) => Err(e@),
            Ok(rows) => if rows@.len() > 0 {
                Ok(Some(record_of_row(rows@[0])))
            } else {
                Ok(None)
            },
        }
    }
}

/// What the answer to a profile read means.
pub open spec fn profile_data_outcome(resp: BaasResponseView) -> Result<
    Option<ProfileRecordView>,
    Seq<char>,
> {
    profile_data_outcome_with(resp, json_rows_of_text(resp.body))
}

/// The view of what a profile read gives.
pub open spec fn record_result_view(r: Result<Option<ProfileDbRecord>, String>) -> Result<
    Option<ProfileRecordView>,
    Seq<char>,
> {
    match r {
        Ok(Some(p)) => Ok(Some(p@)),
        Ok(None) => Ok(None),
        Err(e) => Err(e@),
    }
}

/// What the rows of the answer to a profile read mean.
pub fn get_user_profile_data_outcome_with(resp: &BaasResponse, rows: &Result<Vec<Json>, String>) -> (r:
    Result<Option<ProfileDbRecord>, String>)
    ensures
        record_result_view(r) == profile_data_outcome_with(resp@, *rows),
{
    if !is_success_status(resp.status) {
        return Err(join2("Failed to get profile: ", resp.body.as_str()));
    }
    match rows {
        Err(e) => Err(e.clone()),
        Ok(rows) => if rows.len() > 0 {
            Ok(Some(record_from_row(&rows[0])))
        } else {
            Ok(None)
        },
    }
}

/// What the answer to a profile read means.
pub fn get_user_profile_data_outcome(resp: &BaasResponse) -> (r: Result<
    Option<ProfileDbRecord>,
    String,
>)
    ensures
        record_result_view(r) == profile_data_outcome(resp@),
{
    let rows = parse_rows(resp.body.as_str());
    get_user_profile_data_outcome_with(resp, &rows)
}

/// The profile that a record shows to its owner `user_id`: the record's own
/// identifier where it is a UUID, else the owner's; missing columns empty.
pub open spec fn profile_of_record(record: ProfileRecordView, user_id: u128) -> PersonalDataView {
    PersonalDataView {
        id: match uuid_of_text(record.id) {
            Some(id) => id,
            None => user_id,
        },
        user_id,
        date_of_birth: record.date_of_birth.unwrap_or(Seq::empty()),
        primary_skill: record.primary_skill.unwrap_or(Seq::empty()),
        skill_to_learn: record.skill_to_learn.unwrap_or(Seq::empty()),
        bio: record.bio.unwrap_or(Seq::empty()),
        profile_picture_url: record.profile_picture_url,
    }
}

fn text_or_empty(o: Option<String>) -> (r: String)
    ensures
        r@ == opt_text(o).unwrap_or(Seq::empty()),
{
    match o {
        Some(s) => s,
        None => String::new(),
    }
}

/// The answer to a request for the caller's own profile: 200 with the
/// profile, 200 without payload where there is none, 500 where the lookup
/// failed.
pub fn get_user_profile_reply(user_id: Uuid, found: Result<Option<ProfileDbRecord>, String>) -> (r:
    Reply<PersonalDataOut>)
    ensures
        match found {
            Ok(Some(record)) => {
                &&& r.is_success(HTTP_OK, "Profile retrieved successfully"@, true)
                &&& r.body.data matches Some(p)
                &&& p@ == profile_of_record(record@, user_id.value)
            },
            Ok(None) => r.is_success(HTTP_OK, "No profile found"@, false),
            Err(_) => r.is_error(HTTP_INTERNAL_ERROR, "Failed to retrieve profile"@),
        },
{
    match found {
        Ok(Some(record)) => {
            let id = match Uuid::parse_str(record.id.as_str()) {
                Ok(id) => id,
                Err(_) => user_id,
            };
            let profile = PersonalDataOut {
                id,
                user_id,
                date_of_birth: text_or_empty(record.date_of_birth),
                primary_skill: text_or_empty(record.primary_skill),
                skill_to_learn: text_or_empty(record.skill_to_learn),
                bio: text_or_empty(record.bio),
                profile_picture_url: record.profile_picture_url,
            };
            Reply::success(HTTP_OK, "Profile retrieved successfully", Some(profile))
        },
        Ok(None) => Reply::success(HTTP_OK, "No profile found", None),
        Err(_) => Reply::error(HTTP_INTERNAL_ERROR, "Failed to retrieve profile"),
    }
}

/// The date that a date of birth names in a profile update: read as `YYYY-MM-DD`, else
/// as `DD/MM/YYYY`, else as `MM/DD/YYYY`.
pub open spec fn flexible_date(text: Seq<char>) -> Option<CalendarDate> {
    match parsed(text, "%Y-%m-%d"@) {
        Some(d) => Some(d),
        None => match parsed(text, "%d/%m/%Y"@) {
            Some(d) => Some(d),
            None => parsed(text, "%m/%d/%Y"@),
        },
    }
}

/// Reads a date as `YYYY-MM-DD`, else as `DD/MM/YYYY`, else as `MM/DD/YYYY`.
pub fn parse_flexible_date(text: &str) -> (r: Option<CalendarDate>)
    ensures
        r == flexible_date(text@),
        r matches Some(d) ==> d.wf(),
{
    match CalendarDate::parse(text, "%Y-%m-%d") {
        Some(d) => Some(d),
        None => match CalendarDate::parse(text, "%d/%m/%Y") {
            Some(d) => Some(d),
            None => CalendarDate::parse(text, "%m/%d/%Y"),
        },
    }
}

/// The complaint about a date that reads under none of the formats.
pub open spec fn date_complaint(date: Seq<char>) -> Seq<char> {
    "Invalid date format: '"@ + date + "'. Use YYYY-MM-DD"@
}

/// What a profile update is turned into before it is stored, or the
/// complaint: both skills have to be there; a blank date of birth is stored
/// as none, any other has to read as a date and is stored as `YYYY-MM-DD`;
/// skills and bio are trimmed. Neither the list of skills nor the rule that
/// the two skills differ is applied to an update.
pub open spec fn update_verdict(body: CreatePersonalView) -> Result<CreatePersonalView, Seq<char>> {
    update_verdict_with(body, flexible_date(body.date_of_birth))
}

/// What a profile update is turned into, given the date that its date of
/// birth reads as.
pub open spec fn update_verdict_with(body: CreatePersonalView, date: Option<CalendarDate>) -> Result<
    CreatePersonalView,
    Seq<char>,
> {
    if blank(body.primary_skill) {
        Err("Primary skill is required"@)
    } else if blank(body.skill_to_learn) {
        Err("Skill to learn is required"@)
    } else {
        let date = if blank(body.date_of_birth) {
            Some(Seq::<char>::empty())
        } else {
            match date {
                Some(date) => Some(iso(date)),
                None => None,
            }
        };
        match date {
            None => Err(date_complaint(body.date_of_birth)),
            Some(date_of_birth) => Ok(
                CreatePersonalView {
                    date_of_birth,
                    primary_skill: trimmed(body.primary_skill),
                    skill_to_learn: trimmed(body.skill_to_learn),
                    bio: trimmed(body.bio),
                },
            ),
        }
    }
}

/// Checks a profile update before anything is sent. An update that breaks a
/// rule is answered with 400 on the spot.
pub fn update_user_profile_check(body: &CreatePersonalDTO) -> (r: Result<
    CreatePersonalDTO,
    Reply<PersonalDataOut>,
>)
    ensures
        match update_verdict(body@) {
            Err(complaint) => r matches Err(reply) && reply.is_error(HTTP_BAD_REQUEST, complaint),
            Ok(fields) => r matches Ok(dto) && dto@ == fields,
        },
{
    let date = parse_flexible_date(body.date_of_birth.as_str());
    update_user_profile_check_with(body, date)
}

/// Checks a profile update, given the date that its date of birth reads as.
pub fn update_user_profile_check_with(body: &CreatePersonalDTO, date: Option<CalendarDate>) -> (r:
    Result<CreatePersonalDTO, Reply<PersonalDataOut>>)
    requires
        date matches Some(d) ==> d.wf(),
    ensures
        match update_verdict_with(body@, date) {
            Err(complaint) => r matches Err(reply) && reply.is_error(HTTP_BAD_REQUEST, complaint),
            Ok(fields) => r matches Ok(dto) && dto@ == fields,
        },
{
    if is_blank(body.primary_skill.as_str()) {
        return Err(Reply::error(HTTP_BAD_REQUEST, "Primary skill is required"));
    }
    if is_blank(body.skill_to_learn.as_str()) {
        return Err(Reply::error(HTTP_BAD_REQUEST, "Skill to learn is required"));
    }
    let date_of_birth = if is_blank(body.date_of_birth.as_str()) {
        String::new()
    } else {
        match date {
            Some(date) => date.to_iso(),
            None => {
                let complaint = join3(
                    "Invalid date format: '",
                    body.date_of_birth.as_str(),
                    "'. Use YYYY-MM-DD",
                );
                return Err(Reply::error(HTTP_BAD_REQUEST, complaint.as_str()));
            },
        }
    };
    Ok(
        CreatePersonalDTO {
            date_of_birth,
            primary_skill: trim(body.primary_skill.as_str()),
            skill_to_learn: trim(body.skill_to_learn.as_str()),
            bio: trim(body.bio.as_str()),
        },
    )
}

/// The answer to a profile update once the write has replied: 200 with the
/// stored profile, or 500 with the complaint.
pub fn update_user_profile_reply(saved: Result<PersonalDataOut, String>) -> (r: Reply<
    PersonalDataOut,
>)
    ensures
        match saved {
            Ok(profile) => r.is_success(HTTP_OK, "Profile updated successfully"@, true)
                && r.body.data == Some(profile),
            Err(e) => r.is_error(HTTP_INTERNAL_ERROR, "Failed to update profile: "@ + e@),
        },
{
    match saved {
        Ok(profile) => Reply::success(HTTP_OK, "Profile updated successfully", Some(profile)),
        Err(e) => {
            let complaint = join2("Failed to update profile: ", e.as_str());
            Reply::error(HTTP_INTERNAL_ERROR, complaint.as_str())
        },
    }
}

/// The request that writes the fields of a profile update, merging with the
/// row that is there. An empty date of birth is written as null.
pub open spec fn upsert_request(svc: AuthServiceView, user_id: u128, dto: CreatePersonalView) -> BaasRequestView {
    BaasRequestView {
        method: Method::Post,
        url: svc.supabase_url + "/rest/v1/profiles"@,
        headers: service_headers(
            svc.supabase_service_role_key,
            svc.supabase_service_role_key,
            seq![
                ("Content-Type"@, "application/json"@),
                ("Prefer"@, "resolution=merge-duplicates,return=representation"@),
            ],
        ),
        query: seq![],
        body: RequestBodyView::ProfileFields {
            id: user_id,
            date_of_birth: if dto.date_of_birth.len() == 0 {
                None
            } else {
                Some(dto.date_of_birth)
            },
            primary_skill: dto.primary_skill,
            skill_to_learn: dto.skill_to_learn,
            bio: dto.bio,
        },
    }
}

/// The request that writes the fields of a profile update.
pub fn upsert_profile_data_request(svc: &AuthService, user_id: Uuid, profile_dto: CreatePersonalDTO) -> (r:
    BaasRequest)
    ensures
        r@ == upsert_request(svc@, user_id.value, profile_dto@),
{
    let key = svc.supabase_service_role_key.as_str();
    let headers = vec![
        pair("apikey", key),
        (owned("Authorization"), bearer_value(key)),
        pair("Content-Type", "application/json"),
        pair("Prefer", "resolution=merge-duplicates,return=representation"),
    ];
    let date_of_birth = if profile_dto.date_of_birth.as_str().unicode_len() == 0 {
        None
    } else {
        Some(profile_dto.date_of_birth)
    };
    let r = BaasRequest {
        method: Method::Post,
        url: join2(svc.supabase_url.as_str(), "/rest/v1/profiles"),
        headers,
        query: Vec::new(),
        body: RequestBody::ProfileFields {
            id: user_id,
            date_of_birth,
            primary_skill: profile_dto.primary_skill,
            skill_to_learn: profile_dto.skill_to_learn,
            bio: profile_dto.bio,
        },
    };
    assert(r@.headers =~= upsert_request(svc@, user_id.value, profile_dto@).headers);
    assert(r@.query =~= upsert_request(svc@, user_id.value, profile_dto@).query);
    r
}

/// The profile in the first row that a write returned.
pub open spec fn stored_profile(row: Json, id: u128) -> PersonalDataView {
    PersonalDataView {
        id,
        user_id: id,
        date_of_birth: column_text(row, "date_of_birth"@),
        primary_skill: column_text(row, "primary_skill"@),
        skill_to_learn: column_text(row, "skill_to_learn"@),
        bio: column_text(row, "bio"@),
        profile_picture_url: row.member_text("profile_picture_url"@),
    }
}

/// The complaint about a row whose `id` is no UUID; `detail` says why not.
pub open spec fn invalid_id_text(detail: Seq<char>) -> Seq<char> {
    "Invalid UUID format for id: "@ + detail
}

/// The complaint about a row whose `id` is no UUID.
pub fn invalid_id_complaint(detail: &str) -> (r: String)
    ensures
        r@ == invalid_id_text(detail@),
{
    join2("Invalid UUID format for id: ", detail)
}

/// Whether `r` is what the answer to a profile write means, given the rows
/// that its body parses to. Where the row's `id` is no UUID, the detail of
/// the complaint is the `uuid` crate's, and is not pinned down here.
pub open spec fn is_upsert_outcome(
    resp: BaasResponseView,
    rows: Result<Vec<Json>, String>,
    r: Result<PersonalDataOut, String>,
) -> bool {
    if !success_status(resp.status) {
        r matches Err(e) && e@ == "Failed to upsert profile: "@ + resp.status_text + " - "@
            + resp.body
    } else {
        match rows {
            Err(parse) => r matches Err(e) && e@ == "Failed to parse response JSON: "@ + parse@
                + " - Response: "@ + resp.body,
            Ok(rows) => if rows@.len() == 0 {
                r matches Err(e) && e@ == "No profile data returned from upsert"@
            } else {
                match rows@[0].member_text("id"@) {
                    None => r matches Err(e) && e@ == "Missing id in profile response"@,
                    Some(t) => match uuid_of_text(t) {
                        None => r matches Err(e) && exists|detail: Seq<char>|
                            e@ == invalid_id_text(detail),
                        Some(id) => r matches Ok(p) && p@ == stored_profile(rows@[0], id),
                    },
                }
            },
        }
    }
}

/// What the rows of the answer to a profile write mean.
pub fn upsert_profile_data_outcome_with(resp: &BaasResponse, rows: &Result<Vec<Json>, String>) -> (r:
    Result<PersonalDataOut, String>)
    ensures
        is_upsert_outcome(resp@, *rows, r),
{
    if !is_success_status(resp.status) {
        return Err(
            join4(
                "Failed to upsert profile: ",
                resp.status_text.as_str(),
                " - ",
                resp.body.as_str(),
            ),
        );
    }
    let rows = match rows {
        Ok(rows) => rows,
        Err(e) => {
            return Err(
                join4("Failed to parse response JSON: ", e.as_str(), " - Response: ", resp.body.as_str()),
            );
        },
    };
    if rows.len() == 0 {
        return Err(owned("No profile data returned from upsert"));
    }
    let row = &rows[0];
    let id_text = match row.get_str("id") {
        Some(t) => t,
        None => {
            return Err(owned("Missing id in profile response"));
        },
    };
    let id = match Uuid::parse_str(id_text) {
        Ok(id) => id,
        Err(e) => {
            let detail = describe_uuid_error(&e);
            return Err(invalid_id_complaint(detail.as_str()));
        },
    };
    Ok(
        PersonalDataOut {
            id,
            user_id: id,
            date_of_birth: crate::auth_service::column(row, "date_of_birth"),
            primary_skill: crate::auth_service::column(row, "primary_skill"),
            skill_to_learn: crate::auth_service::column(row, "skill_to_learn"),
            bio: crate::auth_service::column(row, "bio"),
            profile_picture_url: optional_column(row, "profile_picture_url"),
        },
    )
}

/// What the answer to a profile write means: the stored profile, or the
/// complaint.
pub fn upsert_profile_data_outcome(resp: &BaasResponse) -> (r: Result<PersonalDataOut, String>)
    ensures
        is_upsert_outcome(resp@, json_rows_of_text(resp.body@), r),
{
    let rows = parse_rows(resp.body.as_str());
    upsert_profile_data_outcome_with(resp, &rows)
}

} // verus!
