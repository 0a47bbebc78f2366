use barterup_be::dates::CalendarDate;
use barterup_be::dtos::CreatePersonalDTO;
use barterup_be::http::{BaasResponse, Method, RequestBody};
use barterup_be::ids::Uuid;
use barterup_be::personal::Personal;
use barterup_be::profile_repo::{ProfileSupabaseRepo, RepoError};

const ID: &str = "550e8400-e29b-41d4-a716-446655440000";

fn id() -> Uuid {
    Uuid { value: 0x550e8400_e29b_41d4_a716_446655440000 }
}

fn resp(status: u16, line: &str, body: &str) -> BaasResponse {
    BaasResponse { status, status_text: line.to_string(), body: body.to_string() }
}

fn pairs(list: &[(&str, &str)]) -> Vec<(String, String)> {
    list.iter().map(|(a, b)| (a.to_string(), b.to_string())).collect()
}

fn person() -> Personal {
    Personal {
        id: id(),
        user_id: id(),
        date_of_birth: CalendarDate::parse("1990-06-15", "%Y-%m-%d").unwrap(),
        primary_skill: "Music".to_string(),
        skill_to_learn: "Art".to_string(),
        bio: "I play the violin.".to_string(),
        profile_picture_url: None,
        created_at: None,
        updated_at: None,
    }
}

#[test]
fn rest_root_is_added_once() {
    assert_eq!(ProfileSupabaseRepo::new("https://p.supabase.co", "k", None).profiles_url(), "https://p.supabase.co/rest/v1/profiles");
    assert_eq!(ProfileSupabaseRepo::new("https://p.supabase.co///", "k", None).profiles_url(), "https://p.supabase.co/rest/v1/profiles");
    assert_eq!(ProfileSupabaseRepo::new("https://p.supabase.co/rest/v1", "k", None).profiles_url(), "https://p.supabase.co/rest/v1/profiles");
    assert_eq!(
        ProfileSupabaseRepo::new("https://p.supabase.co/rest/v1/", "k", None).profiles_url(),
        "https://p.supabase.co/rest/v1/rest/v1/profiles"
    );
}

#[test]
fn headers_carry_the_keys() {
    assert_eq!(
        ProfileSupabaseRepo::new("u", "service", Some("anon")).headers(),
        pairs(&[("Content-Type", "application/json"), ("apikey", "anon"), ("Authorization", "Bearer service")])
    );
    assert_eq!(
        ProfileSupabaseRepo::new("u", "service", None).headers(),
        pairs(&[("Content-Type", "application/json"), ("Authorization", "Bearer service")])
    );
}

#[test]
fn requests_per_operation() {
    let repo = ProfileSupabaseRepo::new("https://p.supabase.co", "service", None);
    let base = pairs(&[("Content-Type", "application/json"), ("Authorization", "Bearer service")]);
    let get = repo.get_by_user_id_request(id());
    assert_eq!(get.method, Method::Get);
    assert_eq!(get.url, format!("https://p.supabase.co/rest/v1/profiles?id=eq.{}&select=*", ID));
    assert_eq!(get.headers, base);
    assert!(get.query.is_empty());
    let role = repo.get_role_by_user_id_request(id());
    assert_eq!(role.url, format!("https://p.supabase.co/rest/v1/profiles?id=eq.{}&select=role", ID));
    let delete = repo.delete_by_user_id_request(id());
    assert_eq!(delete.method, Method::Delete);
    assert_eq!(delete.url, format!("https://p.supabase.co/rest/v1/profiles?id=eq.{}", ID));
    let mut with_prefer = base.clone();
    with_prefer.push(("Prefer".to_string(), "return=representation".to_string()));
    assert_eq!(delete.headers, with_prefer);
    let upsert = repo.upsert_profile_request(
        id(),
        CreatePersonalDTO {
            date_of_birth: "1990-06-15".to_string(),
            primary_skill: "Music".to_string(),
            skill_to_learn: "Art".to_string(),
            bio: "bio".to_string(),
        },
    );
    assert_eq!(upsert.method, Method::Post);
    assert_eq!(upsert.url, "https://p.supabase.co/rest/v1/profiles");
    let mut with_merge = base.clone();
    with_merge.push(("Prefer".to_string(), "resolution=merge-duplicates,return=representation".to_string()));
    assert_eq!(upsert.headers, with_merge);
    match upsert.body {
        RequestBody::ProfileRow { id, role, date_of_birth, .. } => {
            assert_eq!(id, ID);
            assert_eq!(role, "user");
            assert_eq!(date_of_birth, "1990-06-15");
        }
        other => panic!("unexpected body {:?}", other),
    }
}

#[test]
fn write_answer() {
    let ok = resp(201, "201 Created", "[..]");
    assert_eq!(ProfileSupabaseRepo::upsert_profile_outcome(&ok, Ok(Some(person()))).unwrap().bio, "I play the violin.");
    assert!(matches!(
        ProfileSupabaseRepo::upsert_profile_outcome(&ok, Ok(None)),
        Err(RepoError::Other(m)) if m == "empty response from upsert"
    ));
    assert!(matches!(
        ProfileSupabaseRepo::upsert_profile_outcome(&ok, Err("bad row".to_string())),
        Err(RepoError::Serde(m)) if m == "bad row"
    ));
    assert!(matches!(
        ProfileSupabaseRepo::upsert_profile_outcome(&resp(409, "409 Conflict", "dup"), Ok(Some(person()))),
        Err(RepoError::Supabase(m)) if m == "409 -> dup"
    ));
}

#[test]
fn read_answer() {
    let ok = resp(200, "200 OK", "[..]");
    assert_eq!(ProfileSupabaseRepo::get_by_user_id_outcome(&ok, Ok(Some(person()))).unwrap().id, id());
    assert!(matches!(ProfileSupabaseRepo::get_by_user_id_outcome(&ok, Ok(None)), Err(RepoError::NotFound)));
    assert!(matches!(
        ProfileSupabaseRepo::get_by_user_id_outcome(&ok, Err("e".to_string())),
        Err(RepoError::Serde(m)) if m == "e"
    ));
    assert!(matches!(
        ProfileSupabaseRepo::get_by_user_id_outcome(&resp(500, "500 Internal Server Error", ""), Ok(None)),
        Err(RepoError::Supabase(m)) if m == "500 -> "
    ));
}

#[test]
fn role_answer() {
    let role = |body: &str| ProfileSupabaseRepo::get_role_by_user_id_outcome(&resp(200, "200 OK", body));
    assert_eq!(role(r#"[{"role":"admin"}]"#).unwrap().as_deref(), Some("admin"));
    assert_eq!(role(r#"[{"role":"admin"},{"role":"user"}]"#).unwrap().as_deref(), Some("admin"));
    assert_eq!(role(r#"[{"role":null}]"#).unwrap(), None);
    assert_eq!(role(r#"[{}]"#).unwrap(), None);
    assert_eq!(role("[]").unwrap(), None);
    assert!(matches!(role("{}"), Err(RepoError::Serde(_))));
    assert!(matches!(
        ProfileSupabaseRepo::get_role_by_user_id_outcome(&resp(404, "404 Not Found", "x")),
        Err(RepoError::Supabase(m)) if m == "404 -> x"
    ));
}

#[test]
fn delete_answer() {
    assert!(matches!(ProfileSupabaseRepo::delete_by_user_id_outcome(&resp(200, "200 OK", "[]")), Ok(true)));
    assert!(matches!(ProfileSupabaseRepo::delete_by_user_id_outcome(&resp(204, "204 No Content", "")), Ok(true)));
    assert!(matches!(
        ProfileSupabaseRepo::delete_by_user_id_outcome(&resp(403, "403 Forbidden", "no")),
        Err(RepoError::Supabase(m)) if m == "403 -> no"
    ));
}

#[test]
fn repo_error_lines() {
    assert_eq!(RepoError::Http("x".to_string()).message(), "http error: x");
    assert_eq!(RepoError::Serde("x".to_string()).message(), "serde error: x");
    assert_eq!(RepoError::Supabase("x".to_string()).message(), "supabase error: x");
    assert_eq!(RepoError::NotFound.message(), "not found");
    assert_eq!(RepoError::Other("x".to_string()).message(), "other: x");
}
