use barterup_be::config::{
    allowed_origins, bind_address, configured_origins, load_settings, mask_key, pg_settings,
    Environment, MissingVariable, POOL_MAX_SIZE,
};

fn environment() -> Environment {
    let some = |s: &str| Some(s.to_string());
    Environment {
        supabase_url: some("https://p.supabase.co"),
        supabase_service_role_key: some("service"),
        supabase_anon_key: some("anon"),
        pg_host: some("db"),
        pg_user: some("app"),
        pg_pass: None,
        pg_db: some("main"),
        allowed_origins: None,
        port: None,
    }
}

#[test]
fn short_keys_are_not_shown_at_all() {
    assert_eq!(mask_key(""), "[REDACTED]");
    assert_eq!(mask_key("12345678"), "[REDACTED]");
    assert_eq!(mask_key("éééé"), "[REDACTED]");
}

#[test]
fn long_keys_show_four_bytes_at_each_end() {
    assert_eq!(mask_key("123456789"), "1234***6789");
    assert_eq!(mask_key("eyJhbGciOiJIUzI1NiJ9.payload.signature"), "eyJh***ture");
    assert_eq!(mask_key("ééxxxxéé"), "éé***éé");
}

#[test]
fn origins_are_trimmed_and_empty_ones_left_out() {
    assert_eq!(allowed_origins("http://a, http://b ,,  ,http://c"), vec!["http://a", "http://b", "http://c"]);
    assert_eq!(allowed_origins(""), Vec::<String>::new());
    assert_eq!(allowed_origins(" , "), Vec::<String>::new());
    assert_eq!(allowed_origins("http://only"), vec!["http://only"]);
}

#[test]
fn origins_default_to_the_local_ones() {
    assert_eq!(configured_origins(None), vec!["http://localhost:3000", "http://127.0.0.1:3000"]);
    assert_eq!(configured_origins(Some("https://app.example")), vec!["https://app.example"]);
    assert_eq!(configured_origins(Some("")), Vec::<String>::new());
}

#[test]
fn address_to_listen_on() {
    assert_eq!(bind_address(None), "0.0.0.0:8080");
    assert_eq!(bind_address(Some("3000")), "0.0.0.0:3000");
}

#[test]
fn database_settings_need_host_user_and_name() {
    let some = |s: &str| Some(s.to_string());
    let all = pg_settings(some("h"), some("u"), some("p"), some("d")).unwrap();
    assert_eq!(all.host, "h");
    assert_eq!(all.user, "u");
    assert_eq!(all.password.as_deref(), Some("p"));
    assert_eq!(all.dbname, "d");
    assert_eq!(all.max_size, 16);
    assert_eq!(POOL_MAX_SIZE, 16);
    assert_eq!(pg_settings(some("h"), some("u"), None, some("d")).unwrap().password, None);
    assert_eq!(pg_settings(None, None, None, None).unwrap_err(), MissingVariable::PgHost);
    assert_eq!(pg_settings(some("h"), None, None, None).unwrap_err(), MissingVariable::PgUser);
    assert_eq!(pg_settings(some("h"), some("u"), some("p"), None).unwrap_err(), MissingVariable::PgDb);
    assert_eq!(MissingVariable::PgHost.message(), "PG_HOST not set");
    assert_eq!(MissingVariable::PgUser.message(), "PG_USER not set");
    assert_eq!(MissingVariable::PgDb.message(), "PG_DB not set");
}

#[test]
fn settings_are_loaded_with_defaults() {
    let settings = load_settings(environment()).unwrap();
    assert_eq!(settings.supabase_url, "https://p.supabase.co");
    assert_eq!(settings.supabase_service_role_key, "service");
    assert_eq!(settings.supabase_anon_key, "anon");
    assert_eq!(settings.database.host, "db");
    assert_eq!(settings.database.user, "app");
    assert_eq!(settings.database.password, None);
    assert_eq!(settings.database.dbname, "main");
    assert_eq!(settings.database.max_size, 16);
    assert_eq!(settings.allowed_origins, vec!["http://localhost:3000", "http://127.0.0.1:3000"]);
    assert_eq!(settings.bind_address, "0.0.0.0:8080");
    let mut configured = environment();
    configured.pg_pass = Some("secret".to_string());
    configured.allowed_origins = Some(" https://a.example , ".to_string());
    configured.port = Some("3000".to_string());
    let settings = load_settings(configured).unwrap();
    assert_eq!(settings.database.password.as_deref(), Some("secret"));
    assert_eq!(settings.allowed_origins, vec!["https://a.example"]);
    assert_eq!(settings.bind_address, "0.0.0.0:3000");
}

#[test]
fn first_missing_variable_stops_the_start() {
    let without = |clear: fn(&mut Environment)| {
        let mut env = environment();
        clear(&mut env);
        load_settings(env).unwrap_err()
    };
    assert_eq!(without(|e| e.supabase_url = None), MissingVariable::SupabaseUrl);
    assert_eq!(without(|e| e.supabase_service_role_key = None), MissingVariable::SupabaseServiceRoleKey);
    assert_eq!(without(|e| e.supabase_anon_key = None), MissingVariable::SupabaseAnonKey);
    assert_eq!(without(|e| e.pg_host = None), MissingVariable::PgHost);
    assert_eq!(without(|e| e.pg_user = None), MissingVariable::PgUser);
    assert_eq!(without(|e| e.pg_db = None), MissingVariable::PgDb);
    assert_eq!(
        without(|e| {
            e.pg_db = None;
            e.supabase_anon_key = None;
            e.supabase_url = None;
        }),
        MissingVariable::SupabaseUrl
    );
    assert_eq!(
        without(|e| {
            e.pg_db = None;
            e.pg_host = None;
        }),
        MissingVariable::PgHost
    );
    assert_eq!(MissingVariable::SupabaseUrl.message(), "SUPABASE_URL must be set");
    assert_eq!(MissingVariable::SupabaseServiceRoleKey.message(), "SUPABASE_SERVICE_ROLE_KEY must be set");
    assert_eq!(MissingVariable::SupabaseAnonKey.message(), "SUPABASE_ANON_KEY must be set");
}
