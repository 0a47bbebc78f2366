//! Settings taken from the process environment, once its variables are read.

use crate::text::{
    join2, join3, owned, split, split_on, trim, trimmed,
};
use vstd::prelude::*;
use vstd::utf8::{decode_utf8, encode_utf8, is_char_boundary};

verus! {

/// Size of the database connection pool.
pub const POOL_MAX_SIZE: usize = 16;

/// Seconds for which a browser may cache a CORS preflight.
pub const CORS_MAX_AGE: usize = 3600;

/// The origins allowed where none are configured.
pub const DEFAULT_ORIGINS: &'static str = "http://localhost:3000,http://127.0.0.1:3000";

/// The port to listen on where none is configured.
pub const DEFAULT_PORT: &'static str = "8080";

/// A key as it may be logged: its first four and last four bytes around three
/// stars, or nothing of it where it has eight bytes or fewer.
pub open spec fn masked(k: Seq<char>) -> Seq<char> {
    let bytes = encode_utf8(k);
    if bytes.len() <= 8 {
        "[REDACTED]"@
    } else {
        decode_utf8(bytes.subrange(0, 4)) + "***"@ + decode_utf8(
            bytes.subrange(bytes.len() - 4, bytes.len() as int),
        )
    }
}

/// Whether a key can be cut four bytes from either end without splitting a
/// character.
pub open spec fn maskable(k: Seq<char>) -> bool {
    let bytes = encode_utf8(k);
    bytes.len() > 8 ==> is_char_boundary(bytes, 4) && is_char_boundary(bytes, bytes.len() - 4)
}

/// A key as it may be logged.
pub fn mask_key(k: &str) -> (r: String)
    requires
        maskable(k@),
    ensures
        r@ == masked(k@),
{
    broadcast use vstd::utf8::encode_utf8_decode_utf8;

    let n = k.as_bytes().len();
    if n <= 8 {
        owned("[REDACTED]")
    } else {
        let (head, _) = k.split_at(4);
        let (_, tail) = k.split_at(n - 4);
        assert(head@ == decode_utf8(encode_utf8(head@)));
        assert(tail@ == decode_utf8(encode_utf8(tail@)));
        join3(head, "***", tail)
    }
}

/// The origins in the pieces of a list: each piece trimmed, empty ones left out.
pub open spec fn kept_origins(pieces: Seq<Seq<char>>) -> Seq<Seq<char>>
    decreases pieces.len(),
{
    if pieces.len() == 0 {
        Seq::empty()
    } else {
        let before = kept_origins(pieces.drop_last());
        let origin = trimmed(pieces.last());
        if origin.len() > 0 {
            before.push(origin)
        } else {
            before
        }
    }
}

/// The origins in a comma-separated list.
pub open spec fn origins_of(list: Seq<char>) -> Seq<Seq<char>> {
    kept_origins(split_on(list, ','))
}

/// The origins in a comma-separated list: each trimmed, empty ones left out.
pub fn allowed_origins(list: &str) -> (r: Vec<String>)
    ensures
        r.deep_view() == origins_of(list@),
{
    let pieces = split(list, ',');
    let mut r: Vec<String> = Vec::new();
    let mut i: usize = 0;
    assert(pieces.deep_view().take(0) == Seq::<Seq<char>>::empty());
    assert(r.deep_view() == Seq::<Seq<char>>::empty());
    while i < pieces.len()
        invariant
            i <= pieces.len(),
            pieces.deep_view() == split_on(list@, ','),
            r.deep_view() == kept_origins(pieces.deep_view().take(i as int)),
        decreases pieces.len() - i,
    {
        let ghost before = r.deep_view();
        let ghost upto = pieces.deep_view().take(i + 1);
        assert(upto.drop_last() == pieces.deep_view().take(i as int));
        assert(upto.last() == pieces@[i as int]@);
        let origin = trim(pieces[i].as_str());
        if origin.as_str().unicode_len() > 0 {
            r.push(origin);
            assert(r.deep_view() == before.push(origin@));
        }
        i += 1;
    }
    assert(pieces.deep_view().take(pieces.len() as int) == pieces.deep_view());
    r
}

/// The origins to allow: those configured, else the two local defaults.
pub fn configured_origins(variable: Option<&str>) -> (r: Vec<String>)
    ensures
        r.deep_view() == origins_of(
            match variable {
                Some(list) => list@,
                None => DEFAULT_ORIGINS@,
            },
        ),
{
    match variable {
        Some(list) => allowed_origins(list),
        None => allowed_origins(DEFAULT_ORIGINS),
    }
}

/// The address to listen on: every interface, at the configured port or 8080.
pub fn bind_address(port: Option<&str>) -> (r: String)
    ensures
        r@ == "0.0.0.0:"@ + match port {
            Some(p) => p@,
            None => DEFAULT_PORT@,
        },
{
    match port {
        Some(p) => join2("0.0.0.0:", p),
        None => join2("0.0.0.0:", DEFAULT_PORT),
    }
}

/// A required variable that is not set.
#[derive(Clone, Copy, Debug, PartialEq, Eq, Structural)]
pub enum MissingVariable {
    SupabaseUrl,
    SupabaseServiceRoleKey,
    SupabaseAnonKey,
    PgHost,
    PgUser,
    PgDb,
}

impl MissingVariable {
    /// The complaint about the variable.
    pub open spec fn text(self) -> Seq<char> {
        match self {
            MissingVariable::SupabaseUrl => "SUPABASE_URL must be set"@,
            MissingVariable::SupabaseServiceRoleKey => "SUPABASE_SERVICE_ROLE_KEY must be set"@,
            MissingVariable::SupabaseAnonKey => "SUPABASE_ANON_KEY must be set"@,
            MissingVariable::PgHost => "PG_HOST not set"@,
            MissingVariable::PgUser => "PG_USER not set"@,
            MissingVariable::PgDb => "PG_DB not set"@,
        }
    }

    /// The complaint about the variable.
    pub fn message(self) -> (r: String)
        ensures
            r@ == self.text(),
    {
        match self {
            MissingVariable::SupabaseUrl => owned("SUPABASE_URL must be set"),
            MissingVariable::SupabaseServiceRoleKey => owned("SUPABASE_SERVICE_ROLE_KEY must be set"),
            MissingVariable::SupabaseAnonKey => owned("SUPABASE_ANON_KEY must be set"),
            MissingVariable::PgHost => owned("PG_HOST not set"),
            MissingVariable::PgUser => owned("PG_USER not set"),
            MissingVariable::PgDb => owned("PG_DB not set"),
        }
    }
}

/// How to reach the database.
#[derive(Debug)]
pub struct PgSettings {
    pub host: String,
    pub user: String,
    pub password: Option<String>,
    pub dbname: String,
    pub max_size: usize,
}

/// The first of host, user and database name that is missing.
pub open spec fn missing_pg(
    host: Option<String>,
    user: Option<String>,
    dbname: Option<String>,
) -> Option<MissingVariable> {
    if host is None {
        Some(MissingVariable::PgHost)
    } else if user is None {
        Some(MissingVariable::PgUser)
    } else if dbname is None {
        Some(MissingVariable::PgDb)
    } else {
        None
    }
}

/// The database settings in the environment. Host, user and database name
/// are required and looked for in this order; the password may be missing.
pub fn pg_settings(host: Option<String>, user: Option<String>, password: Option<String>, dbname: Option<String>) -> (r:
    Result<PgSettings, MissingVariable>)
    ensures
        match missing_pg(host, user, dbname) {
            Some(missing) => r == Err::<PgSettings, MissingVariable>(missing),
            None => r matches Ok(s) && host == Some(s.host) && user == Some(s.user) && dbname
                == Some(s.dbname) && s.password == password && s.max_size == POOL_MAX_SIZE,
        },
{
    let host = match host {
        Some(h) => h,
        None => {
            return Err(MissingVariable::PgHost);
        },
    };
    let user = match user {
        Some(u) => u,
        None => {
            return Err(MissingVariable::PgUser);
        },
    };
    let dbname = match dbname {
        Some(d) => d,
        None => {
            return Err(MissingVariable::PgDb);
        },
    };
    Ok(PgSettings { host, user, password, dbname, max_size: POOL_MAX_SIZE })
}

/// The variables of the process environment that the service looks at, each
/// as it was found.
#[derive(Debug)]
pub struct Environment {
    pub supabase_url: Option<String>,
    pub supabase_service_role_key: Option<String>,
    pub supabase_anon_key: Option<String>,
    pub pg_host: Option<String>,
    pub pg_user: Option<String>,
    pub pg_pass: Option<String>,
    pub pg_db: Option<String>,
    pub allowed_origins: Option<String>,
    pub port: Option<String>,
}

/// What the service is started with.
#[derive(Debug)]
pub struct Settings {
    pub supabase_url: String,
    pub supabase_service_role_key: String,
    pub supabase_anon_key: String,
    pub database: PgSettings,
    pub allowed_origins: Vec<String>,
    pub bind_address: String,
}

/// The first required variable that is missing: the backend's address and its
/// two keys, then the database's host, user and name.
pub open spec fn first_missing(env: Environment) -> Option<MissingVariable> {
    if env.supabase_url is None {
        Some(MissingVariable::SupabaseUrl)
    } else if env.supabase_service_role_key is None {
        Some(MissingVariable::SupabaseServiceRoleKey)
    } else if env.supabase_anon_key is None {
        Some(MissingVariable::SupabaseAnonKey)
    } else {
        missing_pg(env.pg_host, env.pg_user, env.pg_db)
    }
}

/// The list of origins in force: the one configured, else the default.
pub open spec fn origins_in_force(variable: Option<String>) -> Seq<char> {
    match variable {
        Some(list) => list@,
        None => DEFAULT_ORIGINS@,
    }
}

/// The port in force: the one configured, else the default.
pub open spec fn port_in_force(variable: Option<String>) -> Seq<char> {
    match variable {
        Some(port) => port@,
        None => DEFAULT_PORT@,
    }
}

/// The settings in the environment. A required variable that is missing
/// stops the start; the database password, the origins and the port may be
/// missing.
pub fn load_settings(env: Environment) -> (r: Result<Settings, MissingVariable>)
    ensures
        match first_missing(env) {
            Some(missing) => r == Err::<Settings, MissingVariable>(missing),
            None => {
                &&& r matches Ok(s)
                &&& env.supabase_url == Some(s.supabase_url)
                &&& env.supabase_service_role_key == Some(s.supabase_service_role_key)
                &&& env.supabase_anon_key == Some(s.supabase_anon_key)
                &&& env.pg_host == Some(s.database.host)
                &&& env.pg_user == Some(s.database.user)
                &&& env.pg_db == Some(s.database.dbname)
                &&& s.database.password == env.pg_pass
                &&& s.database.max_size == POOL_MAX_SIZE
                &&& s.allowed_origins.deep_view() == origins_of(origins_in_force(env.allowed_origins))
                &&& s.bind_address@ == "0.0.0.0:"@ + port_in_force(env.port)
            },
        },
{
    let supabase_url = match env.supabase_url {
        Some(v) => v,
        None => {
            return Err(MissingVariable::SupabaseUrl);
        },
    };
    let supabase_service_role_key = match env.supabase_service_role_key {
        Some(v) => v,
        None => {
            return Err(MissingVariable::SupabaseServiceRoleKey);
        },
    };
    let supabase_anon_key = match env.supabase_anon_key {
        Some(v) => v,
        None => {
            return Err(MissingVariable::SupabaseAnonKey);
        },
    };
    let database = match pg_settings(env.pg_host, env.pg_user, env.pg_pass, env.pg_db) {
        Ok(database) => database,
        Err(missing) => {
            return Err(missing);
        },
    };
    let allowed_origins = match &env.allowed_origins {
        Some(list) => configured_origins(Some(list.as_str())),
        None => configured_origins(None),
    };
    let bind = match &env.port {
        Some(port) => bind_address(Some(port.as_str())),
        None => bind_address(None),
    };
    Ok(
        Settings {
            supabase_url,
            supabase_service_role_key,
            supabase_anon_key,
            database,
            allowed_origins,
            bind_address: bind,
        },
    )
}

} // verus!
