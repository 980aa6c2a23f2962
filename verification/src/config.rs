//! Configuration decisions: which backend driver serves a configured
//! database, and the connection parameters the networked driver is built
//! from. Loading the configuration itself and constructing pools is the
//! entry point's business; the decisions on the loaded values are made
//! and verified here.

use vstd::prelude::*;

use crate::error::ConnectorError;
use vstd::string::StrSliceExecFns;
use vstd::string::StringExecFns;

verus! {

/// Explicit connection settings of the networked backend.
#[derive(Debug, PartialEq)]
pub struct ExplicitConfig {
    pub connector: String,
    pub host: String,
    pub port: u16,
    pub user: String,
    pub password: Option<String>,
    /// Connection limit of the pool.
    pub limit: u32,
}

/// A single connection string for the networked backend.
#[derive(Debug, PartialEq)]
pub struct ConnectionStringConfig {
    pub connector: String,
    pub uri: String,
    /// Connection limit of the pool.
    pub limit: u32,
}

/// Settings of the embedded file-based backend.
#[derive(Debug, PartialEq)]
pub struct FileConfig {
    pub connector: String,
    pub database_file: String,
    pub db_name: String,
    /// Connection limit of the pool.
    pub limit: u32,
}

/// One configured database, in one of the three configuration formats.
#[derive(Debug, PartialEq)]
pub enum PrismaDatabase {
    ConnectionString(ConnectionStringConfig),
    Explicit(ExplicitConfig),
    File(FileConfig),
}

/// The connector name one configured database carries.
pub open spec fn spec_connector_name(db: PrismaDatabase) -> String {
    match db {
        PrismaDatabase::ConnectionString(c) => c.connector,
        PrismaDatabase::Explicit(c) => c.connector,
        PrismaDatabase::File(c) => c.connector,
    }
}

impl PrismaDatabase {
    /// The configured connector name.
    pub fn connector(&self) -> (r: &String)
        ensures
            *r == spec_connector_name(*self),
    {
        match self {
            PrismaDatabase::ConnectionString(c) => &c.connector,
            PrismaDatabase::Explicit(c) => &c.connector,
            PrismaDatabase::File(c) => &c.connector,
        }
    }
}

/// How the networked driver reaches its server.
#[derive(Debug, PartialEq)]
pub enum PostgresSource {
    /// A connection string, for the driver to parse.
    Uri(String),
    /// Explicit parameters.
    Params { host: String, port: u16, user: String, password: Option<String> },
}

/// Everything the networked driver needs to build its pool.
#[derive(Debug, PartialEq)]
pub struct PostgresParams {
    pub source: PostgresSource,
    /// TLS is preferred but not required.
    pub ssl_prefer: bool,
    /// The fixed database name the driver connects to.
    pub dbname: String,
    /// Connection limit of the pool.
    pub limit: u32,
}

/// The connection parameters of the networked backend for one configured
/// database: a connection-string format is passed through for the driver
/// to parse, an explicit format is mapped field by field; either way TLS
/// is preferred and the database name is fixed. Any other configuration
/// format is a typed creation error.
pub fn connect_params(db: &PrismaDatabase) -> (r: Result<PostgresParams, ConnectorError>)
    ensures
        *db matches PrismaDatabase::ConnectionString(c) ==> (r matches Ok(p) && {
            &&& p.source == PostgresSource::Uri(c.uri)
            &&& p.ssl_prefer
            &&& p.dbname@ == "prisma"@
            &&& p.limit == c.limit
        }),
        *db matches PrismaDatabase::Explicit(e) ==> (r matches Ok(p) && {
            &&& p.source == (PostgresSource::Params {
                host: e.host,
                port: e.port,
                user: e.user,
                password: e.password,
            })
            &&& p.ssl_prefer
            &&& p.dbname@ == "prisma"@
            &&& p.limit == e.limit
        }),
        *db is File ==> (r matches Err(e) && (e matches ConnectorError::DatabaseCreationError(m)
            && m@ == "Could not understand the configuration format."@)),
{
    match db {
        PrismaDatabase::ConnectionString(c) => Ok(
            PostgresParams {
                source: PostgresSource::Uri(c.uri.clone()),
                ssl_prefer: true,
                dbname: "prisma".to_owned(),
                limit: c.limit,
            },
        ),
        PrismaDatabase::Explicit(e) => {
            let password = match &e.password {
                Option::Some(p) => Some(p.clone()),
                Option::None => None,
            };
            Ok(
                PostgresParams {
                    source: PostgresSource::Params {
                        host: e.host.clone(),
                        port: e.port,
                        user: e.user.clone(),
                        password,
                    },
                    ssl_prefer: true,
                    dbname: "prisma".to_owned(),
                    limit: e.limit,
                },
            )
        },
        PrismaDatabase::File(_) => Err(
            ConnectorError::DatabaseCreationError(
                "Could not understand the configuration format.".to_owned(),
            ),
        ),
    }
}

/// True when the string ends with the pattern.
fn has_suffix(s: &String, pat: &String) -> (r: bool)
    ensures
        r == (s@.len() >= pat@.len() && s@.subrange(s@.len() - pat@.len(), s@.len() as int)
            == pat@),
{
    let s_len = s.as_str().unicode_len();
    let p_len = pat.as_str().unicode_len();
    if s_len < p_len {
        return false;
    }
    let offset = s_len - p_len;
    let mut j: usize = 0;
    while j < p_len
        invariant
            s@.len() == s_len,
            pat@.len() == p_len,
            p_len <= s_len,
            offset == s_len - p_len,
            j <= p_len,
            forall|m: int| 0 <= m < j ==> s@[offset + m] == pat@[m],
        decreases p_len - j,
    {
        if s.as_str().get_char(offset + j) != pat.as_str().get_char(j) {
            proof {
                assert(s@.subrange(s@.len() - pat@.len(), s@.len() as int)[j as int] == s@[offset
                    + j]);
            }
            return false;
        }
        j = j + 1;
    }
    proof {
        assert(s@.subrange(s@.len() - pat@.len(), s@.len() as int) =~= pat@);
    }
    true
}

/// The string with every trailing occurrence of a non-empty pattern
/// stripped off its end.
pub open spec fn spec_trim_end_matches(s: Seq<char>, pat: Seq<char>) -> Seq<char>
    decreases s.len(),
{
    if pat.len() > 0 && s.len() >= pat.len() && s.subrange(s.len() - pat.len(), s.len() as int)
        == pat {
        spec_trim_end_matches(s.take(s.len() - pat.len()), pat)
    } else {
        s
    }
}

/// Strips every trailing occurrence of the pattern off the string's end.
fn trim_end_matches_str(s: &String, pat: &String) -> (r: String)
    ensures
        r@ == spec_trim_end_matches(s@, pat@),
{
    let mut cur: String = s.clone();
    loop
        invariant
            spec_trim_end_matches(cur@, pat@) == spec_trim_end_matches(s@, pat@),
        ensures
            cur@ == spec_trim_end_matches(s@, pat@),
        decreases cur@.len(),
    {
        let p_len = pat.as_str().unicode_len();
        let c_len = cur.as_str().unicode_len();
        if p_len == 0 || c_len < p_len {
            break ;
        }
        if !has_suffix(&cur, pat) {
            break ;
        }
        let keep = c_len - p_len;
        let next = cur.as_str().substring_char(0, keep).to_owned();
        proof {
            assert(next@ =~= cur@.take(keep as int));
        }
        cur = next;
    }
    cur
}

/// The folder holding the embedded backend's database file: the
/// configured file path with a trailing "<name>.db" stripped, and then
/// any trailing path separators stripped.
pub open spec fn spec_sqlite_folder(database_file: Seq<char>, db_name: Seq<char>) -> Seq<char> {
    spec_trim_end_matches(spec_trim_end_matches(database_file, db_name + ".db"@), "/"@)
}

/// Which backend driver serves one configured database.
#[derive(Debug, PartialEq)]
pub enum ConnectorChoice {
    /// The embedded file-based driver, rooted at this folder.
    Sqlite { folder: String, limit: u32 },
    /// The networked driver; its parameters come from `connect_params`.
    Postgres,
}

/// Picks the backend driver for one configured database: the file-based
/// driver exactly for a file configuration naming the embedded
/// connector, with its folder derived from the configured database file;
/// the networked driver for any configuration naming the networked
/// connector; and a typed error instead of any other connector name.
pub fn choose_connector(db: &PrismaDatabase) -> (r: Result<ConnectorChoice, ConnectorError>)
    ensures
        *db matches PrismaDatabase::File(c) ==> {
            &&& c.connector@ == "sqlite-native"@ ==> (r matches Ok(ch) && (ch
                matches ConnectorChoice::Sqlite { folder, limit } && folder@ == spec_sqlite_folder(
                c.database_file@,
                c.db_name@,
            ) && limit == c.limit))
            &&& c.connector@ != "sqlite-native"@ && c.connector@ == "postgres-native"@ ==> r == Ok::<
                ConnectorChoice,
                ConnectorError,
            >(ConnectorChoice::Postgres)
            &&& c.connector@ != "sqlite-native"@ && c.connector@ != "postgres-native"@ ==> (r
                matches Err(e) && (e matches ConnectorError::UnsupportedConnector(n) && n
                == c.connector))
        },
        !(*db is File) ==> {
            &&& spec_connector_name(*db)@ == "postgres-native"@ ==> r == Ok::<
                ConnectorChoice,
                ConnectorError,
            >(ConnectorChoice::Postgres)
            &&& spec_connector_name(*db)@ != "postgres-native"@ ==> (r matches Err(e) && (e
                matches ConnectorError::UnsupportedConnector(n) && n == spec_connector_name(*db)))
        },
{
    match db {
        PrismaDatabase::File(c) => {
            if string_is(&c.connector, "sqlite-native") {
                let pat = c.db_name.clone().concat(".db");
                let stripped = trim_end_matches_str(&c.database_file, &pat);
                let slash: String = "/".to_owned();
                let folder = trim_end_matches_str(&stripped, &slash);
                Ok(ConnectorChoice::Sqlite { folder, limit: c.limit })
            } else if string_is(&c.connector, "postgres-native") {
                Ok(ConnectorChoice::Postgres)
            } else {
                Err(ConnectorError::UnsupportedConnector(c.connector.clone()))
            }
        },
        _ => {
            let name = db.connector();
            if string_is(name, "postgres-native") {
                Ok(ConnectorChoice::Postgres)
            } else {
                Err(ConnectorError::UnsupportedConnector(name.clone()))
            }
        },
    }
}

/// True when the string's characters are exactly the literal's.
fn string_is(s: &String, t: &str) -> (r: bool)
    ensures
        r == (s@ == t@),
{
    let owned: String = t.to_owned();
    *s == owned
}

} // verus!
