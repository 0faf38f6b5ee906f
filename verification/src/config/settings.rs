//! Where the settings file is looked for, how the database is reached and
//! the address the web server listens on.

use vstd::prelude::*;
use crate::text::{decimal_digits, occurs_at, opt_chars, push_char, push_decimal, push_str, seq_contains, str_contains};
use crate::utils::web_error::WebError;

verus! {

/// The settings file looked for first, relative to the working directory.
pub const LOCAL_CONFIG_PATH: &'static str = "config/config.toml";

/// How the database is reached.
#[derive(Clone, Debug, PartialEq, Eq)]
pub struct DatabaseConfig {
    pub url: String,
    pub max_connections: u32,
    pub min_connections: u32,
}

/// Where the web server listens.
#[derive(Clone, Debug, PartialEq, Eq)]
pub struct WebConfig {
    pub host: String,
    pub port: u32,
}

impl WebConfig {
    /// The listening address `host:port`.
    pub open spec fn address(&self) -> Seq<char> {
        self.host@ + seq![':'] + decimal_digits(self.port as nat)
    }

    /// The listening address: the host, a colon and the port in decimal.
    pub fn format(&self) -> (s: String)
        ensures
            s@ == self.address(),
    {
        let mut s = self.host.clone();
        push_char(&mut s, ':');
        push_decimal(&mut s, self.port as u64);
        s
    }
}

/// How to open the database and prepare its tables.
#[derive(Clone, Copy, Debug, PartialEq, Eq)]
pub struct ConnectPlan {
    /// Connect with the pool sizes of the settings (not for SQLite).
    pub use_pool_sizes: bool,
    /// Undo every table change before applying them again (an in-memory
    /// SQLite database).
    pub reset_before_migrate: bool,
}

/// A SQLite database is opened as it is; any other gets the configured pool
/// sizes. An in-memory SQLite database has its tables rebuilt from scratch.
pub fn connection_plan(url: &str) -> (p: ConnectPlan)
    ensures
        p.use_pool_sizes == !seq_contains(url@, "sqlite:"@),
        p.reset_before_migrate == seq_contains(url@, "sqlite::memory:"@),
{
    ConnectPlan {
        use_pool_sizes: !str_contains(url, "sqlite:"),
        reset_before_migrate: str_contains(url, "sqlite::memory:"),
    }
}

/// An in-memory SQLite database is a SQLite database: whenever its tables
/// are rebuilt from scratch, it is opened without pool sizes.
pub proof fn lemma_memory_database_is_sqlite(url: Seq<char>)
    ensures
        seq_contains(url, "sqlite::memory:"@) ==> seq_contains(url, "sqlite:"@),
{
    reveal_strlit("sqlite::memory:");
    reveal_strlit("sqlite:");
    if seq_contains(url, "sqlite::memory:"@) {
        let i = choose|i: int| occurs_at(url, "sqlite::memory:"@, i);
        assert(url.subrange(i, i + 7) =~= "sqlite::memory:"@.subrange(0, 7));
        assert("sqlite::memory:"@.subrange(0, 7) =~= "sqlite:"@);
        assert(occurs_at(url, "sqlite:"@, i));
    }
}

/// The settings files looked for, in order: the local one, then the one in
/// the home directory (`/root` when the home directory is unknown).
pub open spec fn spec_config_candidates(home: Option<Seq<char>>) -> Seq<Seq<char>> {
    let h = match home {
        Some(d) => d,
        None => "/root"@,
    };
    seq![LOCAL_CONFIG_PATH@, h + "/.dss/config.toml"@]
}

/// The paths where a settings file is looked for, in order.
pub fn config_candidates(home: Option<String>) -> (paths: Vec<String>)
    ensures
        paths@.map_values(|p: String| p@) == spec_config_candidates(opt_chars(home)),
{
    let mut home_path = match home {
        Some(h) => h,
        None => String::from_str("/root"),
    };
    push_str(&mut home_path, "/.dss/config.toml");
    let mut paths: Vec<String> = Vec::new();
    paths.push(String::from_str(LOCAL_CONFIG_PATH));
    paths.push(home_path);
    assert(paths@.map_values(|p: String| p@) =~= spec_config_candidates(opt_chars(home)));
    paths
}

/// The first candidate that exists, or the error for no settings file.
pub fn select_config_path(candidates: &Vec<String>, exists: &Vec<bool>) -> (r: Result<usize, WebError>)
    requires
        candidates@.len() == exists@.len(),
    ensures
        r matches Ok(i) ==> i < exists@.len() && exists@[i as int] && forall|j: int| 0 <= j < i ==> !exists@[j],
        r is Err <==> forall|j: int| 0 <= j < exists@.len() ==> !exists@[j],
        r matches Err(e) ==> e is NotFound && e.message() == "未找到有效的配置文件"@,
{
    let mut i: usize = 0;
    while i < exists.len()
        invariant
            i <= exists@.len(),
            forall|j: int| 0 <= j < i ==> !exists@[j],
        decreases exists.len() - i,
    {
        if exists[i] {
            return Ok(i);
        }
        i = i + 1;
    }
    Err(WebError::NotFound(String::from_str("未找到有效的配置文件")))
}

/// Why a settings file that exists could not be loaded.
#[derive(Clone, Debug, PartialEq, Eq)]
pub enum ConfigFailure {
    /// The file is not valid TOML; the parser's message.
    Parse(String),
    /// The file lacks or mistypes a setting; the message.
    Deserialize(String),
}

/// The error for a settings file that could not be loaded.
pub fn config_error(failure: ConfigFailure) -> (e: WebError)
    ensures
        e is ActixError,
        failure matches ConfigFailure::Parse(m) ==> e.message() == "配置文件解析错误: "@ + m@,
        failure matches ConfigFailure::Deserialize(m) ==> e.message() == "配置文件反序列化错误: "@ + m@,
{
    match failure {
        ConfigFailure::Parse(m) => {
            let mut t = String::from_str("配置文件解析错误: ");
            push_str(&mut t, m.as_str());
            WebError::ActixError(t)
        },
        ConfigFailure::Deserialize(m) => {
            let mut t = String::from_str("配置文件反序列化错误: ");
            push_str(&mut t, m.as_str());
            WebError::ActixError(t)
        },
    }
}

/// The error when the database is used before it was opened.
pub fn pool_missing_error() -> (e: WebError)
    ensures
        e is DBError,
        e.message() == "Database connection pool not initialized"@,
{
    WebError::DBError(String::from_str("Database connection pool not initialized"))
}

} // verus!
