//! The server's settings, from the values of its environment variables.
use vstd::prelude::*;

verus! {

/// Whether every character of `s` is a decimal digit.
pub open spec fn all_digits(s: Seq<char>) -> bool {
    forall|i: int| 0 <= i < s.len() ==> '0' <= #[trigger] s[i] && s[i] <= '9'
}

/// The number that a string of decimal digits denotes.
pub open spec fn digits_value(s: Seq<char>) -> int
    decreases s.len(),
{
    if s.len() == 0 {
        0
    } else {
        digits_value(s.drop_last()) * 10 + ((s.last() as int) - ('0' as int))
    }
}

/// The digits of an unsigned decimal numeral: the text after an optional `+`.
pub open spec fn unsigned_digits(s: Seq<char>) -> Seq<char> {
    if s.len() > 0 && s[0] == '+' {
        s.drop_first()
    } else {
        s
    }
}

/// What `u16::from_str` accepts, as its documentation states: an optional
/// `+` followed by at least one decimal digit and nothing else, denoting a
/// number that fits in a `u16`.
pub open spec fn decimal_u16(s: Seq<char>) -> Option<u16> {
    let d = unsigned_digits(s);
    if d.len() > 0 && all_digits(d) && digits_value(d) <= u16::MAX {
        Some(digits_value(d) as u16)
    } else {
        None
    }
}

proof fn lemma_digits_value_nonneg(s: Seq<char>)
    requires
        all_digits(s),
    ensures
        digits_value(s) >= 0,
    decreases s.len(),
{
    if s.len() > 0 {
        assert(all_digits(s.drop_last()));
        lemma_digits_value_nonneg(s.drop_last());
    }
}

proof fn lemma_digits_value_step(s: Seq<char>, k: int)
    requires
        0 <= k < s.len(),
    ensures
        digits_value(s.subrange(0, k + 1)) == digits_value(s.subrange(0, k)) * 10 + ((s[k] as int)
            - ('0' as int)),
{
    assert(s.subrange(0, k + 1).drop_last() =~= s.subrange(0, k));
}

proof fn lemma_digits_value_prefix(s: Seq<char>, k: int)
    requires
        all_digits(s),
        0 <= k <= s.len(),
    ensures
        digits_value(s.subrange(0, k)) <= digits_value(s),
    decreases s.len() - k,
{
    if k < s.len() {
        lemma_digits_value_step(s, k);
        assert(all_digits(s.subrange(0, k)));
        lemma_digits_value_nonneg(s.subrange(0, k));
        lemma_digits_value_prefix(s, k + 1);
    } else {
        assert(s.subrange(0, k) =~= s);
    }
}

/// Reads a port number as `u16::from_str` does (see `decimal_u16`).
pub fn parse_u16(s: &str) -> (res: Option<u16>)
    ensures
        res == decimal_u16(s@),
{
    let n = s.unicode_len();
    let start: usize = if n > 0 && s.get_char(0) == '+' {
        1
    } else {
        0
    };
    let ghost d = unsigned_digits(s@);
    assert(d =~= s@.subrange(start as int, n as int));
    if start == n {
        return None;
    }
    let mut v: u32 = 0;
    let mut i: usize = start;
    while i < n
        invariant
            start <= i <= n,
            n == s@.len(),
            d == s@.subrange(start as int, n as int),
            d == unsigned_digits(s@),
            d.len() > 0,
            all_digits(d.subrange(0, i - start)),
            v == digits_value(d.subrange(0, i - start)),
            v <= 65535,
        decreases n - i,
    {
        let c = s.get_char(i);
        assert(c == d[i - start]);
        if !('0' <= c && c <= '9') {
            assert(!all_digits(d));
            return None;
        }
        let digit = (c as u32) - ('0' as u32);
        proof {
            lemma_digits_value_step(d, i - start);
            assert(all_digits(d.subrange(0, i - start + 1)));
        }
        let next = v * 10 + digit;
        if next > 65535 {
            proof {
                if all_digits(d) {
                    lemma_digits_value_prefix(d, i - start + 1);
                }
            }
            return None;
        }
        v = next;
        i = i + 1;
    }
    assert(d.subrange(0, n - start) =~= d);
    Some(v as u16)
}

/// Why the settings could not be formed; the server does not start.
#[derive(PartialEq, Eq, Structural, Clone, Copy, Debug)]
pub enum ConfigError {
    /// The port is not a decimal `u16`.
    InvalidPort,
    /// The MongoDB connection string is not set.
    MissingMongoUri,
    /// The database name is not set.
    MissingDatabaseName,
}

impl ConfigError {
    /// The text with which the server stops.
    pub fn message(&self) -> (res: String)
        ensures
            res@ == match *self {
                ConfigError::InvalidPort => "Invalid port number"@,
                ConfigError::MissingMongoUri => "MongoDB URL not set!"@,
                ConfigError::MissingDatabaseName => "MongoDB database name not set!"@,
            },
    {
        match self {
            ConfigError::InvalidPort => String::from_str("Invalid port number"),
            ConfigError::MissingMongoUri => String::from_str("MongoDB URL not set!"),
            ConfigError::MissingDatabaseName => String::from_str("MongoDB database name not set!"),
        }
    }
}

/// The server's settings.
pub struct ServerConfig {
    pub host: String,
    pub port: u16,
    pub mongo_uri: String,
    pub db_name: String,
    pub jwt_secret: String,
}

/// The value of a variable, or `default` when it is not set.
pub open spec fn or_default(v: Option<String>, default: Seq<char>) -> Seq<char> {
    match v {
        Some(s) => s@,
        None => default,
    }
}

impl ServerConfig {
    /// Forms the settings from the values of `RSCMS_SERVER_HOST`,
    /// `RSCMS_SERVER_PORT`, `RSCMS_MONGODB_URI`, `RSCMS_MONGODB_DB_NAME` and
    /// `RSCMS_JWT_SECRET` (`None` when unset).  The host defaults to
    /// `127.0.0.1`, the port to `8080` and the secret to `secret`; the port
    /// is checked first, then the connection string, then the database name.
    pub fn from_env(
        host: Option<String>,
        port: Option<String>,
        mongo_uri: Option<String>,
        db_name: Option<String>,
        jwt_secret: Option<String>,
    ) -> (res: Result<ServerConfig, ConfigError>)
        ensures
            decimal_u16(or_default(port, "8080"@)) is None ==> res == Err::<ServerConfig, ConfigError>(
                ConfigError::InvalidPort,
            ),
            decimal_u16(or_default(port, "8080"@)) is Some && mongo_uri is None ==> res == Err::<
                ServerConfig,
                ConfigError,
            >(ConfigError::MissingMongoUri),
            decimal_u16(or_default(port, "8080"@)) is Some && mongo_uri is Some && db_name is None
                ==> res == Err::<ServerConfig, ConfigError>(ConfigError::MissingDatabaseName),
            res matches Ok(c) ==> {
                &&& mongo_uri == Some(c.mongo_uri)
                &&& db_name == Some(c.db_name)
                &&& decimal_u16(or_default(port, "8080"@)) == Some(c.port)
                &&& c.host@ == or_default(host, "127.0.0.1"@)
                &&& c.jwt_secret@ == or_default(jwt_secret, "secret"@)
            },
            (decimal_u16(or_default(port, "8080"@)) is Some && mongo_uri is Some && db_name is Some)
                ==> res is Ok,
    {
        let host = match host {
            Some(h) => h,
            None => String::from_str("127.0.0.1"),
        };
        let port_text = match port {
            Some(p) => p,
            None => String::from_str("8080"),
        };
        let port = match parse_u16(port_text.as_str()) {
            Some(p) => p,
            None => {
                return Err(ConfigError::InvalidPort);
            },
        };
        let mongo_uri = match mongo_uri {
            Some(u) => u,
            None => {
                return Err(ConfigError::MissingMongoUri);
            },
        };
        let db_name = match db_name {
            Some(d) => d,
            None => {
                return Err(ConfigError::MissingDatabaseName);
            },
        };
        let jwt_secret = match jwt_secret {
            Some(s) => s,
            None => String::from_str("secret"),
        };
        Ok(ServerConfig { host, port, mongo_uri, db_name, jwt_secret })
    }
}

} // verus!
