use vstd::prelude::*;
use vstd::string::*;

use crate::text::{decimal, lemma_concat_parts, push_decimal};

verus! {

/// Address, optional credentials and logical database of the Redis cache.
pub struct RedisConfig {
    pub host: String,
    pub port: u16,
    pub user: Option<String>,
    pub password: Option<String>,
    pub db: Option<u8>,
}

/// `user:password@` when both credentials are given, nothing otherwise.
pub open spec fn redis_credentials(user: Option<Seq<char>>, password: Option<Seq<char>>) -> Seq<char> {
    match (user, password) {
        (Some(u), Some(p)) => u + ":"@ + p + "@"@,
        _ => Seq::empty(),
    }
}

/// `rediss://[user:password@]host:port/db`, database 0 when none is set.
pub open spec fn redis_url(
    user: Option<Seq<char>>,
    password: Option<Seq<char>>,
    host: Seq<char>,
    port: u16,
    db: Option<u8>,
) -> Seq<char> {
    let db_number: nat = match db {
        Some(d) => d as nat,
        None => 0,
    };
    "rediss://"@ + redis_credentials(user, password) + host + ":"@ + decimal(port as nat) + "/"@
        + decimal(db_number)
}

impl Default for RedisConfig {
    /// A local server on port 6379 without credentials, database 1.
    fn default() -> (config: Self)
        ensures
            config.host@ == "localhost"@,
            config.port == 6379,
            config.user is None,
            config.password is None,
            config.db == Some(1u8),
    {
        RedisConfig {
            host: String::from_str("localhost"),
            port: 6379,
            user: None,
            password: None,
            db: Some(1),
        }
    }
}

impl RedisConfig {
    /// The connection URL of the cache.
    pub fn get_connection_url(&self) -> (url: String)
        ensures
            url@ == redis_url(
                self.user.deep_view(),
                self.password.deep_view(),
                self.host@,
                self.port,
                self.db,
            ),
    {
        let mut url = String::from_str("rediss://");
        match (&self.user, &self.password) {
            (Some(u), Some(p)) => {
                url.append(u.as_str());
                url.append(":");
                url.append(p.as_str());
                url.append("@");
            },
            _ => {},
        }
        url.append(self.host.as_str());
        url.append(":");
        push_decimal(&mut url, self.port as u64);
        url.append("/");
        let db: u8 = match self.db {
            Some(d) => d,
            None => 0,
        };
        push_decimal(&mut url, db as u64);
        assert(url@ =~= redis_url(
            self.user.deep_view(),
            self.password.deep_view(),
            self.host@,
            self.port,
            self.db,
        ));
        url
    }
}

/// The cache URL carries `user:password@` right after the scheme when both
/// credentials are given and goes straight to the host otherwise; it ends with
/// the host, the port and, after `/`, the database (0 when none is set).
pub proof fn lemma_redis_url_parts(
    user: Option<Seq<char>>,
    password: Option<Seq<char>>,
    host: Seq<char>,
    port: u16,
    db: Option<u8>,
)
    ensures
        ({
            let url = redis_url(user, password, host, port, db);
            let db_number: nat = match db {
                Some(d) => d as nat,
                None => 0,
            };
            &&& (host + ":"@ + decimal(port as nat) + "/"@ + decimal(db_number)).is_suffix_of(url)
            &&& (user is Some && password is Some) ==> ("rediss://"@ + user->0 + ":"@ + password->0
                + "@"@).is_prefix_of(url)
            &&& (user is None || password is None) ==> ("rediss://"@ + host).is_prefix_of(url)
        }),
{
    let db_number: nat = match db {
        Some(d) => d as nat,
        None => 0,
    };
    let front = "rediss://"@ + redis_credentials(user, password);
    let back = host + ":"@ + decimal(port as nat) + "/"@ + decimal(db_number);
    let url = redis_url(user, password, host, port, db);
    assert(url =~= front + back);
    lemma_concat_parts(front, back);
    if user is None || password is None {
        assert(front =~= "rediss://"@);
        lemma_concat_parts("rediss://"@ + host, ":"@ + decimal(port as nat) + "/"@ + decimal(db_number));
        assert(url =~= ("rediss://"@ + host) + (":"@ + decimal(port as nat) + "/"@ + decimal(db_number)));
    }
}

} // verus!
