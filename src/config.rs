use vstd::prelude::*;

use crate::text::{nat_text, push_nat};

verus! {

/// Service configuration: the database and the address to serve on.
#[derive(Debug, Clone, PartialEq, Eq)]
pub struct Config {
    pub db: DbConfig,
    pub server: ServerConfig,
}

/// Database connection settings.
#[derive(Debug, Clone, PartialEq, Eq)]
pub struct DbConfig {
    pub host: String,
    pub port: u16,
    pub user: String,
    pub password: String,
    pub dbname: String,
    pub max_connections: u32,
}

/// Address the RPC server binds to.
#[derive(Debug, Clone, PartialEq, Eq)]
pub struct ServerConfig {
    pub host: String,
    pub port: u16,
}

/// Pool size used when the configuration gives none.
pub fn default_max_connections() -> (r: u32)
    ensures
        r == 5,
{
    5
}

/// The URL of the database server, without a database name.
pub open spec fn server_url_text(c: DbConfig) -> Seq<char> {
    if c.password@.len() == 0 {
        "postgres://"@ + c.user@ + "@"@ + c.host@ + ":"@ + nat_text(c.port as nat)
    } else {
        "postgres://"@ + c.user@ + ":"@ + c.password@ + "@"@ + c.host@ + ":"@ + nat_text(
            c.port as nat,
        )
    }
}

impl DbConfig {
    /// The URL of the database.
    pub fn url(&self) -> (r: String)
        ensures
            r@ == server_url_text(*self) + "/"@ + self.dbname@,
    {
        let mut s = self.server_url();
        s.append("/");
        s.append(self.dbname.as_str());
        s
    }

    /// The URL of the database server, without a database name.
    pub fn server_url(&self) -> (r: String)
        ensures
            r@ == server_url_text(*self),
    {
        let mut s = String::from_str("postgres://");
        s.append(self.user.as_str());
        if !self.password.as_str().is_empty() {
            s.append(":");
            s.append(self.password.as_str());
        }
        s.append("@");
        s.append(self.host.as_str());
        s.append(":");
        push_nat(&mut s, self.port as u64);
        assert(s@ =~= server_url_text(*self));
        s
    }
}

impl ServerConfig {
    /// The URL clients reach the server at.
    pub fn url(&self, https: bool) -> (r: String)
        ensures
            r@ == (if https {
                "https"@
            } else {
                "http"@
            }) + "://"@ + self.host@ + ":"@ + nat_text(self.port as nat),
    {
        let mut s = if https {
            String::from_str("https")
        } else {
            String::from_str("http")
        };
        s.append("://");
        s.append(self.host.as_str());
        s.append(":");
        push_nat(&mut s, self.port as u64);
        s
    }
}

} // verus!
