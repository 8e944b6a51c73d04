//! The connection descriptor of the storage and the address of the server.

use crate::text::push_decimal;
use vstd::prelude::*;
use vstd::string::StringExecFns;

verus! {

#[derive(Debug, Clone, PartialEq, Eq)]
pub struct Config {
    pub db: DbConfig,
    pub server: ServerConfig,
}

#[derive(Debug, Clone, PartialEq, Eq)]
pub struct DbConfig {
    pub host: String,
    pub port: u16,
    pub user: String,
    pub password: String,
    pub dbname: String,
    pub max_connections: u32,
}

#[derive(Debug, Clone, PartialEq, Eq)]
pub struct ServerConfig {
    pub host: String,
    pub port: u16,
}

/// The size of the connection pool where the configuration names none.
pub fn default_pool_size() -> (size: u32)
    ensures
        size == 5,
{
    5
}

impl DbConfig {
    /// The address of the database server: scheme, user, the password after
    /// a colon where there is one, host and port.
    pub open spec fn server_url_text(self) -> Seq<char> {
        if self.password@.len() == 0 {
            "postgres://"@ + self.user@ + "@"@ + self.host@ + ":"@ + crate::text::decimal(
                self.port as int,
            )
        } else {
            "postgres://"@ + self.user@ + ":"@ + self.password@ + "@"@ + self.host@ + ":"@
                + crate::text::decimal(self.port as int)
        }
    }

    /// The address of the database: that of the server, a slash and the
    /// database's name.
    pub open spec fn url_text(self) -> Seq<char> {
        self.server_url_text() + "/"@ + self.dbname@
    }

    pub fn server_url(&self) -> (url: String)
        ensures
            url@ == self.server_url_text(),
    {
        let mut url = String::from_str("postgres://");
        url.append(self.user.as_str());
        if !self.password.as_str().is_empty() {
            url.append(":");
            url.append(self.password.as_str());
        }
        url.append("@");
        url.append(self.host.as_str());
        url.append(":");
        push_decimal(&mut url, self.port as i64);
        url
    }

    pub fn url(&self) -> (url: String)
        ensures
            url@ == self.url_text(),
    {
        let mut url = self.server_url();
        url.append("/");
        url.append(self.dbname.as_str());
        url
    }
}

impl ServerConfig {
    /// The address of the server: `https` or `http`, host and port.
    pub open spec fn url_text(self, https: bool) -> Seq<char> {
        if https {
            "https://"@ + self.host@ + ":"@ + crate::text::decimal(self.port as int)
        } else {
            "http://"@ + self.host@ + ":"@ + crate::text::decimal(self.port as int)
        }
    }

    pub fn url(&self, https: bool) -> (url: String)
        ensures
            url@ == self.url_text(https),
    {
        let mut url = if https {
            String::from_str("https://")
        } else {
            String::from_str("http://")
        };
        url.append(self.host.as_str());
        url.append(":");
        push_decimal(&mut url, self.port as i64);
        url
    }
}

} // verus!
