//! The settings the pipeline runs with: database, message broker, outbound
//! proxy.

use vstd::prelude::*;
use crate::chars::string_from_chars;
use crate::jsonout::push_str_chars;

verus! {

/// Connection settings of the relational store that supplies the entity
/// list.
#[derive(Debug, Clone)]
pub struct DatabaseSettings {
    pub host: String,
    pub port: String,
    pub user: String,
    pub dbname: String,
    pub dbpasswd: String,
}

/// Connection settings of the message broker.
#[derive(Debug, Clone)]
pub struct KafkaSettings {
    pub brokers: String,
}

/// Connection settings of the outbound proxy.
#[derive(Debug, Clone)]
pub struct ProxySettings {
    pub host: String,
    pub port: String,
    pub username: String,
    pub passwd: String,
}

/// Everything the pipeline needs to reach its collaborators.
#[derive(Debug, Clone)]
pub struct Settings {
    pub database: DatabaseSettings,
    pub kafka: KafkaSettings,
    pub proxy: ProxySettings,
}

impl DatabaseSettings {
    /// The exact text of the connection string.
    pub open spec fn connection_string_spec(&self) -> Seq<char> {
        "postgres://"@ + self.user@ + ":"@ + self.dbpasswd@ + "@"@ + self.host@ + ":"@ + self.port@
            + "/"@ + self.dbname@
    }

    /// Renders the connection string of the store.
    pub fn connection_string(&self) -> (r: String)
        ensures
            r@ == self.connection_string_spec(),
    {
        let mut out: Vec<char> = Vec::new();
        push_str_chars(&mut out, "postgres://");
        push_str_chars(&mut out, self.user.as_str());
        push_str_chars(&mut out, ":");
        push_str_chars(&mut out, self.dbpasswd.as_str());
        push_str_chars(&mut out, "@");
        push_str_chars(&mut out, self.host.as_str());
        push_str_chars(&mut out, ":");
        push_str_chars(&mut out, self.port.as_str());
        push_str_chars(&mut out, "/");
        push_str_chars(&mut out, self.dbname.as_str());
        proof {
            assert(out@ =~= self.connection_string_spec());
        }
        string_from_chars(&out)
    }
}

} // verus!
