//! The settings of the process, as read at its start.

pub mod db;
pub mod jwt;
pub mod logger;

pub use self::db::DatabaseConfig;
pub use self::jwt::{AuthConfig, RsaJwtConfig};
pub use self::logger::Telemetry;

use vstd::prelude::*;
use vstd::string::*;
use crate::text::{decimal, decimal_text, same_text};
use crate::trusted::text::{lowercased, to_lowercase, trim, trimmed};

verus! {

/// The environment that the process runs in. It names the settings file.
#[derive(Debug, Clone, PartialEq, Eq)]
pub enum AppEnvironment {
    Development,
    Production,
    Testing,
    /// Any other environment, by the name it was given.
    Other(String),
}

/// Mathematical value of an [`AppEnvironment`].
pub enum AppEnvironmentView {
    Development,
    Production,
    Testing,
    Other(Seq<char>),
}

impl View for AppEnvironment {
    type V = AppEnvironmentView;

    open spec fn view(&self) -> AppEnvironmentView {
        match self {
            AppEnvironment::Development => AppEnvironmentView::Development,
            AppEnvironment::Production => AppEnvironmentView::Production,
            AppEnvironment::Testing => AppEnvironmentView::Testing,
            AppEnvironment::Other(name) => AppEnvironmentView::Other(name@),
        }
    }
}

impl AppEnvironmentView {
    /// The environment that the key `key` stands for, where `name` is the
    /// name as it was given: a key that is none of the known ones stands for
    /// the environment of that name.
    pub open spec fn keyed(key: Seq<char>, name: Seq<char>) -> AppEnvironmentView {
        if key == "development"@ || key == "dev"@ {
            AppEnvironmentView::Development
        } else if key == "production"@ || key == "prod"@ {
            AppEnvironmentView::Production
        } else if key == "testing"@ || key == "test"@ {
            AppEnvironmentView::Testing
        } else {
            AppEnvironmentView::Other(name)
        }
    }

    /// The environment that `name` stands for. White space around the name
    /// and the case of its letters do not count; a name that is none of the
    /// known ones is kept as it was given.
    pub open spec fn named(name: Seq<char>) -> AppEnvironmentView {
        AppEnvironmentView::keyed(lowercased(trimmed(name)), name)
    }

    /// The name of the environment, as it appears in the name of the
    /// settings file.
    pub open spec fn name(self) -> Seq<char> {
        match self {
            AppEnvironmentView::Development => "development"@,
            AppEnvironmentView::Production => "production"@,
            AppEnvironmentView::Testing => "testing"@,
            AppEnvironmentView::Other(name) => name,
        }
    }
}

impl Default for AppEnvironment {
    fn default() -> (r: AppEnvironment)
        ensures
            r@ == AppEnvironmentView::Development,
    {
        AppEnvironment::Development
    }
}

impl AppEnvironment {
    /// Reads the environment from `key`, its name trimmed and in lower
    /// case; `env` is the name as it was given.
    pub fn keyed(key: &str, env: String) -> (r: AppEnvironment)
        ensures
            r@ == AppEnvironmentView::keyed(key@, env@),
    {
        if same_text(key, "development") || same_text(key, "dev") {
            AppEnvironment::Development
        } else if same_text(key, "production") || same_text(key, "prod") {
            AppEnvironment::Production
        } else if same_text(key, "testing") || same_text(key, "test") {
            AppEnvironment::Testing
        } else {
            AppEnvironment::Other(env)
        }
    }

    /// Reads the environment from its name, long or short.
    pub fn from(env: String) -> (r: AppEnvironment)
        ensures
            r@ == AppEnvironmentView::named(env@),
    {
        let key = to_lowercase(trim(env.as_str()));
        AppEnvironment::keyed(key.as_str(), env)
    }

    /// Writes the name of the environment.
    pub fn to_string(&self) -> (r: String)
        ensures
            r@ == self@.name(),
    {
        match self {
            AppEnvironment::Development => "development".to_owned(),
            AppEnvironment::Production => "production".to_owned(),
            AppEnvironment::Testing => "testing".to_owned(),
            AppEnvironment::Other(name) => name.clone(),
        }
    }
}

/// Where the server listens, and how clients reach it.
#[derive(Debug, Clone, PartialEq, Eq)]
pub struct ServerConfig {
    pub protocol: String,
    pub host: String,
    pub port: u16,
}

impl ServerConfig {
    pub fn new(protocol: String, host: String, port: u16) -> (r: ServerConfig)
        ensures
            r.protocol == protocol,
            r.host == host,
            r.port == port,
    {
        ServerConfig { protocol, host, port }
    }

    /// The address in the form `host:port`.
    pub open spec fn address_text(self) -> Seq<char> {
        self.host@ + ":"@ + decimal_text(self.port as nat)
    }

    /// The address to listen on: the host, a colon, and the port.
    #[must_use]
    pub fn address(&self) -> (r: String)
        ensures
            r@ == self.address_text(),
    {
        let mut text = self.host.clone();
        text.append(":");
        text.append(decimal(self.port).as_str());
        text
    }

    /// The address for clients: the protocol, `://`, and the address.
    pub fn to_string(&self) -> (r: String)
        ensures
            r@ == self.protocol@ + "://"@ + self.address_text(),
    {
        let mut text = self.protocol.clone();
        text.append("://");
        text.append(self.address().as_str());
        text
    }
}

/// All settings of the process.
#[derive(Debug, Clone, PartialEq, Eq)]
pub struct AppConfig {
    pub server: ServerConfig,
    pub logger: Telemetry,
    pub db: DatabaseConfig,
    pub auth: AuthConfig,
}

impl AppConfig {
    pub fn new(server: ServerConfig, logger: Telemetry, db: DatabaseConfig, auth: AuthConfig) -> (r:
        AppConfig)
        ensures
            r.server == server,
            r.logger == logger,
            r.db == db,
            r.auth == auth,
    {
        AppConfig { server, logger, db, auth }
    }

    #[must_use]
    pub fn server(&self) -> (r: &ServerConfig)
        ensures
            *r == self.server,
    {
        &self.server
    }

    #[must_use]
    pub fn logger(&self) -> (r: &Telemetry)
        ensures
            *r == self.logger,
    {
        &self.logger
    }

    #[must_use]
    pub fn db(&self) -> (r: &DatabaseConfig)
        ensures
            *r == self.db,
    {
        &self.db
    }

    #[must_use]
    pub fn auth(&self) -> (r: &AuthConfig)
        ensures
            *r == self.auth,
    {
        &self.auth
    }
}

} // verus!
