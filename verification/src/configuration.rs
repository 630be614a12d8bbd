//! The settings of the service, as plain values, and what is derived from
//! them.

use crate::domain::subscriber_email::is_valid_email;
use crate::domain::subscriber_email::SubscriberEmail;
use crate::email_client::ConfigError;
use crate::email_client::EmailClient;
use crate::email_client::EmailClientView;
use crate::text::decimal;
use crate::text::decimal_text;
use std::time::Duration;
use vstd::prelude::*;
use vstd::string::StringExecFns;

verus! {

/// All settings of the service.
#[derive(Debug)]
pub struct Settings {
    pub database: DatabaseSettings,
    pub application: ApplicationSettings,
    pub email: EmailSettings,
}

/// Where the service listens.
#[derive(Debug)]
pub struct ApplicationSettings {
    pub port: u16,
    pub host: String,
}

/// How to reach the database.
#[derive(Debug)]
pub struct DatabaseSettings {
    pub username: String,
    pub password: String,
    pub port: u16,
    pub host: String,
    pub database_name: String,
    pub require_ssl: bool,
}

/// How to reach the email provider. `timeout` is in milliseconds.
#[derive(Debug)]
pub struct EmailSettings {
    pub base_url: String,
    pub sender: String,
    pub apikey: String,
    pub timeout: u64,
}

/// Whether a database connection has to be encrypted.
#[derive(Clone, Copy, Debug, PartialEq, Eq, Structural)]
pub enum SslMode {
    Disable,
    Require,
}

/// The options of a database connection. `database` is the database to
/// open, if one is named; `log_statements` asks for every statement to be
/// logged at trace level.
#[derive(Debug)]
pub struct ConnectOptions {
    pub host: String,
    pub port: u16,
    pub username: String,
    pub password: String,
    pub ssl_mode: SslMode,
    pub database: Option<String>,
    pub log_statements: bool,
}

/// [`ConnectOptions`] as mathematical values.
pub struct ConnectOptionsView {
    pub host: Seq<char>,
    pub port: u16,
    pub username: Seq<char>,
    pub password: Seq<char>,
    pub ssl_mode: SslMode,
    pub database: Option<Seq<char>>,
    pub log_statements: bool,
}

impl View for ConnectOptions {
    type V = ConnectOptionsView;

    open spec fn view(&self) -> ConnectOptionsView {
        ConnectOptionsView {
            host: self.host@,
            port: self.port,
            username: self.username@,
            password: self.password@,
            ssl_mode: self.ssl_mode,
            database: match self.database {
                Some(name) => Some(name@),
                None => None,
            },
            log_statements: self.log_statements,
        }
    }
}

/// The connection options that `settings` ask for, with no database named.
pub open spec fn server_options(settings: DatabaseSettings) -> ConnectOptionsView {
    ConnectOptionsView {
        host: settings.host@,
        port: settings.port,
        username: settings.username@,
        password: settings.password@,
        ssl_mode: if settings.require_ssl {
            SslMode::Require
        } else {
            SslMode::Disable
        },
        database: None,
        log_statements: false,
    }
}

/// The connection options that `settings` ask for, with their database
/// named and statement logging on.
pub open spec fn database_options(settings: DatabaseSettings) -> ConnectOptionsView {
    ConnectOptionsView {
        database: Some(settings.database_name@),
        log_statements: true,
        ..server_options(settings)
    }
}

impl DatabaseSettings {
    /// Options for a connection to the server as a whole, as needed to
    /// create the database.
    pub fn without_db(&self) -> (options: ConnectOptions)
        ensures
            options@ == server_options(*self),
    {
        let ssl_mode = if self.require_ssl {
            SslMode::Require
        } else {
            SslMode::Disable
        };
        ConnectOptions {
            host: self.host.clone(),
            port: self.port,
            username: self.username.clone(),
            password: self.password.clone(),
            ssl_mode,
            database: None,
            log_statements: false,
        }
    }

    /// Options for a connection to the service's own database.
    pub fn with_db(&self) -> (options: ConnectOptions)
        ensures
            options@ == database_options(*self),
    {
        let server = self.without_db();
        ConnectOptions {
            host: server.host,
            port: server.port,
            username: server.username,
            password: server.password,
            ssl_mode: server.ssl_mode,
            database: Some(self.database_name.clone()),
            log_statements: true,
        }
    }
}

/// The span of time that lasts `millis` milliseconds.
pub uninterp spec fn duration_of_millis(millis: u64) -> Duration;

/// Trusted: `Duration::from_millis` gives the duration of that many
/// milliseconds, the same for the same number.
pub assume_specification[ Duration::from_millis ](millis: u64) -> (d: Duration)
    ensures
        d == duration_of_millis(millis),
;

/// Why no email client could be made from the settings.
#[derive(Debug)]
pub enum EmailSetupError {
    /// The sender of the settings is not a valid email address.
    InvalidSender,
    /// The network client could not be set up.
    Client(ConfigError),
}

impl EmailSettings {
    /// How long to wait for the email provider.
    pub fn timeout(&self) -> (d: Duration)
        ensures
            d == duration_of_millis(self.timeout),
    {
        Duration::from_millis(self.timeout)
    }

    /// The email client that the settings describe. `transport` says what
    /// came of setting up the network client with [`EmailSettings::timeout`].
    pub fn client(&self, transport: Result<(), String>) -> (r: Result<EmailClient, EmailSetupError>)
        ensures
            match r {
                Ok(client) => is_valid_email(self.sender@) && transport is Ok && client@ == (
                    EmailClientView {
                        base_url: self.base_url@,
                        sender: self.sender@,
                        api_key: self.apikey@,
                        timeout: duration_of_millis(self.timeout),
                    }
                ),
                Err(EmailSetupError::InvalidSender) => !is_valid_email(self.sender@),
                Err(EmailSetupError::Client(e)) => is_valid_email(self.sender@) && (
                    transport matches Err(cause) && e.cause@ == cause@
                ),
            },
    {
        let sender = match SubscriberEmail::parse(self.sender.clone()) {
            Ok(sender) => sender,
            Err(_) => {
                return Err(EmailSetupError::InvalidSender);
            },
        };
        match EmailClient::new(
            self.base_url.as_str(),
            sender,
            self.apikey.as_str(),
            self.timeout(),
            transport,
        ) {
            Ok(client) => Ok(client),
            Err(e) => Err(EmailSetupError::Client(e)),
        }
    }
}

/// The address on which the service listens when `port` is its port: every
/// interface of the machine.
pub open spec fn listen_address(port: u16) -> Seq<char> {
    "0.0.0.0:"@ + decimal(port as nat)
}

impl ApplicationSettings {
    /// The address to listen on. Port 0 leaves the choice of the port to
    /// the system.
    pub fn address(&self) -> (address: String)
        ensures
            address@ == listen_address(self.port),
    {
        let mut address = String::from_str("0.0.0.0:");
        address.append(decimal_text(self.port).as_str());
        address
    }
}

/// The name of the environment whose settings are laid over the base
/// settings: the one that was chosen, and `local` if none was.
pub fn environment(chosen: Option<String>) -> (name: String)
    ensures
        name@ == match chosen {
            Some(chosen) => chosen@,
            None => "local"@,
        },
{
    match chosen {
        Some(chosen) => chosen,
        None => String::from_str("local"),
    }
}

} // verus!
