//! Connection options: the label of the database to open.

use vstd::prelude::*;
use crate::connection::SqlxConnection;
use crate::error::{Error, ErrorModel};

verus! {

/// Trusted: the URL type of the `url` crate, carried through as an opaque
/// value.
#[verifier::external_type_specification]
#[verifier::external_body]
pub struct ExUrl(url::Url);

/// Trusted: the level type of the `log` crate, carried through as an opaque
/// value.
#[verifier::external_type_specification]
#[verifier::external_body]
pub struct ExLevelFilter(log::LevelFilter);

/// The text of the host component of a URL, for a URL that has one.
///
/// This names what `Url::host` of the `url` crate returns, rendered as text:
/// a domain as it stands in the URL, an IPv4 address in dotted form, an IPv6
/// address between brackets.
pub uninterp spec fn url_host(url: url::Url) -> Option<Seq<char>>;

/// Trusted: calls `Url::host` and renders the host as text.  The contract
/// only names the outcome; it claims nothing about which URLs have a host.
#[verifier::external_body]
fn host_text(url: &url::Url) -> (r: Option<String>)
    ensures
        match r {
            Some(text) => url_host(*url) == Some(text@),
            None => url_host(*url) is None,
        },
{
    match url.host() {
        Some(host) => Some(host.to_string()),
        None => None,
    }
}

/// What is needed to open a connection: the label under which the host
/// knows the database.
#[derive(Debug)]
pub struct SqlxConnectionOptions {
    label: String,
}

impl Clone for SqlxConnectionOptions {
    /// Options for the same label.
    fn clone(&self) -> (r: Self)
        ensures
            r@ == self@,
    {
        SqlxConnectionOptions { label: self.label.clone() }
    }
}

impl View for SqlxConnectionOptions {
    type V = Seq<char>;

    /// The label.
    closed spec fn view(&self) -> Seq<char> {
        self.label@
    }
}

impl SqlxConnectionOptions {
    /// Takes the whole of `s` as the label.
    pub fn from_str(s: &str) -> (r: Result<Self, Error>)
        ensures
            r matches Ok(options) && options@ == s@,
    {
        Ok(SqlxConnectionOptions { label: s.to_owned() })
    }

    /// Options for the host component of a URL, given as `Url::host` found
    /// it: the host is the label, and a URL without one is refused.
    pub fn from_host(host: Option<String>) -> (r: Result<Self, Error>)
        ensures
            match host {
                Some(label) => r matches Ok(options) && options@ == label@,
                None => r matches Err(e) && e@ == ErrorModel::BadUrl,
            },
    {
        match host {
            Some(label) => Ok(SqlxConnectionOptions { label }),
            None => Err(Error::BadUrl),
        }
    }

    /// Takes the host component of `url` as the label.  Path, query and
    /// fragment are ignored; a URL without a host is refused.
    pub fn from_url(url: &url::Url) -> (r: Result<Self, Error>)
        ensures
            match url_host(*url) {
                Some(label) => r matches Ok(options) && options@ == label,
                None => r matches Err(e) && e@ == ErrorModel::BadUrl,
            },
    {
        Self::from_host(host_text(url))
    }

    /// The label of the database to open.
    pub fn label(&self) -> (r: &str)
        ensures
            r@ == self@,
    {
        self.label.as_str()
    }

    /// Finishes connecting, given how opening the label went at the host:
    /// the handle becomes a connection, the host's message a connection
    /// error.
    pub fn connect<C>(&self, opened: Result<C, String>) -> (r: Result<SqlxConnection<C>, Error>)
        ensures
            match opened {
                Ok(handle) => r matches Ok(conn) && conn@ == handle,
                Err(message) => r matches Err(e) && e@ == ErrorModel::Connection(message@),
            },
    {
        match opened {
            Ok(handle) => Ok(SqlxConnection::new(handle)),
            Err(message) => Err(Error::Connection(message)),
        }
    }

    /// Accepts a level for statement logging and ignores it.
    pub fn log_statements(self, _level: log::LevelFilter) -> (r: Self)
        ensures
            r == self,
    {
        self
    }

    /// Accepts a level and a threshold for the logging of slow statements and
    /// ignores both.
    pub fn log_slow_statements(self, _level: log::LevelFilter, _duration: std::time::Duration) -> (r: Self)
        ensures
            r == self,
    {
        self
    }
}

} // verus!
