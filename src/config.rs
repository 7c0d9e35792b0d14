//! The configuration record, its defaults and the values derived from it.
use vstd::prelude::*;

use crate::error::Error;
use crate::text::{joined, replace_all, replaced, trim_end_char, trimmed_end};

verus! {

/// The persisted configuration record.
#[derive(Debug, Clone)]
pub struct Config {
    pub email: Option<String>,
    pub base_url: Option<String>,
    pub root_certificate: Option<String>,
    pub identity_url: Option<String>,
    pub lock_timeout: u64,
    pub pinentry: String,
}

/// The record's fields as mathematical values.
pub struct ConfigView {
    pub email: Option<Seq<char>>,
    pub base_url: Option<Seq<char>>,
    pub root_certificate: Option<Seq<char>>,
    pub identity_url: Option<Seq<char>>,
    pub lock_timeout: u64,
    pub pinentry: Seq<char>,
}

/// The characters of an optional string.
pub open spec fn opt_view(o: Option<String>) -> Option<Seq<char>> {
    match o {
        Some(s) => Some(s@),
        None => None,
    }
}

impl View for Config {
    type V = ConfigView;

    open spec fn view(&self) -> ConfigView {
        ConfigView {
            email: opt_view(self.email),
            base_url: opt_view(self.base_url),
            root_certificate: opt_view(self.root_certificate),
            identity_url: opt_view(self.identity_url),
            lock_timeout: self.lock_timeout,
            pinentry: self.pinentry@,
        }
    }
}

/// The lock timeout of a fresh record, in seconds.
pub open spec fn spec_default_lock_timeout() -> u64 {
    3600
}

/// The PIN-entry program of a fresh record.
pub open spec fn spec_default_pinentry() -> Seq<char> {
    "pinentry"@
}

/// The record that `new` builds: no email or URLs, default timeout and program.
pub open spec fn default_view() -> ConfigView {
    ConfigView {
        email: None,
        base_url: None,
        root_certificate: None,
        identity_url: None,
        lock_timeout: spec_default_lock_timeout(),
        pinentry: spec_default_pinentry(),
    }
}

/// The API endpoint: the base URL without trailing slashes, followed by
/// `/api`; the public service when no base URL is set.
pub open spec fn api_url(base_url: Option<Seq<char>>) -> Seq<char> {
    match base_url {
        Some(u) => trimmed_end(u, '/') + "/api"@,
        None => "https://api.bitwarden.com"@,
    }
}

/// The identity endpoint: the identity URL as written when set; else the
/// base URL without trailing slashes, followed by `/identity`; else the
/// public service.
pub open spec fn identity_endpoint(
    identity_url: Option<Seq<char>>,
    base_url: Option<Seq<char>>,
) -> Seq<char> {
    match identity_url {
        Some(i) => i,
        None => match base_url {
            Some(u) => trimmed_end(u, '/') + "/identity"@,
            None => "https://identity.bitwarden.com"@,
        },
    }
}

/// The root certificate's path with each `$HOME` replaced by `home`; empty
/// when no certificate is set.
pub open spec fn certificate_path(root_certificate: Option<Seq<char>>, home: Seq<char>) -> Seq<
    char,
> {
    match root_certificate {
        Some(c) => replaced(c, "$HOME"@, home),
        None => Seq::empty(),
    }
}

/// The server's name: the base URL exactly as written, or `default`.
pub open spec fn server_label(base_url: Option<Seq<char>>) -> Seq<char> {
    match base_url {
        Some(u) => u,
        None => "default"@,
    }
}

/// The record after loading: a zero lock timeout becomes the default, all
/// else is kept.
pub open spec fn normalized(c: ConfigView) -> ConfigView {
    if c.lock_timeout == 0 {
        ConfigView { lock_timeout: spec_default_lock_timeout(), ..c }
    } else {
        c
    }
}

/// Seconds of inactivity after which the local session locks, unless configured.
pub fn default_lock_timeout() -> (r: u64)
    ensures
        r == spec_default_lock_timeout(),
{
    3600
}

/// Name of the PIN-entry program, unless configured.
pub fn default_pinentry() -> (r: String)
    ensures
        r@ == spec_default_pinentry(),
{
    String::from_str("pinentry")
}

impl Default for Config {
    fn default() -> (r: Config)
        ensures
            r@ == default_view(),
    {
        Config {
            email: None,
            base_url: None,
            root_certificate: None,
            identity_url: None,
            lock_timeout: default_lock_timeout(),
            pinentry: default_pinentry(),
        }
    }
}

impl Config {
    /// A record with no email or URLs, the default lock timeout and the
    /// default PIN-entry program.
    pub fn new() -> (r: Config)
        ensures
            r@ == default_view(),
    {
        Config::default()
    }

    /// Replaces a zero lock timeout by the default; tells whether it did.
    pub fn normalize_lock_timeout(&mut self) -> (corrected: bool)
        ensures
            final(self)@ == normalized(old(self)@),
            corrected == (old(self).lock_timeout == 0),
    {
        if self.lock_timeout == 0 {
            self.lock_timeout = default_lock_timeout();
            true
        } else {
            false
        }
    }

    /// Fails with `ConfigMissingEmail` exactly when no email is set.
    pub fn validate(&self) -> (r: Result<(), Error>)
        ensures
            r is Ok <==> self.email is Some,
            r is Err ==> r->Err_0 is ConfigMissingEmail,
    {
        if self.email.is_none() {
            return Err(Error::ConfigMissingEmail);
        }
        Ok(())
    }

    /// The API endpoint derived from the base URL.
    pub fn base_url(&self) -> (r: String)
        ensures
            r@ == api_url(self@.base_url),
    {
        match &self.base_url {
            Some(url) => joined(trim_end_char(url.as_str(), '/'), "/api"),
            None => String::from_str("https://api.bitwarden.com"),
        }
    }

    /// The root certificate's path, with `home_dir` in place of each `$HOME`.
    pub fn root_certificate(&self, home_dir: &str) -> (r: String)
        ensures
            r@ == certificate_path(self@.root_certificate, home_dir@),
    {
        match &self.root_certificate {
            Some(cert) => {
                proof {
                    reveal_strlit("$HOME");
                }
                replace_all(cert.as_str(), "$HOME", home_dir)
            },
            None => String::new(),
        }
    }

    /// The identity endpoint derived from the identity and base URLs.
    pub fn identity_url(&self) -> (r: String)
        ensures
            r@ == identity_endpoint(self@.identity_url, self@.base_url),
    {
        match &self.identity_url {
            Some(url) => url.clone(),
            None => match &self.base_url {
                Some(url) => joined(trim_end_char(url.as_str(), '/'), "/identity"),
                None => String::from_str("https://identity.bitwarden.com"),
            },
        }
    }

    /// The base URL exactly as written, or `default`.
    pub fn server_name(&self) -> (r: String)
        ensures
            r@ == server_label(self@.base_url),
    {
        match &self.base_url {
            Some(url) => url.clone(),
            None => String::from_str("default"),
        }
    }
}

} // verus!
