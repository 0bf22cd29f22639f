//! The identity configuration: one fixed actor, built once at startup from
//! required configuration values, with every derived URL pinned down by a
//! spec function.

use vstd::prelude::*;
use vstd::string::StringExecFns;
use crate::strings::{is_blank, is_blank_str};

verus! {

/// The federation handle `<username>@<local domain>`.
pub open spec fn handle_of(username: Seq<char>, local_domain: Seq<char>) -> Seq<char> {
    username + "@"@ + local_domain
}

/// The canonical profile URL `https://<web domain>/user/<username>`.
pub open spec fn profile_url_of(web_domain: Seq<char>, username: Seq<char>) -> Seq<char> {
    "https://"@ + web_domain + "/user/"@ + username
}

/// The subscribe-URL template, with its `{uri}` placeholder.
pub open spec fn subscribe_url_of(web_domain: Seq<char>) -> Seq<char> {
    "https://"@ + web_domain + "/authorize_interaction?uri={uri}"@
}

/// The shared inbox URL `https://<web domain>/inbox`.
pub open spec fn shared_inbox_url_of(web_domain: Seq<char>) -> Seq<char> {
    "https://"@ + web_domain + "/inbox"@
}

/// The per-user inbox URL `https://<web domain>/user/<username>/inbox`.
pub open spec fn direct_inbox_url_of(web_domain: Seq<char>, username: Seq<char>) -> Seq<char> {
    "https://"@ + web_domain + "/user/"@ + username + "/inbox"@
}

/// The key id `<profile URL>#main-key` under which the actor's public key
/// is published.
pub open spec fn key_id_of(profile_url: Seq<char>) -> Seq<char> {
    profile_url + "#main-key"@
}

/// The process-wide identity record: the one configured actor.
#[derive(Debug, Clone)]
pub struct Environment {
    pub web_domain: String,
    pub local_domain: String,
    pub admin_username: String,
    pub admin_username_domain: String,
    pub admin_profile_url: String,
    pub subscribe_url: String,
    pub shared_inbox_url: String,
    pub admin_public_key_pem: String,
    pub admin_icon_url: Option<String>,
}

/// A required configuration value that was absent or blank; `key` names it.
#[derive(Debug)]
pub struct ConfigError {
    pub key: &'static str,
}

impl ConfigError {
    /// The startup failure message, naming the missing key.
    pub fn message(&self) -> (r: String)
        ensures
            r@ == "missing env: "@ + self.key@,
    {
        let mut m = String::from_str("missing env: ");
        m.append(self.key);
        proof {
            assert(m@ =~= "missing env: "@ + self.key@);
        }
        m
    }
}

/// A required configuration value is missing when it is absent or blank.
pub open spec fn config_value_missing(v: Option<String>) -> bool {
    match v {
        Some(s) => is_blank(s@),
        None => true,
    }
}

impl Environment {
    /// The derived fields agree with the configured ones.
    pub open spec fn derived_ok(&self) -> bool {
        &&& self.admin_username_domain@ == handle_of(self.admin_username@, self.local_domain@)
        &&& self.admin_profile_url@ == profile_url_of(self.web_domain@, self.admin_username@)
        &&& self.subscribe_url@ == subscribe_url_of(self.web_domain@)
        &&& self.shared_inbox_url@ == shared_inbox_url_of(self.web_domain@)
    }

    /// Every required string field is non-blank; only the icon is optional.
    pub open spec fn required_nonblank(&self) -> bool {
        &&& !is_blank(self.web_domain@)
        &&& !is_blank(self.local_domain@)
        &&& !is_blank(self.admin_username@)
        &&& !is_blank(self.admin_public_key_pem@)
    }

    /// The identity invariant established at construction.
    pub open spec fn wf(&self) -> bool {
        self.derived_ok() && self.required_nonblank()
    }

    /// Builds the identity from the configured values: fails on the first
    /// required value that is absent or blank, names that value's key, and
    /// otherwise derives the handle and every URL from the inputs.
    pub fn from_config(
        web_domain: Option<String>,
        local_domain: Option<String>,
        admin_username: Option<String>,
        admin_public_key_pem: Option<String>,
        admin_icon_url: Option<String>,
    ) -> (r: Result<Environment, ConfigError>)
        ensures
            r is Ok <==> {
                &&& !config_value_missing(web_domain)
                &&& !config_value_missing(local_domain)
                &&& !config_value_missing(admin_username)
                &&& !config_value_missing(admin_public_key_pem)
            },
            r matches Ok(env) ==> {
                &&& env.wf()
                &&& web_domain matches Some(w) && env.web_domain@ == w@
                &&& local_domain matches Some(l) && env.local_domain@ == l@
                &&& admin_username matches Some(u) && env.admin_username@ == u@
                &&& admin_public_key_pem matches Some(p) && env.admin_public_key_pem@ == p@
                &&& match admin_icon_url {
                    Some(i) => env.admin_icon_url matches Some(e) && e@ == i@,
                    None => env.admin_icon_url is None,
                }
            },
            r matches Err(e) ==> e.key@ == (if config_value_missing(web_domain) {
                "WEB_DOMAIN"@
            } else if config_value_missing(local_domain) {
                "LOCAL_DOMAIN"@
            } else if config_value_missing(admin_username) {
                "ADMIN_USERNAME"@
            } else {
                "ADMIN_PUBLIC_KEY_PEM"@
            }),
    {
        let web_domain = match require_value(web_domain, "WEB_DOMAIN") {
            Ok(s) => s,
            Err(e) => {
                return Err(e);
            },
        };
        let local_domain = match require_value(local_domain, "LOCAL_DOMAIN") {
            Ok(s) => s,
            Err(e) => {
                return Err(e);
            },
        };
        let admin_username = match require_value(admin_username, "ADMIN_USERNAME") {
            Ok(s) => s,
            Err(e) => {
                return Err(e);
            },
        };
        let admin_public_key_pem = match require_value(admin_public_key_pem, "ADMIN_PUBLIC_KEY_PEM") {
            Ok(s) => s,
            Err(e) => {
                return Err(e);
            },
        };

        let mut admin_username_domain = admin_username.clone();
        admin_username_domain.append("@");
        admin_username_domain.append(local_domain.as_str());

        let mut admin_profile_url = String::from_str("https://");
        admin_profile_url.append(web_domain.as_str());
        admin_profile_url.append("/user/");
        admin_profile_url.append(admin_username.as_str());

        let mut subscribe_url = String::from_str("https://");
        subscribe_url.append(web_domain.as_str());
        subscribe_url.append("/authorize_interaction?uri={uri}");

        let mut shared_inbox_url = String::from_str("https://");
        shared_inbox_url.append(web_domain.as_str());
        shared_inbox_url.append("/inbox");

        proof {
            assert(admin_username_domain@ =~= handle_of(admin_username@, local_domain@));
            assert(admin_profile_url@ =~= profile_url_of(web_domain@, admin_username@));
            assert(subscribe_url@ =~= subscribe_url_of(web_domain@));
            assert(shared_inbox_url@ =~= shared_inbox_url_of(web_domain@));
        }

        Ok(Environment {
            web_domain,
            local_domain,
            admin_username,
            admin_username_domain,
            admin_profile_url,
            subscribe_url,
            shared_inbox_url,
            admin_public_key_pem,
            admin_icon_url,
        })
    }

    /// The per-user inbox URL for `username` under the configured web domain.
    pub fn direct_inbox_url(&self, username: &str) -> (r: String)
        ensures
            r@ == direct_inbox_url_of(self.web_domain@, username@),
    {
        let mut url = String::from_str("https://");
        url.append(self.web_domain.as_str());
        url.append("/user/");
        url.append(username);
        url.append("/inbox");
        proof {
            assert(url@ =~= direct_inbox_url_of(self.web_domain@, username@));
        }
        url
    }
}

/// Accepts a configured value only when it is present and not blank;
/// otherwise reports the key under which it was expected.
fn require_value(v: Option<String>, key: &'static str) -> (r: Result<String, ConfigError>)
    ensures
        r is Ok <==> !config_value_missing(v),
        r matches Ok(s) ==> v matches Some(given) && s@ == given@,
        r matches Err(e) ==> e.key@ == key@,
{
    match v {
        Some(s) => {
            if is_blank_str(s.as_str()) {
                Err(ConfigError { key })
            } else {
                Ok(s)
            }
        },
        None => Err(ConfigError { key }),
    }
}

} // verus!
