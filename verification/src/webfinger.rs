//! The WebFinger resource resolver: maps the one configured `acct:` resource
//! to its discovery document and everything else to "not found".

use vstd::prelude::*;
use vstd::string::StringExecFns;
use crate::identity::{handle_of, profile_url_of, Environment};
use crate::strings::str_eq;

verus! {

/// The canonical resource string `acct:<handle>` of a configured handle.
pub open spec fn admin_resource_of(handle: Seq<char>) -> Seq<char> {
    "acct:"@ + handle
}

/// A WebFinger query: the resource identifier asked about.
#[derive(Debug)]
pub struct WebfingerRequest {
    pub resource: String,
}

/// The discovery document returned for the configured resource.
#[derive(Debug)]
pub struct WebfingerResponse {
    pub subject: String,
    pub aliases: Vec<String>,
    pub links: Vec<WebfingerLink>,
}

/// One typed link of a discovery document: at most one of `href` and
/// `template` is populated.
#[derive(Debug)]
pub struct WebfingerLink {
    pub rel: String,
    pub rel_type: Option<String>,
    pub href: Option<String>,
    pub template: Option<String>,
}

/// The not-found condition, carrying a fixed textual description.
#[derive(Debug)]
pub struct WebfingerError {
    pub description: &'static str,
}

/// The resource resolver matches a query exactly against the canonical
/// resource string of the configured handle.
pub open spec fn resource_matches(env: &Environment, resource: Seq<char>) -> bool {
    resource == admin_resource_of(env.admin_username_domain@)
}

/// The discovery document for the configured identity: the canonical
/// resource as subject, the profile URL as the only alias, and exactly
/// three links in fixed order — the profile page, the self link, and the
/// subscribe-URL template.
pub open spec fn webfinger_doc_ok(doc: &WebfingerResponse, env: &Environment) -> bool {
    &&& doc.subject@ == admin_resource_of(env.admin_username_domain@)
    &&& doc.aliases@.len() == 1
    &&& doc.aliases@[0]@ == env.admin_profile_url@
    &&& doc.links@.len() == 3
    &&& doc.links@[0].rel@ == "http://webfinger.net/rel/profile-page"@
    &&& doc.links@[0].rel_type matches Some(t) && t@ == "text/html"@
    &&& doc.links@[0].href matches Some(h) && h@ == env.admin_profile_url@
    &&& doc.links@[0].template is None
    &&& doc.links@[1].rel@ == "self"@
    &&& doc.links@[1].rel_type matches Some(t) && t@ == "application/activity+json"@
    &&& doc.links@[1].href matches Some(h) && h@ == env.admin_profile_url@
    &&& doc.links@[1].template is None
    &&& doc.links@[2].rel@ == "http://ostatus.org/schema/1.0/subscribe"@
    &&& doc.links@[2].rel_type is None
    &&& doc.links@[2].href is None
    &&& doc.links@[2].template matches Some(t) && t@ == env.subscribe_url@
}

/// Resolves a WebFinger query against the configured identity: the one
/// canonical resource yields its discovery document, every other resource
/// the not-found condition.
pub fn finger(env: &Environment, query: &WebfingerRequest) -> (r: Result<
    WebfingerResponse,
    WebfingerError,
>)
    ensures
        r is Ok <==> resource_matches(env, query.resource@),
        r matches Ok(doc) ==> webfinger_doc_ok(&doc, env),
        r matches Err(e) ==> e.description@ == "404"@,
{
    let mut admin_resource = String::from_str("acct:");
    admin_resource.append(env.admin_username_domain.as_str());
    proof {
        assert(admin_resource@ =~= admin_resource_of(env.admin_username_domain@));
    }
    if str_eq(query.resource.as_str(), admin_resource.as_str()) {
        let mut aliases: Vec<String> = Vec::new();
        aliases.push(env.admin_profile_url.clone());

        let mut links: Vec<WebfingerLink> = Vec::new();
        links.push(WebfingerLink {
            rel: String::from_str("http://webfinger.net/rel/profile-page"),
            rel_type: Some(String::from_str("text/html")),
            href: Some(env.admin_profile_url.clone()),
            template: None,
        });
        links.push(WebfingerLink {
            rel: String::from_str("self"),
            rel_type: Some(String::from_str("application/activity+json")),
            href: Some(env.admin_profile_url.clone()),
            template: None,
        });
        links.push(WebfingerLink {
            rel: String::from_str("http://ostatus.org/schema/1.0/subscribe"),
            rel_type: None,
            href: None,
            template: Some(env.subscribe_url.clone()),
        });

        Ok(WebfingerResponse { subject: admin_resource, aliases, links })
    } else {
        Err(WebfingerError { description: "404" })
    }
}

/// Law: for an identity whose derived fields come from its configuration,
/// the resource that resolves is exactly `acct:<username>@<local domain>`,
/// and the document produced for it has that resource as its subject, the
/// configured profile URL as its only alias, and exactly three links in the
/// fixed order of the discovery document.
pub proof fn lemma_configured_identity_is_discoverable(
    env: &Environment,
    doc: &WebfingerResponse,
    resource: Seq<char>,
)
    requires
        env.derived_ok(),
        resource == admin_resource_of(handle_of(env.admin_username@, env.local_domain@)),
        webfinger_doc_ok(doc, env),
    ensures
        resource_matches(env, resource),
        doc.subject@ == resource,
        doc.aliases@.len() == 1,
        doc.aliases@[0]@ == profile_url_of(env.web_domain@, env.admin_username@),
        doc.links@.len() == 3,
{
}

} // verus!
