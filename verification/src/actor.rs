//! The ActivityPub actor document responder: serves the configured actor's
//! machine-readable document under content negotiation, a human-readable
//! placeholder otherwise, and "not found" for every other username.

use vstd::prelude::*;
use vstd::string::StringExecFns;
use crate::identity::{direct_inbox_url_of, key_id_of, profile_url_of, Environment};
use crate::response::TextResponse;
use crate::strings::str_eq;
use crate::webfinger::WebfingerError;

verus! {

/// The public key block of an actor document.
#[derive(Debug)]
pub struct PubActorPublicKey {
    pub id: String,
    pub owner: String,
    pub public_key_pem: String,
}

/// The optional icon block of an actor document.
#[derive(Debug)]
pub struct PubActorImage {
    pub res_type: String,
    pub media_type: String,
    pub url: String,
}

/// The additional endpoints block of an actor document.
#[derive(Debug)]
pub struct PubActorEndpoints {
    pub shared_inbox: String,
}

/// The machine-readable actor document for the configured identity.
#[derive(Debug)]
pub struct PubActorResponse {
    pub context: Vec<String>,
    pub id: String,
    pub actor_type: String,
    pub preferred_username: String,
    pub inbox: String,
    pub public_key: PubActorPublicKey,
    pub icon: Option<PubActorImage>,
    pub endpoints: PubActorEndpoints,
}

/// What the actor responder returns on a matching username: the actor
/// document (served as `application/activity+json`), or the placeholder
/// page for callers that did not ask for it.
#[derive(Debug)]
pub enum UserResponse {
    Actor(PubActorResponse),
    Page(TextResponse),
}

/// The caller asked for the machine-readable document: its accept
/// preference is exactly `application/activity+json` or `application/json`.
pub open spec fn accepts_activity_json(accept: Option<&str>) -> bool {
    accept matches Some(a) && (a@ == "application/activity+json"@ || a@ == "application/json"@)
}

/// The actor document of the configured identity: both context URIs, the
/// profile URL as id and key owner, the fixed "Person" type, the configured
/// username, the per-user inbox, the `#main-key` key id with the configured
/// PEM text, the icon exactly when one is configured, and the shared inbox.
pub open spec fn actor_doc_ok(doc: &PubActorResponse, env: &Environment) -> bool {
    &&& doc.context@.len() == 2
    &&& doc.context@[0]@ == "https://www.w3.org/ns/activitystreams"@
    &&& doc.context@[1]@ == "https://w3id.org/security/v1"@
    &&& doc.id@ == env.admin_profile_url@
    &&& doc.actor_type@ == "Person"@
    &&& doc.preferred_username@ == env.admin_username@
    &&& doc.inbox@ == direct_inbox_url_of(env.web_domain@, env.admin_username@)
    &&& doc.public_key.id@ == key_id_of(env.admin_profile_url@)
    &&& doc.public_key.owner@ == env.admin_profile_url@
    &&& doc.public_key.public_key_pem@ == env.admin_public_key_pem@
    &&& (doc.icon is Some <==> env.admin_icon_url is Some)
    &&& (env.admin_icon_url matches Some(u) ==> doc.icon matches Some(i) && i.res_type@
        == "Image"@ && i.media_type@ == "image/png"@ && i.url@ == u@)
    &&& doc.endpoints.shared_inbox@ == env.shared_inbox_url@
}

/// Serves `/user/<username>`: on the configured username, the actor
/// document when the caller accepts it and the placeholder page otherwise;
/// on any other username, the not-found condition, whatever the caller's
/// accept preference.
pub fn pub_user(env: &Environment, username: &str, accept: Option<&str>) -> (r: Result<
    UserResponse,
    WebfingerError,
>)
    ensures
        r is Ok <==> username@ == env.admin_username@,
        r matches Err(e) ==> e.description@ == "404"@,
        r matches Ok(u) ==> match u {
            UserResponse::Actor(doc) => accepts_activity_json(accept) && actor_doc_ok(&doc, env),
            UserResponse::Page(page) => {
                &&& !accepts_activity_json(accept)
                &&& page.media_type@ == "text/html"@
                &&& page.body@ == "twitton // "@ + username@
            },
        },
{
    if !str_eq(username, env.admin_username.as_str()) {
        return Err(WebfingerError { description: "404" });
    }
    let wants_json = match accept {
        Some(a) => str_eq(a, "application/activity+json") || str_eq(a, "application/json"),
        None => false,
    };
    if wants_json {
        let mut context: Vec<String> = Vec::new();
        context.push(String::from_str("https://www.w3.org/ns/activitystreams"));
        context.push(String::from_str("https://w3id.org/security/v1"));

        let mut key_id = env.admin_profile_url.clone();
        key_id.append("#main-key");
        proof {
            assert(key_id@ =~= key_id_of(env.admin_profile_url@));
        }

        let icon = match &env.admin_icon_url {
            Some(url) => Some(
                PubActorImage {
                    res_type: String::from_str("Image"),
                    media_type: String::from_str("image/png"),
                    url: url.clone(),
                },
            ),
            None => None,
        };

        Ok(UserResponse::Actor(PubActorResponse {
            context,
            id: env.admin_profile_url.clone(),
            actor_type: String::from_str("Person"),
            preferred_username: env.admin_username.clone(),
            inbox: env.direct_inbox_url(env.admin_username.as_str()),
            public_key: PubActorPublicKey {
                id: key_id,
                owner: env.admin_profile_url.clone(),
                public_key_pem: env.admin_public_key_pem.clone(),
            },
            icon,
            endpoints: PubActorEndpoints { shared_inbox: env.shared_inbox_url.clone() },
        }))
    } else {
        let mut body = String::from_str("twitton // ");
        body.append(username);
        proof {
            assert(body@ =~= "twitton // "@ + username@);
        }
        Ok(UserResponse::Page(TextResponse { media_type: String::from_str("text/html"), body }))
    }
}

/// Law: for an identity whose derived fields come from its configuration,
/// the actor document identifies the actor by the configured profile URL,
/// carries the configured username, and names its key
/// `<profile URL>#main-key`.
pub proof fn lemma_actor_document_identity(env: &Environment, doc: &PubActorResponse)
    requires
        env.derived_ok(),
        actor_doc_ok(doc, env),
    ensures
        doc.id@ == profile_url_of(env.web_domain@, env.admin_username@),
        doc.preferred_username@ == env.admin_username@,
        doc.public_key.id@ == profile_url_of(env.web_domain@, env.admin_username@)
            + "#main-key"@,
{
}

} // verus!
