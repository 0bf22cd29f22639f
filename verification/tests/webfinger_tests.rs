use twitton::identity::Environment;
use twitton::webfinger::{finger, WebfingerRequest};

fn env() -> Environment {
    Environment::from_config(
        Some("example.com".to_string()),
        Some("example.social".to_string()),
        Some("admin".to_string()),
        Some("PEM".to_string()),
        None,
    )
    .unwrap()
}

fn query(resource: &str) -> WebfingerRequest {
    WebfingerRequest {
        resource: resource.to_string(),
    }
}

#[test]
fn configured_resource_yields_discovery_document() {
    let env = env();
    let doc = finger(&env, &query("acct:admin@example.social")).unwrap();

    assert_eq!(doc.subject, "acct:admin@example.social");
    assert_eq!(doc.aliases, vec!["https://example.com/user/admin".to_string()]);
    assert_eq!(doc.links.len(), 3);

    assert_eq!(doc.links[0].rel, "http://webfinger.net/rel/profile-page");
    assert_eq!(doc.links[0].rel_type, Some("text/html".to_string()));
    assert_eq!(
        doc.links[0].href,
        Some("https://example.com/user/admin".to_string())
    );
    assert_eq!(doc.links[0].template, None);

    assert_eq!(doc.links[1].rel, "self");
    assert_eq!(
        doc.links[1].rel_type,
        Some("application/activity+json".to_string())
    );
    assert_eq!(
        doc.links[1].href,
        Some("https://example.com/user/admin".to_string())
    );
    assert_eq!(doc.links[1].template, None);

    assert_eq!(doc.links[2].rel, "http://ostatus.org/schema/1.0/subscribe");
    assert_eq!(doc.links[2].rel_type, None);
    assert_eq!(doc.links[2].href, None);
    assert_eq!(
        doc.links[2].template,
        Some("https://example.com/authorize_interaction?uri={uri}".to_string())
    );
}

#[test]
fn other_resources_are_not_found() {
    let env = env();
    for resource in [
        "acct:other@example.social",
        "acct:admin@example.com",
        "admin@example.social",
        "acct:Admin@example.social",
        "acct:admin@example.social ",
        "",
    ] {
        let err = finger(&env, &query(resource)).unwrap_err();
        assert_eq!(err.description, "404");
    }
}
