//! Links that wake the agent.

use rswebtwain::address::UrlParts;
use rswebtwain::deep_link::{deep_link, link_message};
use rswebtwain::protocol::AgentMessage;

fn parts(m: AgentMessage) -> (String, Option<String>, Vec<(String, String)>) {
    match m {
        AgentMessage::DeepLink { url, action, params } => (url, action, params),
        other => panic!("unexpected {other:?}"),
    }
}

fn pair(key: &str, value: &str) -> (String, String) {
    (key.to_string(), value.to_string())
}

#[test]
fn links_name_their_action_and_parameters() {
    let (url, action, params) =
        parts(deep_link("rswebtwain://scan?session=42&title=a%20b+c").unwrap());
    assert_eq!(url, "rswebtwain://scan?session=42&title=a%20b+c");
    assert_eq!(action, Some("scan".to_string()));
    assert_eq!(params, vec![pair("session", "42"), pair("title", "a b c")]);
}

#[test]
fn links_without_host_name_their_action_by_path() {
    let (_, action, params) = parts(deep_link("rswebtwain:/scan/now").unwrap());
    assert_eq!(action, Some("scan/now".to_string()));
    assert!(params.is_empty());
    let (_, action, _) = parts(deep_link("rswebtwain:").unwrap());
    assert_eq!(action, None);
}

#[test]
fn the_last_value_of_a_parameter_counts() {
    let (_, _, params) = parts(deep_link("rswebtwain://scan?a=1&b=2&a=3").unwrap());
    assert_eq!(params.len(), 2);
    assert!(params.contains(&pair("a", "3")));
    assert!(params.contains(&pair("b", "2")));
}

#[test]
fn other_texts_are_no_links() {
    assert!(deep_link("not a link").is_none());
    assert!(deep_link("").is_none());
}

#[test]
fn link_parts_become_a_message() {
    let link = |host: Option<&str>, path: &str| {
        parts(link_message(UrlParts {
            text: "t".to_string(),
            scheme: "rswebtwain".to_string(),
            host: host.map(|h| h.to_string()),
            path: path.to_string(),
            query: vec![pair("k", "v")],
        }))
    };
    assert_eq!(link(Some("scan"), "/x"), ("t".to_string(), Some("scan".to_string()), vec![pair("k", "v")]));
    assert_eq!(link(None, "///").1, None);
    assert_eq!(link(None, "//go").1, Some("go".to_string()));
}
