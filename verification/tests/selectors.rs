use kubegraph::selector::lookup_label_exec;
use kubegraph::selector::render_selector;
use kubegraph::selector::selector_matches_exec;

fn pairs(ps: &[(&str, &str)]) -> Vec<(String, String)> {
    ps.iter().map(|(k, v)| (k.to_string(), v.to_string())).collect()
}

#[test]
fn empty_selector_never_matches() {
    let sel: Vec<(String, String)> = Vec::new();
    let labels = pairs(&[("app", "web")]);
    assert!(!selector_matches_exec(&sel, &labels));
    assert!(!selector_matches_exec(&sel, &Vec::new()));
}

#[test]
fn subset_selector_matches() {
    let sel = pairs(&[("app", "web")]);
    let labels = pairs(&[("app", "web"), ("tier", "front")]);
    assert!(selector_matches_exec(&sel, &labels));
    let both = pairs(&[("app", "web"), ("tier", "front")]);
    assert!(selector_matches_exec(&both, &labels));
}

#[test]
fn missing_or_different_label_fails_the_match() {
    let sel = pairs(&[("app", "web"), ("zone", "eu")]);
    let labels = pairs(&[("app", "web")]);
    assert!(!selector_matches_exec(&sel, &labels));
    let wrong = pairs(&[("app", "api")]);
    assert!(!selector_matches_exec(&pairs(&[("app", "web")]), &wrong));
}

#[test]
fn label_lookup_takes_the_first_binding() {
    let labels = pairs(&[("app", "web"), ("app", "api")]);
    assert_eq!(
        lookup_label_exec(&labels, &"app".to_string()),
        Some("web".to_string())
    );
    assert_eq!(lookup_label_exec(&labels, &"zone".to_string()), None);
}

#[test]
fn selectors_render_as_comma_joined_pairs() {
    assert_eq!(render_selector(&pairs(&[("app", "web")])), "app=web");
    assert_eq!(
        render_selector(&pairs(&[("a", "1"), ("b", "2"), ("c", "3")])),
        "a=1,b=2,c=3"
    );
    assert_eq!(render_selector(&Vec::new()), "");
}
