use agent_hub_server::profiles::{title_case, ProfileCatalog, PromptProfile};

#[test]
fn title_case_splits_on_separators() {
    assert_eq!(title_case("my-cool_profile name"), "My Cool Profile Name");
    assert_eq!(title_case("--lead__"), "Lead");
    assert_eq!(title_case(""), "");
    assert_eq!(title_case("élan-vital"), "Élan Vital");
}

#[test]
fn catalog_summaries_and_lookup() {
    let mut c = ProfileCatalog::new();
    c.insert(PromptProfile::new(
        "full-stack".to_string(),
        "doc".to_string(),
        vec![("BOOT".to_string(), "b".to_string()), ("WORKER".to_string(), "w".to_string())],
    ));
    c.insert(PromptProfile::new("solo".to_string(), "d2".to_string(), vec![]));
    c.insert(PromptProfile::new("solo".to_string(), "d3".to_string(), vec![]));
    let s = c.summaries();
    assert_eq!(s.len(), 2);
    assert_eq!(s[0].name, "Full Stack");
    assert_eq!(s[0].modes, vec!["BOOT", "WORKER"]);
    assert!(s[0].description.is_none());
    assert_eq!(c.get("solo").unwrap().agents_doc, "d3");
    assert!(c.get("nope").is_none());
}
