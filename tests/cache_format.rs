use atlas::json::Json;
use atlas::cache::{cache_document, apps_from_cache, app_to_cache_json};
use atlas::{AppRecord, Attachment, FieldError};

fn app(id: &str, name: &str) -> AppRecord {
    AppRecord {
        id: Some(id.to_string()),
        name: Some(name.to_string()),
        enabled: Some(true),
        type_field: Some("Web".to_string()),
        target: Some("https://example.com".to_string()),
        icon: Some(vec![Attachment { url: "https://cdn.example.com/i.png".to_string() }]),
        owner: Some(vec!["usrA".to_string()]),
        ownership: Some("Global".to_string()),
        icon_b64: None,
        hide_from: Some(vec!["usrB".to_string(), "usrC".to_string()]),
        public_users: Some(vec![]),
        parent: None,
        children: Some(vec!["recC1".to_string(), "recC2".to_string()]),
    }
}

fn bare(id: &str) -> AppRecord {
    AppRecord {
        id: Some(id.to_string()),
        name: None,
        enabled: None,
        type_field: None,
        target: None,
        icon: None,
        owner: None,
        ownership: None,
        icon_b64: Some("aGk=".to_string()),
        hide_from: None,
        public_users: None,
        parent: Some(vec!["recP".to_string()]),
        children: None,
    }
}

#[test]
fn cache_round_trip_keeps_records_and_order() {
    let apps = vec![app("rec1", "Mail"), bare("rec2"), app("rec3", "Docs")];
    let doc = cache_document(&apps);
    let back = apps_from_cache(&doc).unwrap();
    assert_eq!(back, apps);
}

#[test]
fn cache_round_trip_of_empty_collection() {
    let doc = cache_document(&vec![]);
    assert_eq!(apps_from_cache(&doc).unwrap(), vec![]);
}

#[test]
fn cached_app_has_members_in_order() {
    let j = app_to_cache_json(&bare("rec2"));
    let keys: Vec<String> = match &j {
        Json::Object(e) => e.iter().map(|(k, _)| k.clone()).collect(),
        _ => panic!("not an object"),
    };
    assert_eq!(
        keys,
        vec![
            "id", "Name", "Enabled", "type_field", "Target", "Icon", "owner", "ownership", "IconB64",
            "HideFrom", "PublicUsers", "Parent", "Children",
        ]
    );
    match &j {
        Json::Object(e) => {
            assert!(matches!(e[1].1, Json::Null));
            assert!(matches!(&e[8].1, Json::Str(s) if s == "aGk="));
        },
        _ => unreachable!(),
    }
}

#[test]
fn cache_document_that_is_not_an_array_is_refused() {
    assert_eq!(apps_from_cache(&Json::Null), Err(FieldError::Malformed));
    assert_eq!(apps_from_cache(&Json::Array(vec![Json::Bool(true)])), Err(FieldError::Malformed));
}

#[test]
fn cache_item_with_missing_members_reads_as_absent() {
    let doc = Json::Array(vec![Json::Object(vec![("Name".to_string(), Json::Str("Old".to_string()))])]);
    let back = apps_from_cache(&doc).unwrap();
    assert_eq!(back.len(), 1);
    assert_eq!(back[0].name, Some("Old".to_string()));
    assert_eq!(back[0].id, None);
    assert_eq!(back[0].children, None);
}
