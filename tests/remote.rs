use atlas::json::Json;
use atlas::sync::{
    apps_from_response, users_from_response, created_user_from_response, update_outcome,
    create_user_request, settings_update_request, collection_url, record_url, app_from_record,
};
use atlas::sync::refresh_from_response;
use atlas::cache::apps_from_cache;
use atlas::SyncError;

fn text(s: &str) -> Json {
    Json::Str(s.to_string())
}

fn obj(m: Vec<(&str, Json)>) -> Json {
    Json::Object(m.into_iter().map(|(k, v)| (k.to_string(), v)).collect())
}

fn list(items: &[&str]) -> Json {
    Json::Array(items.iter().map(|s| text(s)).collect())
}

fn raw_app(id: &str, name: &str, kind: Json) -> Json {
    obj(vec![
        ("id", text(id)),
        ("createdTime", text("2024-01-01T00:00:00.000Z")),
        (
            "fields",
            obj(vec![
                ("Name", text(name)),
                ("Enabled", Json::Bool(true)),
                ("Type", kind),
                ("Target", text("https://example.com")),
                ("Ownership", obj(vec![("id", text("selG")), ("name", text("Global"))])),
                ("Owner", list(&["usr1"])),
            ]),
        ),
    ])
}

fn records(items: Vec<Json>) -> Json {
    obj(vec![("records", Json::Array(items))])
}

#[test]
fn malformed_single_select_drops_one_record_only() {
    let mut items = Vec::new();
    for i in 0..10 {
        let kind = if i == 4 { Json::Number("7".to_string()) } else { text("Web") };
        items.push(raw_app(&format!("rec{}", i), &format!("App {}", i), kind));
    }
    let apps = apps_from_response(200, &records(items)).unwrap();
    assert_eq!(apps.len(), 9);
    assert!(apps.iter().all(|a| a.id.as_deref() != Some("rec4")));
    assert_eq!(apps[4].id, Some("rec5".to_string()));
    assert_eq!(apps[0].ownership, Some("Global".to_string()));
    assert_eq!(apps[0].type_field, Some("Web".to_string()));
    assert_eq!(apps[0].owner, Some(vec!["usr1".to_string()]));
}

#[test]
fn http_error_status_is_a_transport_error() {
    let body = records(vec![raw_app("rec1", "Mail", text("Web"))]);
    assert_eq!(apps_from_response(500, &body).unwrap_err(), SyncError::Transport { status: 500 });
    assert_eq!(apps_from_response(401, &body).unwrap_err(), SyncError::Transport { status: 401 });
    assert_eq!(users_from_response(503, &body).unwrap_err(), SyncError::Transport { status: 503 });
}

#[test]
fn answer_without_records_is_a_schema_error() {
    assert_eq!(apps_from_response(200, &obj(vec![])).unwrap_err(), SyncError::Schema);
    assert_eq!(apps_from_response(200, &Json::Array(vec![])).unwrap_err(), SyncError::Schema);
    let paged = obj(vec![("records", Json::Array(vec![])), ("offset", text("itrX/recY"))]);
    assert_eq!(apps_from_response(200, &paged).unwrap_err(), SyncError::Schema);
    let last_page = obj(vec![("records", Json::Array(vec![])), ("offset", Json::Null)]);
    assert_eq!(apps_from_response(200, &last_page).unwrap().len(), 0);
}

#[test]
fn two_owners_are_a_fault_of_the_record() {
    let r = obj(vec![("id", text("rec1")), ("fields", obj(vec![("Owner", list(&["usr1", "usr2"]))]))]);
    assert!(app_from_record(&r).is_none());
    let r = obj(vec![("id", text("rec1")), ("fields", obj(vec![("Parent", list(&["a", "b"]))]))]);
    assert!(app_from_record(&r).is_none());
}

#[test]
fn record_id_comes_from_the_record() {
    let r = obj(vec![("id", text("recZ")), ("fields", obj(vec![("id", text("other"))]))]);
    assert_eq!(app_from_record(&r).unwrap().id, Some("recZ".to_string()));
    let r = obj(vec![("fields", obj(vec![]))]);
    assert_eq!(app_from_record(&r).unwrap().id, None);
    assert!(app_from_record(&obj(vec![("id", text("recZ"))])).is_none());
}

fn raw_user(id: &str, fields: Json) -> Json {
    obj(vec![("id", text(id)), ("fields", fields)])
}

#[test]
fn users_are_read_with_their_settings_untouched() {
    let settings = "{\"theme\":\"dark\",\"pins\":[1,2]}";
    let body = records(vec![
        raw_user(
            "usr1",
            obj(vec![
                ("Name", text("Ann")),
                ("OwnedApps", list(&["rec1"])),
                ("UserSettings", text(settings)),
                ("HideGlobal", list(&["rec9"])),
            ]),
        ),
        raw_user("usr2", obj(vec![])),
    ]);
    let users = users_from_response(200, &body).unwrap();
    assert_eq!(users.len(), 2);
    assert_eq!(users[0].id, "usr1");
    assert_eq!(users[0].name, Some("Ann".to_string()));
    assert_eq!(users[0].user_settings, Some(settings.to_string()));
    assert_eq!(users[0].hide_global, Some(vec!["rec9".to_string()]));
    assert_eq!(users[0].public_apps, None);
    assert_eq!(users[1].name, None);
}

#[test]
fn one_bad_user_fails_the_whole_list() {
    let body = records(vec![
        raw_user("usr1", obj(vec![("Name", text("Ann"))])),
        raw_user("usr2", obj(vec![("Name", Json::Bool(false))])),
    ]);
    assert_eq!(users_from_response(200, &body).unwrap_err(), SyncError::Schema);
}

#[test]
fn create_user_bob() {
    let req = create_user_request(&"Bob".to_string());
    match &req {
        Json::Object(e) => {
            assert_eq!(e.len(), 1);
            assert_eq!(e[0].0, "fields");
            match &e[0].1 {
                Json::Object(f) => {
                    assert_eq!(f.len(), 1);
                    assert_eq!(f[0].0, "Name");
                    assert!(matches!(&f[0].1, Json::Str(s) if s == "Bob"));
                },
                _ => panic!("fields is not an object"),
            }
        },
        _ => panic!("request is not an object"),
    }
    let answer = raw_user("recNEW123", obj(vec![("Name", text("Bob"))]));
    let user = created_user_from_response(200, &answer).unwrap();
    assert!(!user.id.is_empty());
    assert_eq!(user.id, "recNEW123");
    assert_eq!(user.name, Some("Bob".to_string()));
    assert_eq!(user.owned_apps, None);
    assert_eq!(user.public_apps, None);
    assert_eq!(user.hide_global, None);
}

#[test]
fn created_user_without_id_is_a_schema_error() {
    let answer = raw_user("", obj(vec![("Name", text("Bob"))]));
    assert_eq!(created_user_from_response(200, &answer).unwrap_err(), SyncError::Schema);
    assert_eq!(created_user_from_response(422, &answer).unwrap_err(), SyncError::Transport { status: 422 });
}

/// Applies a request's fields to a stored record, as the store does for a
/// partial update.
fn apply_patch(stored: &mut Vec<(String, Json)>, request: Json) {
    let fields = match request {
        Json::Object(mut e) => e.remove(0).1,
        _ => panic!("request is not an object"),
    };
    if let Json::Object(f) = fields {
        for (k, v) in f {
            match stored.iter_mut().find(|(sk, _)| *sk == k) {
                Some(slot) => slot.1 = v,
                None => stored.push((k, v)),
            }
        }
    }
}

#[test]
fn settings_update_leaves_the_name_alone() {
    let mut stored = vec![("Name".to_string(), text("Ann"))];
    let settings = "{\"theme\":\"dark\"}".to_string();
    apply_patch(&mut stored, settings_update_request(&settings));
    let body = records(vec![raw_user("usr1", Json::Object(stored))]);
    let users = users_from_response(200, &body).unwrap();
    assert_eq!(users[0].name, Some("Ann".to_string()));
    assert_eq!(users[0].user_settings, Some(settings));
}

#[test]
fn settings_request_names_one_attribute() {
    let req = settings_update_request(&"not json at all {".to_string());
    match req {
        Json::Object(e) => match &e[0].1 {
            Json::Object(f) => {
                assert_eq!(f.len(), 1);
                assert_eq!(f[0].0, "UserSettings");
                assert!(matches!(&f[0].1, Json::Str(s) if s == "not json at all {"));
            },
            _ => panic!("fields is not an object"),
        },
        _ => panic!("request is not an object"),
    }
}

#[test]
fn update_outcomes() {
    assert_eq!(update_outcome(200), Ok(()));
    assert_eq!(update_outcome(404), Err(SyncError::NotFound));
    assert_eq!(update_outcome(500), Err(SyncError::Transport { status: 500 }));
    assert_eq!(update_outcome(199), Err(SyncError::Transport { status: 199 }));
}

#[test]
fn store_addresses() {
    assert_eq!(collection_url("Apps"), "https://api.airtable.com/v0/appL7Lq4VPcHgAewL/Apps");
    assert_eq!(record_url("Users", "rec42"), "https://api.airtable.com/v0/appL7Lq4VPcHgAewL/Users/rec42");
}

#[test]
fn refresh_gives_cache_document_only_on_success() {
    let body = records(vec![raw_app("rec1", "Mail", text("Web")), raw_app("rec2", "Bad", list(&["x"]))]);
    let done = refresh_from_response(200, &body).unwrap();
    assert_eq!(done.apps.len(), 1);
    assert_eq!(apps_from_cache(&done.cache_document).unwrap(), done.apps);
    assert!(matches!(refresh_from_response(404, &body), Err(SyncError::Transport { status: 404 })));
}

#[test]
fn users_with_empty_id_are_kept_in_a_list() {
    let body = records(vec![
        raw_user("", obj(vec![("Name", text("Nobody"))])),
        raw_user("usr2", obj(vec![("Name", text("Ann"))])),
    ]);
    let users = users_from_response(200, &body).unwrap();
    assert_eq!(users.len(), 2);
    assert_eq!(users[0].id, "");
    assert_eq!(users[0].name, Some("Nobody".to_string()));
    assert_eq!(users[1].id, "usr2");
}

#[test]
fn refresh_lists_rejected_records() {
    let body = records(vec![
        raw_app("rec0", "A", text("Web")),
        raw_app("rec1", "B", Json::Bool(true)),
        raw_app("rec2", "C", text("Web")),
        Json::Null,
    ]);
    let done = refresh_from_response(200, &body).unwrap();
    assert_eq!(done.apps.len(), 2);
    assert_eq!(done.rejected, vec![1, 3]);
    assert_eq!(atlas::sync::rejected_records(&vec![raw_app("r", "A", text("Web"))]), Vec::<usize>::new());
}
