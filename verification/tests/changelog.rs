use changelog::http::{changelog_reply, created_reply, handle_get_changelog, handle_post_changelog, health, Error};
use changelog::models::{CreateEntry, Entry};
use changelog::repository::{stamp_entry, Error as RepoError, Repository};

fn create(text: &str, tags: &[&str]) -> CreateEntry {
    CreateEntry {
        text: text.to_string(),
        tags: tags.iter().map(|t| t.to_string()).collect(),
    }
}

/// Mimics the decoding step at the HTTP edge: a JSON body becomes
/// `Some(CreateEntry)` only when it holds a string `text` and an array of
/// strings `tags`.
fn decode_body(body: &str) -> Option<CreateEntry> {
    let v: serde_json::Value = serde_json::from_str(body).ok()?;
    let text = v.get("text")?.as_str()?.to_string();
    let tags_v = v.get("tags")?.as_array()?;
    let mut tags = Vec::new();
    for t in tags_v {
        tags.push(t.as_str()?.to_string());
    }
    Some(CreateEntry { text, tags })
}

#[test]
fn test_health() {
    let resp = health();
    assert!(resp.status >= 200 && resp.status < 300);
}

#[test]
fn health_body_is_fixed() {
    let resp = health();
    assert_eq!(resp.status, 200);
    assert_eq!(resp.body, "Alive and well.");
}

#[test]
fn get_after_zero_posts_returns_404() {
    let repo = Repository::new();
    let reply = handle_get_changelog(&repo);
    assert_eq!(reply.status, 404);
    assert_eq!(reply.body, "");
}

#[test]
fn post_returns_201_with_assigned_fields() {
    let mut repo = Repository::new();
    let reply = handle_post_changelog(Some(create("Test", &["a", "b"])), &mut repo);
    assert_eq!(reply.status, 201);
    assert!(reply.body.contains("\"tags\":[\"a\",\"b\"]"));
    assert!(reply.body.contains("\"text\":\"Test\""));
    let v: serde_json::Value = serde_json::from_str(&reply.body).unwrap();
    let id = v["id"].as_str().unwrap();
    assert_eq!(id.len(), 36);
    let parsed = uuid::Uuid::parse_str(id).unwrap();
    assert_eq!(parsed.get_version_num(), 7);
    let created = v["created_at"].as_str().unwrap();
    let when = chrono::DateTime::parse_from_rfc3339(created).unwrap();
    assert!(when.timestamp_micros() > 0);
    assert_eq!(v["updated_at"].as_str().unwrap(), created);
}

#[test]
fn post_then_get_roundtrip() {
    let mut repo = Repository::new();
    let reply = handle_post_changelog(Some(create("Test", &["a", "b"])), &mut repo);
    assert_eq!(reply.status, 201);
    let posted: serde_json::Value = serde_json::from_str(&reply.body).unwrap();
    let id = posted["id"].as_str().unwrap().to_string();

    let get = handle_get_changelog(&repo);
    assert_eq!(get.status, 200);
    let arr: serde_json::Value = serde_json::from_str(&get.body).unwrap();
    let arr = arr.as_array().unwrap();
    assert_eq!(arr.len(), 1);
    assert_eq!(arr[0]["id"].as_str().unwrap(), id);
    assert_eq!(arr[0]["text"].as_str().unwrap(), "Test");
    assert_eq!(arr[0]["tags"][0].as_str().unwrap(), "a");
    assert_eq!(arr[0]["tags"][1].as_str().unwrap(), "b");
}

#[test]
fn post_with_missing_text_returns_400_and_no_insert() {
    let mut repo = Repository::new();
    let parsed = decode_body("{\"tags\":[\"a\"]}");
    assert!(parsed.is_none());
    let reply = handle_post_changelog(parsed, &mut repo);
    assert_eq!(reply.status, 400);
    let get = handle_get_changelog(&repo);
    assert_eq!(get.status, 404);
}

#[test]
fn post_with_malformed_body_returns_400() {
    let mut repo = Repository::new();
    let reply = handle_post_changelog(decode_body("not json at all"), &mut repo);
    assert_eq!(reply.status, 400);
    let reply = handle_post_changelog(decode_body("{\"text\":7,\"tags\":[]}"), &mut repo);
    assert_eq!(reply.status, 400);
    assert_eq!(handle_get_changelog(&repo).status, 404);
}

#[test]
fn tags_order_preserved() {
    let mut repo = Repository::new();
    let reply = handle_post_changelog(Some(create("ordering", &["z", "a", "m"])), &mut repo);
    assert_eq!(reply.status, 201);
    let v: serde_json::Value = serde_json::from_str(&reply.body).unwrap();
    let tags: Vec<&str> = v["tags"].as_array().unwrap().iter().map(|t| t.as_str().unwrap()).collect();
    assert_eq!(tags, vec!["z", "a", "m"]);
}

#[test]
fn empty_tags_are_allowed() {
    let mut repo = Repository::new();
    let reply = handle_post_changelog(Some(create("no tags", &[])), &mut repo);
    assert_eq!(reply.status, 201);
    assert!(reply.body.contains("\"tags\":[]"));
}

#[test]
fn get_length_matches_successful_posts() {
    let mut repo = Repository::new();
    for i in 0..3 {
        let text = format!("entry {}", i);
        let reply = handle_post_changelog(
            Some(CreateEntry { text, tags: Vec::new() }),
            &mut repo,
        );
        assert_eq!(reply.status, 201);
    }
    let get = handle_get_changelog(&repo);
    assert_eq!(get.status, 200);
    let arr: serde_json::Value = serde_json::from_str(&get.body).unwrap();
    assert_eq!(arr.as_array().unwrap().len(), 3);
}

#[test]
fn get_lists_newest_first() {
    let mut repo = Repository::new();
    for i in 0..5 {
        let text = format!("entry {}", i);
        let reply = handle_post_changelog(
            Some(CreateEntry { text, tags: Vec::new() }),
            &mut repo,
        );
        assert_eq!(reply.status, 201);
    }
    let get = handle_get_changelog(&repo);
    let arr: serde_json::Value = serde_json::from_str(&get.body).unwrap();
    let times: Vec<i64> = arr
        .as_array()
        .unwrap()
        .iter()
        .map(|e| {
            chrono::DateTime::parse_from_rfc3339(e["created_at"].as_str().unwrap())
                .unwrap()
                .timestamp_micros()
        })
        .collect();
    for w in times.windows(2) {
        assert!(w[0] >= w[1]);
    }
    assert_eq!(arr.as_array().unwrap()[0]["text"].as_str().unwrap(), "entry 4");
}

#[test]
fn many_posts_distinct_ids_all_listed() {
    let mut repo = Repository::new();
    let mut posted_ids = std::collections::HashSet::new();
    for i in 0..50 {
        let text = format!("entry {}", i);
        let reply = handle_post_changelog(
            Some(CreateEntry { text, tags: Vec::new() }),
            &mut repo,
        );
        assert_eq!(reply.status, 201);
        let v: serde_json::Value = serde_json::from_str(&reply.body).unwrap();
        let id = v["id"].as_str().unwrap().to_string();
        assert!(!id.is_empty());
        assert!(posted_ids.insert(id));
    }
    assert_eq!(posted_ids.len(), 50);

    let get = handle_get_changelog(&repo);
    assert_eq!(get.status, 200);
    let arr: serde_json::Value = serde_json::from_str(&get.body).unwrap();
    let mut listed_ids = std::collections::HashSet::new();
    for e in arr.as_array().unwrap() {
        assert!(listed_ids.insert(e["id"].as_str().unwrap().to_string()));
    }
    assert_eq!(listed_ids, posted_ids);
}

#[test]
fn rendered_json_escapes_special_characters() {
    let mut repo = Repository::new();
    let text = "line one\nwith \"quotes\", a backslash \\ and a tab\t.";
    let reply = handle_post_changelog(Some(create(text, &["x\"y"])), &mut repo);
    assert_eq!(reply.status, 201);
    let v: serde_json::Value = serde_json::from_str(&reply.body).unwrap();
    assert_eq!(v["text"].as_str().unwrap(), text);
    assert_eq!(v["tags"][0].as_str().unwrap(), "x\"y");
}

#[test]
fn add_entry_overwrites_client_supplied_id_and_timestamps() {
    let mut repo = Repository::new();
    let mut candidate = Entry::default();
    candidate.id = "client-chosen".to_string();
    candidate.created_at = 12345;
    candidate.updated_at = 67890;
    candidate.text = "hello".to_string();
    candidate.tags = vec!["t".to_string()];
    let stored = repo.add_entry(candidate).unwrap();
    assert_ne!(stored.id, "client-chosen");
    assert_eq!(stored.id.len(), 36);
    assert_ne!(stored.created_at, 12345);
    assert!(stored.created_at > 0);
    assert_eq!(stored.updated_at, stored.created_at);
    assert_eq!(stored.text, "hello");
    assert_eq!(stored.tags, vec!["t".to_string()]);
}

#[test]
fn get_changelog_returns_stored_entries() {
    let mut repo = Repository::new();
    let first = repo
        .add_entry(Entry {
            text: "first".to_string(),
            tags: Vec::new(),
            ..Entry::default()
        })
        .unwrap();
    let entries = repo.get_changelog().unwrap();
    assert_eq!(entries.len(), 1);
    assert_eq!(entries[0].id, first.id);
    assert_eq!(entries[0].text, "first");
}

#[test]
fn error_response_statuses() {
    let not_found = Error::NotFound;
    let reply = not_found.error_response();
    assert_eq!(reply.status, 404);
    assert_eq!(reply.body, "");

    let repo_err = Error::RepoError(RepoError::Query("boom".to_string()));
    let reply = repo_err.error_response();
    assert_eq!(reply.status, 500);
    assert_eq!(reply.body, "");

    let pool_err = Error::RepoError(RepoError::Pool("no connection".to_string()));
    assert_eq!(pool_err.error_response().status, 500);
}

#[test]
fn default_values() {
    let config = changelog::AppConfig::default();
    assert!(!config.debug);
    assert_eq!(config.db_url, "");

    let entry = Entry::default();
    assert_eq!(entry.id, "");
    assert_eq!(entry.text, "");
    assert!(entry.tags.is_empty());
    assert_eq!(entry.created_at, 0);
    assert_eq!(entry.updated_at, 0);
}

#[test]
fn stamp_entry_assigns_uuid_and_time() {
    let stamped = stamp_entry(create("stamped", &["t"]).into_candidate()).unwrap();
    assert_eq!(stamped.id.len(), 36);
    let parsed = uuid::Uuid::parse_str(&stamped.id).unwrap();
    assert_eq!(parsed.get_version_num(), 7);
    assert_eq!(&stamped.id[8..9], "-");
    assert_eq!(&stamped.id[13..14], "-");
    assert_eq!(&stamped.id[18..19], "-");
    assert_eq!(&stamped.id[23..24], "-");
    assert!(stamped.created_at > 0);
    assert_eq!(stamped.updated_at, stamped.created_at);
    assert_eq!(stamped.text, "stamped");
    assert_eq!(stamped.tags, vec!["t".to_string()]);
}

#[test]
fn changelog_reply_decides_status() {
    let empty: Vec<Entry> = Vec::new();
    let reply = changelog_reply(&empty);
    assert_eq!(reply.status, 404);
    assert_eq!(reply.body, "");

    let stamped = stamp_entry(create("one", &[]).into_candidate()).unwrap();
    let reply = changelog_reply(&vec![stamped]);
    assert_eq!(reply.status, 200);
    let v: serde_json::Value = serde_json::from_str(&reply.body).unwrap();
    assert_eq!(v.as_array().unwrap().len(), 1);
    assert_eq!(v[0]["text"].as_str().unwrap(), "one");

    let unstamped = Entry::default();
    let reply = changelog_reply(&vec![unstamped]);
    assert_eq!(reply.status, 500);
    assert_eq!(reply.body, "");
}

#[test]
fn created_reply_decides_status() {
    let stamped = stamp_entry(create("made", &["a"]).into_candidate()).unwrap();
    let reply = created_reply(&stamped);
    assert_eq!(reply.status, 201);
    let v: serde_json::Value = serde_json::from_str(&reply.body).unwrap();
    assert_eq!(v["text"].as_str().unwrap(), "made");
    assert_eq!(v["tags"][0].as_str().unwrap(), "a");

    let reply = created_reply(&Entry::default());
    assert_eq!(reply.status, 500);
    assert_eq!(reply.body, "");
}
