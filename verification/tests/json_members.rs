use subscription::json::{find_member, insert_member, remove_member, Json};

fn obj(entries: Vec<(&str, Json)>) -> Vec<(String, Json)> {
    entries.into_iter().map(|(k, v)| (k.to_string(), v)).collect()
}

#[test]
fn insert_replaces_in_place_and_appends_new_keys() {
    let mut m = obj(vec![("a", Json::Bool(true)), ("b", Json::Null)]);
    let previous = insert_member(&mut m, "a".to_string(), Json::Bool(false));
    assert!(matches!(previous, Some(Json::Bool(true))));
    assert_eq!(m[0].0, "a");
    assert!(matches!(m[0].1, Json::Bool(false)));
    let previous = insert_member(&mut m, "c".to_string(), Json::Str("x".to_string()));
    assert!(previous.is_none());
    assert_eq!(m.len(), 3);
    assert_eq!(m[2].0, "c");
    assert_eq!(find_member(&m, "b"), Some(1));
    assert_eq!(find_member(&m, "z"), None);
    let removed = remove_member(&mut m, "b");
    assert!(matches!(removed, Some(Json::Null)));
    assert_eq!(m.len(), 2);
    assert_eq!(find_member(&m, "c"), Some(1));
}
