use lamp_drpc::cache::ArtCache;

fn entry(key: &str, url: &str) -> (String, String) {
    (key.to_string(), url.to_string())
}

fn sorted(mut entries: Vec<(String, String)>) -> Vec<(String, String)> {
    entries.sort();
    entries
}

#[test]
fn new_cache_is_empty() {
    let cache = ArtCache::new();
    assert_eq!(cache.len(), 0);
    assert_eq!(cache.lookup(&String::from("1-2.jpg")), None);
    assert!(cache.entries().is_empty());
}

#[test]
fn what_was_inserted_is_found() {
    let mut cache = ArtCache::new();
    cache.insert(String::from("1-2.jpg"), String::from("https://host/a.jpg"));
    assert_eq!(cache.lookup(&String::from("1-2.jpg")), Some(&String::from("https://host/a.jpg")));
    assert_eq!(cache.lookup(&String::from("1-2.png")), None);
    assert_eq!(cache.len(), 1);
}

#[test]
fn insert_replaces_the_older_address() {
    let mut cache = ArtCache::new();
    cache.insert(String::from("k"), String::from("old"));
    cache.insert(String::from("other"), String::from("x"));
    cache.insert(String::from("k"), String::from("new"));
    assert_eq!(cache.lookup(&String::from("k")), Some(&String::from("new")));
    assert_eq!(cache.lookup(&String::from("other")), Some(&String::from("x")));
    assert_eq!(cache.len(), 2);
}

#[test]
fn entries_hold_each_key_once() {
    let mut cache = ArtCache::new();
    cache.insert(String::from("a"), String::from("1"));
    cache.insert(String::from("b"), String::from("2"));
    cache.insert(String::from("a"), String::from("3"));
    assert_eq!(sorted(cache.entries()), vec![entry("a", "3"), entry("b", "2")]);
}

#[test]
fn of_two_entries_with_one_key_the_later_counts() {
    let cache = ArtCache::from_entries(vec![entry("a", "1"), entry("b", "2"), entry("a", "3")]);
    assert_eq!(cache.lookup(&String::from("a")), Some(&String::from("3")));
    assert_eq!(cache.len(), 2);
}

#[test]
fn empty_object_is_an_empty_cache() {
    assert_eq!(ArtCache::from_json("{}").unwrap().len(), 0);
    assert_eq!(ArtCache::from_json("{\n}").unwrap().len(), 0);
}

#[test]
fn object_of_strings_is_read() {
    let cache = ArtCache::from_json("{\"1-2.jpg\": \"https://host/a.jpg\", \"3-4.png\": \"u\"}")
        .unwrap();
    assert_eq!(cache.lookup(&String::from("1-2.jpg")), Some(&String::from("https://host/a.jpg")));
    assert_eq!(cache.lookup(&String::from("3-4.png")), Some(&String::from("u")));
    assert_eq!(cache.len(), 2);
}

#[test]
fn text_that_is_no_object_of_strings_is_refused() {
    assert!(ArtCache::from_json("").is_none());
    assert!(ArtCache::from_json("[]").is_none());
    assert!(ArtCache::from_json("{\"a\": 1}").is_none());
    assert!(ArtCache::from_json("{\"a\": \"b\"").is_none());
    assert!(ArtCache::from_json("null").is_none());
}

#[test]
fn cache_is_written_as_a_pretty_object() {
    let mut cache = ArtCache::new();
    assert_eq!(cache.to_json(), Some(String::from("{}")));
    cache.insert(String::from("b"), String::from("2"));
    cache.insert(String::from("a"), String::from("1"));
    assert_eq!(cache.to_json(), Some(String::from("{\n  \"a\": \"1\",\n  \"b\": \"2\"\n}")));
}

#[test]
fn written_text_does_not_depend_on_the_order_of_inserts() {
    let mut one = ArtCache::new();
    one.insert(String::from("a"), String::from("1"));
    one.insert(String::from("b"), String::from("2"));
    let mut two = ArtCache::new();
    two.insert(String::from("b"), String::from("0"));
    two.insert(String::from("a"), String::from("1"));
    two.insert(String::from("b"), String::from("2"));
    assert_eq!(one.to_json(), two.to_json());
}

#[test]
fn cache_survives_being_written_and_read() {
    let mut cache = ArtCache::new();
    cache.insert(String::from("1985902208-1985902208.jpg"), String::from("https://files.host/ab\"c.jpg"));
    cache.insert(String::from("ключ"), String::from("значение\n"));
    let text = cache.to_json().unwrap();
    let back = ArtCache::from_json(&text).unwrap();
    assert_eq!(
        back.lookup(&String::from("1985902208-1985902208.jpg")),
        Some(&String::from("https://files.host/ab\"c.jpg"))
    );
    assert_eq!(back.lookup(&String::from("ключ")), Some(&String::from("значение\n")));
    assert_eq!(sorted(back.entries()), sorted(cache.entries()));
}
