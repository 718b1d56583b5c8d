use lamp_drpc::text::{chars_of, extension_of, join_values, strip_prefix, text_is};

fn owned(parts: &[&str]) -> Vec<String> {
    parts.iter().map(|p| p.to_string()).collect()
}

#[test]
fn values_are_joined_in_order() {
    assert_eq!(join_values(&owned(&["A", "B", "C"])), "A, B, C");
}

#[test]
fn one_value_is_joined_to_itself() {
    assert_eq!(join_values(&owned(&["Queen"])), "Queen");
}

#[test]
fn no_values_are_joined_to_nothing() {
    assert_eq!(join_values(&owned(&[])), "");
}

#[test]
fn empty_values_keep_their_place() {
    assert_eq!(join_values(&owned(&["", "B", ""])), ", B, ");
}

#[test]
fn extension_follows_the_last_full_stop() {
    assert_eq!(extension_of("/music/a.b/track.01.flac"), Some(String::from("flac")));
    assert_eq!(extension_of("song.mp3"), Some(String::from("mp3")));
    assert_eq!(extension_of(".hidden"), Some(String::from("hidden")));
}

#[test]
fn extension_may_be_empty() {
    assert_eq!(extension_of("trailing."), Some(String::new()));
}

#[test]
fn name_without_full_stop_has_no_extension() {
    assert_eq!(extension_of("README"), None);
    assert_eq!(extension_of(""), None);
}

#[test]
fn extension_counts_characters_not_bytes() {
    assert_eq!(extension_of("Bjørk – Jóga.flac"), Some(String::from("flac")));
    assert_eq!(extension_of("track.ﬂäc"), Some(String::from("ﬂäc")));
}

#[test]
fn prefix_is_taken_off() {
    assert_eq!(strip_prefix("file /a/b.flac", "file "), Some(String::from("/a/b.flac")));
    assert_eq!(strip_prefix("duration 215", "duration "), Some(String::from("215")));
    assert_eq!(strip_prefix("file ", "file "), Some(String::new()));
    assert_eq!(strip_prefix("anything", ""), Some(String::from("anything")));
}

#[test]
fn text_without_the_prefix_is_refused() {
    assert_eq!(strip_prefix("tag artist X", "file "), None);
    assert_eq!(strip_prefix("fil", "file "), None);
    assert_eq!(strip_prefix("", "file "), None);
    assert_eq!(strip_prefix("File x", "file "), None);
}

#[test]
fn prefix_counts_characters_not_bytes() {
    assert_eq!(strip_prefix("é=ü", "é="), Some(String::from("ü")));
}

#[test]
fn texts_are_compared_whole() {
    assert!(text_is(&String::from("flac"), "flac"));
    assert!(!text_is(&String::from("flac"), "FLAC"));
    assert!(!text_is(&String::from("flac"), "fla"));
    assert!(text_is(&String::new(), ""));
}

#[test]
fn characters_come_out_one_by_one() {
    assert_eq!(chars_of("aé\n"), vec!['a', 'é', '\n']);
    assert_eq!(chars_of(""), Vec::<char>::new());
}
