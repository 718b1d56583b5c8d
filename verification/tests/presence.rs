use lamp_drpc::artwork::UploadError;
use lamp_drpc::cache::ArtCache;
use lamp_drpc::metadata::AlbumArt;
use lamp_drpc::presence::{
    activity_window, art_step, link_after_probe, link_is_live, presence_assets, record_upload,
    upload_is_due, ArtStep,
};

fn art(filename: &str) -> Option<AlbumArt> {
    Some(AlbumArt { filename: filename.to_string(), data: vec![1, 2, 3] })
}

fn is_skip(step: ArtStep) -> bool {
    matches!(step, ArtStep::Skip)
}

fn is_upload(step: ArtStep) -> bool {
    matches!(step, ArtStep::Upload)
}

#[test]
fn track_without_art_needs_no_step() {
    assert!(is_skip(art_step(&ArtCache::new(), &None, true)));
    assert!(is_skip(art_step(&ArtCache::new(), &None, false)));
}

#[test]
fn without_account_nothing_is_uploaded() {
    let mut cache = ArtCache::new();
    cache.insert(String::from("1-2.jpg"), String::from("u"));
    assert!(is_skip(art_step(&cache, &art("1-2.jpg"), false)));
    assert!(is_skip(art_step(&cache, &art("3-4.jpg"), false)));
}

#[test]
fn art_that_is_not_cached_is_uploaded() {
    let mut cache = ArtCache::new();
    cache.insert(String::from("1-2.jpg"), String::from("u"));
    assert!(is_upload(art_step(&cache, &art("3-4.jpg"), true)));
    assert!(is_upload(art_step(&ArtCache::new(), &art("1-2.jpg"), true)));
}

#[test]
fn cached_address_is_probed() {
    let mut cache = ArtCache::new();
    cache.insert(String::from("1-2.jpg"), String::from("https://host/a.jpg"));
    match art_step(&cache, &art("1-2.jpg"), true) {
        ArtStep::Probe(url) => assert_eq!(url, "https://host/a.jpg"),
        _ => panic!("a cached address is to be probed"),
    }
}

#[test]
fn only_status_200_is_live() {
    assert!(link_is_live(Some(200)));
    assert!(!link_is_live(Some(404)));
    assert!(!link_is_live(Some(204)));
    assert!(!link_is_live(Some(301)));
    assert!(!link_is_live(Some(0)));
}

#[test]
fn failed_probe_counts_as_dead() {
    assert!(!link_is_live(None));
}

#[test]
fn live_address_is_used_and_dead_one_dropped() {
    assert_eq!(link_after_probe(String::from("u"), true), Some(String::from("u")));
    assert_eq!(link_after_probe(String::from("u"), false), None);
}

#[test]
fn upload_is_cached_under_the_key() {
    let mut cache = ArtCache::new();
    let link = record_upload(&mut cache, String::from("1-2.jpg"), Ok(String::from("https://host/a")));
    assert_eq!(link, Some(String::from("https://host/a")));
    assert_eq!(cache.lookup(&String::from("1-2.jpg")), Some(&String::from("https://host/a")));
    assert_eq!(cache.len(), 1);
}

#[test]
fn new_upload_replaces_a_dead_address() {
    let mut cache = ArtCache::new();
    cache.insert(String::from("1-2.jpg"), String::from("dead"));
    record_upload(&mut cache, String::from("1-2.jpg"), Ok(String::from("fresh")));
    assert_eq!(cache.lookup(&String::from("1-2.jpg")), Some(&String::from("fresh")));
    assert_eq!(cache.len(), 1);
}

#[test]
fn failed_upload_leaves_the_cache_alone() {
    let mut cache = ArtCache::new();
    cache.insert(String::from("1-2.jpg"), String::from("dead"));
    for failure in [
        UploadError::HostRejected,
        UploadError::UnsupportedFormat,
        UploadError::ProcessingFailed,
    ] {
        assert_eq!(record_upload(&mut cache, String::from("1-2.jpg"), Err(failure)), None);
        assert_eq!(record_upload(&mut cache, String::from("3-4.jpg"), Err(failure)), None);
    }
    assert_eq!(cache.lookup(&String::from("1-2.jpg")), Some(&String::from("dead")));
    assert_eq!(cache.len(), 1);
}

#[test]
fn art_address_is_the_large_image() {
    let assets = presence_assets(Some(String::from("Jazz")), Some(String::from("https://host/a")));
    assert_eq!(assets.large_image, "https://host/a");
    assert_eq!(assets.large_text, Some(String::from("Jazz")));
}

#[test]
fn track_without_address_shows_the_fallback_image() {
    let assets = presence_assets(Some(String::from("Jazz")), None);
    assert_eq!(assets.large_image, "no_album_art");
    assert_eq!(assets.large_text, Some(String::from("Jazz")));
    let bare = presence_assets(None, None);
    assert_eq!(bare.large_image, "no_album_art");
    assert_eq!(bare.large_text, None);
}

#[test]
fn track_without_album_has_no_caption() {
    let assets = presence_assets(None, Some(String::from("https://host/a")));
    assert_eq!(assets.large_image, "https://host/a");
    assert_eq!(assets.large_text, None);
}

#[test]
fn track_ends_after_its_duration() {
    assert_eq!(activity_window(1_700_000_000, Some(181)), (Some(1_700_000_000), Some(1_700_000_181)));
    assert_eq!(activity_window(5, Some(0)), (Some(5), Some(5)));
    assert_eq!(activity_window(0, Some(u64::MAX)), (Some(0), Some(u64::MAX)));
}

#[test]
fn track_of_unknown_duration_has_no_end() {
    assert_eq!(activity_window(1_700_000_000, None), (Some(1_700_000_000), None));
}

#[test]
fn end_beyond_the_range_is_left_out() {
    assert_eq!(activity_window(u64::MAX, Some(1)), (Some(u64::MAX), None));
    assert_eq!(activity_window(1, Some(u64::MAX)), (Some(1), None));
}

#[test]
fn missing_and_dead_art_is_uploaded() {
    assert!(upload_is_due(&ArtStep::Upload, &None));
    assert!(upload_is_due(&ArtStep::Probe(String::from("dead")), &None));
}

#[test]
fn live_art_and_no_art_are_not_uploaded() {
    assert!(!upload_is_due(&ArtStep::Probe(String::from("u")), &Some(String::from("u"))));
    assert!(!upload_is_due(&ArtStep::Skip, &None));
    assert!(!upload_is_due(&ArtStep::Skip, &Some(String::from("u"))));
    assert!(!upload_is_due(&ArtStep::Upload, &Some(String::from("u"))));
}
