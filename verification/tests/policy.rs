use lamp_drpc::policy::normalize;

fn text(s: &str) -> Option<String> {
    Some(String::from(s))
}

#[test]
fn placeholder_album_of_a_compilation_is_cleared() {
    assert_eq!(normalize(&text("Various Artists"), text("Various Artists"), true), None);
}

#[test]
fn placeholder_album_stays_when_the_policy_is_off() {
    assert_eq!(
        normalize(&text("Various Artists"), text("Various Artists"), false),
        text("Various Artists")
    );
}

#[test]
fn placeholder_album_of_a_named_artist_stays() {
    assert_eq!(
        normalize(&text("Pink Floyd"), text("Various Artists"), true),
        text("Various Artists")
    );
}

#[test]
fn album_without_album_artist_stays() {
    assert_eq!(normalize(&None, text("Various Artists"), true), text("Various Artists"));
    assert_eq!(normalize(&None, None, true), None);
}

#[test]
fn placeholder_is_matched_by_case() {
    assert_eq!(
        normalize(&text("various artists"), text("Various Artists"), true),
        text("Various Artists")
    );
}
