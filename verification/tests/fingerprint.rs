use lamp_drpc::fingerprint::{composite_identity, format_key, hash_filename};

fn text(s: &str) -> Option<String> {
    Some(String::from(s))
}

fn cksum(data: &[u8]) -> u32 {
    crc::Crc::<u32>::new(&crc::CRC_32_CKSUM).checksum(data)
}

#[test]
fn identity_is_the_three_fields_on_end() {
    assert_eq!(composite_identity(&text("Queen"), &text("Jazz"), &text("1978")), "QueenJazz1978");
}

#[test]
fn absent_fields_are_marked_with_zero() {
    assert_eq!(composite_identity(&None, &None, &None), "000");
    assert_eq!(composite_identity(&text("Queen"), &None, &text("1978")), "Queen01978");
    assert_eq!(composite_identity(&None, &text("Jazz"), &None), "0Jazz0");
}

#[test]
fn key_is_two_numerals_a_hyphen_and_the_suffix() {
    assert_eq!(format_key(0, 4294967295, ".png"), "0-4294967295.png");
    assert_eq!(format_key(12, 3, ".jpg"), "12-3.jpg");
    assert_eq!(format_key(1, 23, ".jpg"), "1-23.jpg");
}

#[test]
fn key_of_the_check_text() {
    // The catalogue's check value of CRC-32/CKSUM for "123456789" is 0x765e7680.
    let key = hash_filename(
        &text("123"),
        &text("456"),
        text("789"),
        ".jpg",
        &b"123456789".to_vec(),
    );
    assert_eq!(key, "1985902208-1985902208.jpg");
}

#[test]
fn key_of_nothing_at_all() {
    let key = hash_filename(&None, &None, None, ".png", &Vec::new());
    assert_eq!(key, format!("{}-{}.png", cksum(b"000"), cksum(b"")));
    assert_eq!(cksum(b""), 4294967295);
}

#[test]
fn identity_is_hashed_as_utf8() {
    let key = hash_filename(&text("Björk"), &text("Homogenic"), text("1997"), ".jpg", &vec![1, 2, 3]);
    assert_eq!(
        key,
        format!("{}-{}.jpg", cksum("BjörkHomogenic1997".as_bytes()), cksum(&[1, 2, 3]))
    );
}

#[test]
fn same_inputs_give_the_same_key() {
    let image = vec![0xffu8, 0xd8, 0xff, 0xe0, 0, 16];
    let one = hash_filename(&text("A"), &text("B"), text("2001"), ".jpg", &image);
    let two = hash_filename(&text("A"), &text("B"), text("2001"), ".jpg", &image.clone());
    assert_eq!(one, two);
}

#[test]
fn each_input_changes_the_key() {
    let image = vec![0xffu8, 0xd8, 0xff, 0xe0, 0, 16];
    let other_image = vec![0xffu8, 0xd8, 0xff, 0xe0, 0, 17];
    let base = hash_filename(&text("A"), &text("B"), text("2001"), ".jpg", &image);
    assert_ne!(base, hash_filename(&text("X"), &text("B"), text("2001"), ".jpg", &image));
    assert_ne!(base, hash_filename(&text("A"), &text("X"), text("2001"), ".jpg", &image));
    assert_ne!(base, hash_filename(&text("A"), &text("B"), text("2002"), ".jpg", &image));
    assert_ne!(base, hash_filename(&text("A"), &text("B"), None, ".jpg", &image));
    assert_ne!(base, hash_filename(&text("A"), &text("B"), text("2001"), ".jpg", &other_image));
    assert_ne!(base, hash_filename(&text("A"), &text("B"), text("2001"), ".png", &image));
}

#[test]
fn other_image_under_the_same_album_shares_the_first_half() {
    let one = hash_filename(&text("A"), &text("B"), text("2001"), ".jpg", &vec![1]);
    let two = hash_filename(&text("A"), &text("B"), text("2001"), ".jpg", &vec![2]);
    assert_eq!(one.split('-').next(), two.split('-').next());
    assert_ne!(one, two);
}
