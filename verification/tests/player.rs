use lamp_drpc::player::{read_status, Cmus, PlayerError};

const PLAYING: &str = "status playing\nfile /music/Queen/Jazz/04 Bicycle Race.flac\nduration 181\nposition 12\ntag artist Queen\nset volume 100\n";

#[test]
fn playing_report_names_file_and_duration() {
    assert_eq!(
        read_status(PLAYING),
        Ok((Some(String::from("/music/Queen/Jazz/04 Bicycle Race.flac")), Some(181)))
    );
}

#[test]
fn paused_and_stopped_are_known_statuses() {
    assert_eq!(
        read_status("status paused\nfile /a.mp3\nduration 5\n"),
        Ok((Some(String::from("/a.mp3")), Some(5)))
    );
    assert_eq!(
        read_status("status stopped\nfile /a.mp3\nduration 5"),
        Ok((Some(String::from("/a.mp3")), Some(5)))
    );
}

#[test]
fn report_without_file_names_nothing() {
    assert_eq!(read_status("status stopped\nset aaa_mode all\nset continue true\n"), Ok((None, None)));
}

#[test]
fn report_of_one_line_names_nothing() {
    assert_eq!(read_status("status stopped"), Ok((None, None)));
    assert_eq!(read_status("status stopped\n"), Ok((None, None)));
}

#[test]
fn unknown_status_means_the_player_is_gone() {
    assert_eq!(read_status(""), Err(PlayerError::Exited));
    assert_eq!(read_status("cmus-remote: cmus is not running\n"), Err(PlayerError::Exited));
    assert_eq!(read_status("status playing \nfile /a.mp3\n"), Err(PlayerError::Exited));
    assert_eq!(read_status("\nstatus playing\n"), Err(PlayerError::Exited));
}

#[test]
fn file_without_readable_duration_has_none() {
    assert_eq!(read_status("status playing\nfile /a.mp3"), Ok((Some(String::from("/a.mp3")), None)));
    assert_eq!(
        read_status("status playing\nfile /a.mp3\n"),
        Ok((Some(String::from("/a.mp3")), None))
    );
    assert_eq!(
        read_status("status playing\nfile /a.mp3\nposition 3\n"),
        Ok((Some(String::from("/a.mp3")), None))
    );
    assert_eq!(
        read_status("status playing\nfile /a.mp3\nduration -1\n"),
        Ok((Some(String::from("/a.mp3")), None))
    );
    assert_eq!(
        read_status("status playing\nfile /a.mp3\nduration \n"),
        Ok((Some(String::from("/a.mp3")), None))
    );
}

#[test]
fn file_name_may_be_empty_or_hold_anything_but_a_line_feed() {
    assert_eq!(read_status("status playing\nfile \nduration 1"), Ok((Some(String::new()), Some(1))));
    assert_eq!(
        read_status("status playing\nfile /m/Sigur Rós/Ágætis byrjun.flac\nduration 600\n"),
        Ok((Some(String::from("/m/Sigur Rós/Ágætis byrjun.flac")), Some(600)))
    );
}

#[test]
fn new_player_has_reported_nothing() {
    let cmus = Cmus::default();
    assert_eq!(cmus.cmus_remote_output, Some(String::new()));
    assert_eq!(cmus.get_duration(), None);
}

#[test]
fn player_keeps_report_and_duration() {
    let mut cmus = Cmus::default();
    let path = cmus.get_active_file_path(Some(String::from(PLAYING)));
    assert_eq!(path, Ok(Some(String::from("/music/Queen/Jazz/04 Bicycle Race.flac"))));
    assert_eq!(cmus.get_duration(), Some(181));
    assert_eq!(cmus.cmus_remote_output, Some(String::from(PLAYING)));
}

#[test]
fn report_without_file_clears_the_duration() {
    let mut cmus = Cmus::default();
    cmus.get_active_file_path(Some(String::from(PLAYING))).unwrap();
    assert_eq!(cmus.get_active_file_path(Some(String::from("status stopped\n"))), Ok(None));
    assert_eq!(cmus.get_duration(), None);
}

#[test]
fn missing_report_changes_nothing_but_the_report() {
    let mut cmus = Cmus::default();
    cmus.get_active_file_path(Some(String::from(PLAYING))).unwrap();
    assert_eq!(cmus.get_active_file_path(None), Ok(None));
    assert_eq!(cmus.get_duration(), Some(181));
    assert_eq!(cmus.cmus_remote_output, None);
}

#[test]
fn report_of_a_player_that_is_gone_keeps_the_duration() {
    let mut cmus = Cmus::default();
    cmus.get_active_file_path(Some(String::from(PLAYING))).unwrap();
    assert_eq!(cmus.get_active_file_path(Some(String::from("gone"))), Err(PlayerError::Exited));
    assert_eq!(cmus.get_duration(), Some(181));
    assert_eq!(cmus.cmus_remote_output, Some(String::from("gone")));
}

#[test]
fn output_of_the_command_is_taken_as_utf8() {
    assert_eq!(
        Cmus::update_cmus_remote_output("status playing\nfile /é.flac\n".as_bytes().to_vec()),
        Some(String::from("status playing\nfile /é.flac\n"))
    );
    assert_eq!(Cmus::update_cmus_remote_output(Vec::new()), Some(String::new()));
}

#[test]
fn output_that_is_not_utf8_is_no_report() {
    assert_eq!(Cmus::update_cmus_remote_output(vec![b'a', 0xff, b'b']), None);
    assert_eq!(Cmus::update_cmus_remote_output(vec![0xc3]), None);
}

#[test]
fn player_that_is_gone_is_said_to_have_exited() {
    assert_eq!(PlayerError::Exited.message(), "cmus has exited.");
}
