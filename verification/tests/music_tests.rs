use recast_core::error::AppError;
use recast_core::music::music_file_name;

#[test]
fn a_track_id_becomes_a_safe_file_name() {
    assert_eq!(music_file_name("jamendo:123/abc").unwrap(), "jamendo_123_abc.mp3");
    assert_eq!(music_file_name("é").unwrap(), "_.mp3");
    match music_file_name("") {
        Err(AppError::Message(m)) => assert_eq!(m, "empty music id"),
        _ => panic!("an empty id is refused"),
    }
}
