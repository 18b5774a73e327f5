use term_player::media::{get_system_backslash, is_video};

#[test]
fn video_extensions_are_recognised() {
    for e in ["mp4", "m4v", "mkv", "webm", "mov", "avi", "wmv", "mpg", "flw"] {
        assert!(is_video(e), "{}", e);
    }
}

#[test]
fn other_extensions_are_not_videos() {
    for e in ["gif", "mp3", "", "MP4", "mp", "mp44", "webmm"] {
        assert!(!is_video(e), "{}", e);
    }
}

#[test]
fn separator_is_one_slash() {
    let s = get_system_backslash();
    assert!(s == "/" || s == "\\");
    assert_eq!(s, std::path::MAIN_SEPARATOR.to_string());
}
