use tars::tui::Sgr;

#[test]
fn sgr_escapes_write_their_codes() {
    assert_eq!(Sgr::Reset.esc(), "\x1b[0m");
    assert_eq!(Sgr::Red.esc(), "\x1b[31m");
    assert_eq!(Sgr::BrightCyan.esc(), "\x1b[96m");
    assert_eq!(Sgr::BgYellow.esc(), "\x1b[43m");
    assert_eq!(Sgr::BgBrightWhite.esc(), "\x1b[107m");
    assert_eq!(Sgr::Reverse.esc(), "\x1b[7m");
    assert_eq!(Sgr::Strikethrough.esc(), "\x1b[9m");
}
