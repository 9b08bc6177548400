use clam::state::{join, state_dir, state_file_exists, state_file_path, SavedState};
use clam::text::{
    encode_utf16, menu_status, notice_body, notice_title, push_decimal, reg_sz_bytes, to_wide_nul,
    tray_tip, wide, Notice,
};

#[test]
fn state_file_lives_under_local_app_data() {
    assert_eq!(
        state_file_path(Some("C:\\Users\\ana\\AppData\\Local"), Some("C:\\Users\\ana")),
        "C:\\Users\\ana\\AppData\\Local\\Clam\\saved_state.json"
    );
    assert_eq!(state_dir(Some("C:\\Users\\ana\\AppData\\Local"), None), "C:\\Users\\ana\\AppData\\Local\\Clam");
}

#[test]
fn state_file_falls_back_to_the_profile() {
    assert_eq!(
        state_file_path(None, Some("C:\\Users\\bo")),
        "C:\\Users\\bo\\AppData\\Local\\Clam\\saved_state.json"
    );
    assert_eq!(state_file_path(None, None), "\\AppData\\Local\\Clam\\saved_state.json");
}

#[test]
fn join_follows_windows_rules() {
    assert_eq!(join(String::from("D:\\data\\"), "Clam"), "D:\\data\\Clam");
    assert_eq!(join(String::from("D:/data/"), "Clam"), "D:/data/Clam");
    assert_eq!(join(String::from(""), "Clam"), "Clam");
    assert_eq!(join(String::from("C:"), "Clam"), "C:Clam");
    assert_eq!(join(String::from("C:\\"), "Clam"), "C:\\Clam");
    assert_eq!(join(String::from("1:"), "Clam"), "1:\\Clam");
    assert_eq!(state_dir(Some(""), None), "Clam");
}

#[test]
fn verbatim_paths_are_rebuilt_from_components() {
    assert_eq!(state_dir(Some("\\\\?\\C:\\a\\\\b"), None), "\\\\?\\C:\\a\\b\\Clam");
    assert_eq!(
        state_file_path(Some("\\\\?\\C:\\a\\\\b"), None),
        "\\\\?\\C:\\a\\b\\Clam\\saved_state.json"
    );
    assert_eq!(state_dir(Some("\\\\?\\C:\\a\\"), None), "\\\\?\\C:\\a\\Clam");
    assert_eq!(state_dir(Some("\\\\?\\C:\\a/"), None), "\\\\?\\C:\\a/\\Clam");
    assert_eq!(state_dir(Some("\\\\?\\C:"), None), "\\\\?\\C:\\Clam");
    assert_eq!(state_dir(Some("\\\\?\\C:\\.\\a"), None), "\\\\?\\C:\\.\\a\\Clam");
    assert_eq!(
        state_dir(Some("\\\\?\\UNC\\srv\\share\\\\x"), None),
        "\\\\?\\UNC\\srv\\share\\x\\Clam"
    );
    assert_eq!(state_dir(Some("\\\\?\\UNC\\\\share"), None), "\\\\?\\UNC\\\\share\\Clam");
    assert_eq!(state_dir(Some("\\\\?\\UNC\\srv\\\\x"), None), "\\\\?\\UNC\\srv\\x\\Clam");
}

#[test]
fn missing_state_file_is_reported_missing() {
    assert!(!state_file_exists(Some("no-such-folder-for-clam-tests"), None));
}

#[test]
fn saved_state_is_plain_data() {
    let s = SavedState { lid_close_ac: 1, lid_close_dc: 2, sleep_idle_ac: 3, sleep_idle_dc: 4 };
    let t = s;
    assert_eq!(s, t);
}

#[test]
fn decimal_numbers() {
    let mut s = String::from("n=");
    push_decimal(&mut s, 0);
    assert_eq!(s, "n=0");
    let mut s = String::new();
    push_decimal(&mut s, 1234);
    assert_eq!(s, "1234");
    let mut s = String::new();
    push_decimal(&mut s, u32::MAX);
    assert_eq!(s, "4294967295");
    let mut s = String::new();
    push_decimal(&mut s, 10);
    assert_eq!(s, "10");
}

#[test]
fn notice_texts() {
    assert_eq!(notice_title(&Notice::StayAwakeOn), "Clam");
    assert_eq!(notice_body(&Notice::StayAwakeOn), "Stay-awake ON \u{2014} staying awake with lid shut");
    assert_eq!(notice_body(&Notice::OffRestored), "Stay-awake OFF \u{2014} normal sleep restored");
    assert_eq!(
        notice_body(&Notice::OffDefaults),
        "Stay-awake OFF \u{2014} reset to defaults (state file missing)"
    );
    assert_eq!(notice_body(&Notice::ResetDone), "Reset to normal defaults");
    assert_eq!(notice_title(&Notice::ResetDone), "Clam");
    assert_eq!(notice_title(&Notice::ReadFailed(2)), "Clam Error");
    assert_eq!(notice_body(&Notice::ReadFailed(2)), "Read failed (2)");
    assert_eq!(notice_body(&Notice::WriteFailed(1168)), "Write failed (1168)");
    assert_eq!(notice_body(&Notice::RestoreFailed(0)), "Restore failed (0)");
    assert_eq!(notice_body(&Notice::ResetFailed(4294967295)), "Reset failed (4294967295)");
    assert_eq!(notice_body(&Notice::AccessDenied), "Access denied. Try running as administrator.");
    assert_eq!(notice_title(&Notice::AccessDenied), "Clam Error");
    assert_eq!(notice_body(&Notice::SaveFailed(String::from("write: disk full"))), "write: disk full");
    assert_eq!(notice_title(&Notice::SaveFailed(String::new())), "Clam Error");
}

#[test]
fn tooltips_and_menu_status() {
    assert_eq!(tray_tip(true), "Clam: ON \u{2014} staying awake with lid shut");
    assert_eq!(tray_tip(false), "Clam: OFF \u{2014} normal sleep");
    assert_eq!(menu_status(true), "Status: STAY-AWAKE (active)");
    assert_eq!(menu_status(false), "Status: Normal (inactive)");
}

#[test]
fn utf16_matches_std() {
    for s in ["", "Clam", "Clam: ON \u{2014} x", "caf\u{e9}", "\u{1F600}a\u{10FFFF}", "\u{FFFF}\u{10000}"] {
        let std_units: Vec<u16> = s.encode_utf16().collect();
        assert_eq!(encode_utf16(s), std_units);
        let mut with_nul = std_units.clone();
        with_nul.push(0);
        assert_eq!(to_wide_nul(s), with_nul);
    }
    assert_eq!(encode_utf16("\u{1F600}"), vec![0xD83D, 0xDE00]);
}

#[test]
fn wide_truncates_and_terminates() {
    let mut buf = [7u16; 5];
    wide(&mut buf, "abcdefg");
    assert_eq!(buf, [97, 98, 99, 100, 0]);
    let mut buf = [7u16; 5];
    wide(&mut buf, "ab");
    assert_eq!(buf, [97, 98, 7, 7, 0]);
    let mut buf = [7u16; 1];
    wide(&mut buf, "ab");
    assert_eq!(buf, [0]);
    let mut buf = [7u16; 3];
    wide(&mut buf, "a\u{1F600}");
    assert_eq!(buf, [97, 0xD83D, 0]);
}

#[test]
fn registry_string_is_utf16_le_with_nul() {
    assert_eq!(reg_sz_bytes("C:\\a"), vec![0x43, 0, 0x3A, 0, 0x5C, 0, 0x61, 0, 0, 0]);
    assert_eq!(reg_sz_bytes(""), vec![0, 0]);
    assert_eq!(reg_sz_bytes("\u{2014}"), vec![0x14, 0x20, 0, 0]);
}
