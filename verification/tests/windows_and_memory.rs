use bns_macros::activity::GameActivity;
use bns_macros::game::{client_window, creation_time_from_filetime, sort_by_creation_time, switch_step, SwitchStep, WindowSearch};
use bns_macros::input::{invite_command, text_key_events, KeyEvent};
use bns_macros::memory::{module_name_matches, ChainAccess, PointerChain};

#[test]
fn game_activity_keeps_the_title() {
    let activity = GameActivity::new("Blade & Soul");
    assert_eq!(activity.title(), "Blade & Soul");
}

#[test]
fn game_activity_compares_the_trimmed_window_text() {
    let activity = GameActivity::new("Blade & Soul");
    assert!(activity.is_active("Blade & Soul\0\0\0"));
    assert!(activity.is_active("Blade & Soul"));
    assert!(!activity.is_active("Calculator\0"));
    assert!(!activity.is_active("Blade & Soul 2"));
}

#[test]
fn window_search_keeps_each_match_once_in_order() {
    let mut search = WindowSearch::new("Blade & Soul");
    search.visit(7, "Blade & Soul\0\0");
    search.visit(3, "Calculator\0");
    search.visit(5, "Blade & Soul");
    search.visit(7, "Blade & Soul");
    assert_eq!(search.found(), vec![7, 5]);
}

#[test]
fn sort_windows_by_creation_time() {
    let windows = vec![(10, 300), (11, 100), (12, 200)];
    assert_eq!(sort_by_creation_time(&windows), vec![11, 12, 10]);
    // equal times keep their order
    let ties = vec![(1, 5), (2, 5), (3, 1)];
    assert_eq!(sort_by_creation_time(&ties), vec![3, 1, 2]);
    assert_eq!(sort_by_creation_time(&vec![]), Vec::<isize>::new());
}

#[test]
fn filetime_halves_join() {
    assert_eq!(creation_time_from_filetime(5, 0), 5);
    assert_eq!(creation_time_from_filetime(0, 1), 1 << 32);
    assert_eq!(creation_time_from_filetime(0xFFFF_FFFF, 0x01D8_0000), (0x01D8_0000i64 << 32) | 0xFFFF_FFFF);
}

#[test]
fn switching_windows() {
    assert!(matches!(switch_step(4, 4, 1, 2), SwitchStep::Done));
    assert!(matches!(switch_step(4, 5, 1, 2), SwitchStep::RaiseAttached));
    assert!(matches!(switch_step(4, 5, 2, 2), SwitchStep::Raise));
}

#[test]
fn module_names_compare_up_to_the_first_nul() {
    let mut raw = [0u8; 256];
    raw[..8].copy_from_slice(b"BNSR.exe");
    assert!(module_name_matches(&raw, "BNSR.exe"));
    assert!(!module_name_matches(&raw, "BNSR.ex"));
    assert!(!module_name_matches(&raw, "BNSR.exe2"));
    assert!(!module_name_matches(b"ntdll.dll\0", "BNSR.exe"));
    assert!(module_name_matches(b"", ""));
}

#[test]
fn pointer_chain_adds_each_offset() {
    let (mut chain, first) = PointerChain::start(0x1000, vec![0x30, 0x2C0, 0x98]);
    assert!(matches!(first, ChainAccess::ReadPointer(0x1000)));
    assert!(matches!(chain.step(0x5000), ChainAccess::ReadPointer(0x5030)));
    assert!(matches!(chain.step(0x6000), ChainAccess::ReadPointer(0x62C0)));
    assert_eq!(chain.pending_offset(), 0x98);
    assert!(matches!(chain.step(0x7000), ChainAccess::Value(0x7098)));
}

#[test]
fn pointer_chain_of_one_offset() {
    let (mut chain, first) = PointerChain::start(0x10, vec![0x8]);
    assert!(matches!(first, ChainAccess::ReadPointer(0x10)));
    assert!(matches!(chain.step(0x100), ChainAccess::Value(0x108)));
}

#[test]
fn text_becomes_press_and_release_per_unit() {
    let events = text_key_events("5", false);
    assert!(events == vec![
        KeyEvent { virtual_key: 0x35, scan_code: 0, key_up: false, unicode: false },
        KeyEvent { virtual_key: 0x35, scan_code: 0, key_up: true, unicode: false },
    ]);
    let events = text_key_events("ab", true);
    assert_eq!(events.len(), 4);
    assert!(events[0] == KeyEvent { virtual_key: 0, scan_code: 0x61, key_up: false, unicode: true });
    assert!(events[3] == KeyEvent { virtual_key: 0, scan_code: 0x62, key_up: true, unicode: true });
    assert!(text_key_events("", true).is_empty());
}

#[test]
fn invite_command_quotes_the_name() {
    assert_eq!(invite_command("Player One"), "/invite \"Player One\"");
    assert_eq!(invite_command(""), "/invite \"\"");
}

#[test]
fn client_windows_leave_out_the_first_client_when_asked() {
    let hwnds = vec![30, 10, 20];
    assert_eq!(client_window(&hwnds, 10, 0, true), Some(30));
    assert_eq!(client_window(&hwnds, 10, 1, true), Some(10));
    assert_eq!(client_window(&hwnds, 10, 2, true), Some(20));
    assert_eq!(client_window(&hwnds, 10, 3, true), None);
    assert_eq!(client_window(&hwnds, 10, 0, false), Some(30));
    assert_eq!(client_window(&hwnds, 10, 1, false), Some(20));
    assert_eq!(client_window(&hwnds, 10, 2, false), None);
    assert_eq!(client_window(&vec![], 10, 0, true), None);
}
