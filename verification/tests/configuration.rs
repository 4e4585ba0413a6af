use bns_macros::settings::{aerodrome_exp_defaults, color_listed, parse_hex_list, parse_point, poharan_defaults, Configuration};
use ini::Ini;

fn config(text: &str) -> Configuration {
    Configuration { ini: Ini::load_from_str(text).unwrap() }
}

#[test]
fn hex_lists_of_hotkeys_and_offsets() {
    assert_eq!(parse_hex_list("0xA0,0x73", 0xFFFF), Some(vec![0xA0, 0x73]));
    assert_eq!(parse_hex_list("0x30,0x2C0,0x98", u64::MAX), Some(vec![0x30, 0x2C0, 0x98]));
    assert_eq!(parse_hex_list("91", 0xFFFF), Some(vec![0x91]));
    assert_eq!(parse_hex_list("", 0xFFFF), None);
    assert_eq!(parse_hex_list("0xA0,", 0xFFFF), None);
    assert_eq!(parse_hex_list("0x10000", 0xFFFF), None);
    assert_eq!(parse_hex_list("0xA0, 0x73", 0xFFFF), None);
}

#[test]
fn points_need_two_numbers() {
    assert_eq!(parse_point("1250,700"), Some((1250, 700)));
    assert_eq!(parse_point("-5,0"), Some((-5, 0)));
    assert_eq!(parse_point("1,2,3"), Some((1, 2)));
    assert_eq!(parse_point("1"), None);
    assert_eq!(parse_point("1,x"), None);
    assert_eq!(parse_point(""), None);
}

#[test]
fn colors_are_listed_as_rgb_hex() {
    // pixel 0x00332211 reads as 0x112233
    assert!(color_listed("0x112233", 0x0033_2211));
    assert!(color_listed("0xFFFFFF,0x112233", 0x0033_2211));
    assert!(!color_listed("0x332211", 0x0033_2211));
    assert!(!color_listed("0x112233 ", 0x0033_2211));
    assert!(!color_listed("", 0));
}

#[test]
fn configuration_lookups() {
    let c = config(
        "[Configuration]\nClients=One,Two\nCameraFullTurnPixels=3200\n\
         [Hotkeys]\nToggleAutoCombat=0xA0,0x73\nBroken=0xZZ\n\
         [Pointers]\nBaseAddress=0x07536B40\nOffsetsPlayerX=0x30,0x2C0,0x130,0x1F0\n\
         [UserInterfaceLobby]\nPositionReady=1700,980\nPositionInF8Lobby=10,20;30,40\nInF8Lobby=0x112233,0xABCDEF\n",
    );
    assert_eq!(c.value("Configuration", "Clients"), Some(String::from("One,Two")));
    assert_eq!(c.value("Configuration", "Missing"), None);
    assert_eq!(c.value("Nowhere", "Clients"), None);
    assert_eq!(c.clients(), Some(vec![String::from("One"), String::from("Two")]));
    assert_eq!(c.number("Configuration", "CameraFullTurnPixels"), Some(3200));
    assert_eq!(c.hotkey("ToggleAutoCombat"), Some(vec![0xA0, 0x73]));
    assert_eq!(c.hotkey("Broken"), None);
    assert_eq!(c.hotkey("Missing"), None);
    assert_eq!(c.address("BaseAddress"), Some(0x07536B40));
    assert_eq!(c.offsets("OffsetsPlayerX"), Some(vec![0x30, 0x2C0, 0x130, 0x1F0]));
    assert_eq!(c.point("UserInterfaceLobby", "PositionReady"), Some((1700, 980)));
    let check = c.screen_check("UserInterfaceLobby", "PositionInF8Lobby", "InF8Lobby").unwrap();
    assert_eq!(check.len(), 2);
    assert_eq!(check.position(0), Some((10, 20)));
    assert_eq!(check.position(1), Some((30, 40)));
    assert!(check.accepts(0x00EF_CDAB));
    assert!(!check.accepts(0));
    assert!(c.screen_check("UserInterfaceLobby", "PositionInF8Lobby", "Missing").is_none());
}

#[test]
fn poharan_defaults_are_written() {
    let c = poharan_defaults();
    assert_eq!(c.value("Configuration", "FarmStage"), Some(String::from("5")));
    assert_eq!(c.value("Configuration", "AnimationSpeedHackValue"), Some(String::from("10")));
    assert_eq!(c.value("Configuration", "LogFile"), Some(String::from("poharan_multibox.log")));
    assert_eq!(c.offsets("OffsetsAnimationSpeed"), Some(vec![0x30, 0x2C0, 0x98]));
    assert_eq!(c.value("Pointers", "OffsetsCameraYaw"), Some(String::new()));
    assert_eq!(c.hotkey("ToggleAutoCombat"), Some(vec![0xA0, 0x73]));
    assert_eq!(c.hotkey("CheatEngineSpeedHackOn"), Some(vec![0x91]));
}

#[test]
fn aerodrome_exp_defaults_are_written() {
    let c = aerodrome_exp_defaults();
    assert_eq!(c.value("Configuration", "LogFile"), Some(String::from("aerodrome_exp.log")));
    assert_eq!(c.value("Configuration", "AnimationSpeedHackValue"), Some(String::from("5.5")));
    assert_eq!(c.hotkey("UseSoup"), Some(vec![0x35]));
    assert!(c.value("Nowhere", "LogFile").is_none());
}

#[test]
fn screen_check_points_and_pixels() {
    let c = config("[UserInterfaceGeneral]\nPositionOutOfLoadingScreen=811,794;75,1048\nOutOfLoadingScreen=0xED5E11,0x000001\nPositionBad=1,2;x\nBad=0x000000\n");
    let check = c.screen_check("UserInterfaceGeneral", "PositionOutOfLoadingScreen", "OutOfLoadingScreen").unwrap();
    assert_eq!(check.points(), Some(vec![(811, 794), (75, 1048)]));
    // 0x000001 is blue 1: COLORREF 0x00010000
    assert!(check.holds(&vec![0, 0x0001_0000]));
    assert!(check.holds(&vec![0x0011_5EED, 0]));
    assert!(!check.holds(&vec![0, 0]));
    assert!(!check.holds(&vec![]));
    let bad = c.screen_check("UserInterfaceGeneral", "PositionBad", "Bad").unwrap();
    assert_eq!(bad.points(), None);
}

#[test]
fn default_sections_keep_their_order() {
    let c = poharan_defaults();
    let names: Vec<Option<&str>> = c.ini.sections().collect();
    assert_eq!(
        names,
        vec![
            Some("Configuration"),
            Some("Pointers"),
            Some("Hotkeys"),
            Some("UserInterfaceLobby"),
            Some("UserInterfaceGeneral"),
            Some("UserInterfaceDungeon"),
            Some("UserInterfacePlayer"),
        ]
    );
    let e = aerodrome_exp_defaults();
    let names: Vec<Option<&str>> = e.ini.sections().collect();
    assert_eq!(
        names,
        vec![
            Some("Configuration"),
            Some("Pointers"),
            Some("Hotkeys"),
            Some("UserInterfaceLobby"),
            Some("UserInterfaceGeneral"),
            Some("UserInterfacePlayer"),
        ]
    );
}

#[test]
fn the_barrier_is_activated_only_when_configured_true() {
    assert!(config("[Configuration]\nActivateGate=true\n").activate_barrier());
    assert!(!config("[Configuration]\nActivateGate=false\n").activate_barrier());
    assert!(!config("[Configuration]\nActivateGate=True\n").activate_barrier());
    assert!(!config("[Configuration]\nLogFile=x\n").activate_barrier());
    assert!(!config("[Other]\nActivateGate=true\n").activate_barrier());
}
