use bns_macros::classes::assassin::{AssassinRotation, AssassinScreen};
use bns_macros::classes::destroyer::{iframe_plan, DestroyerRotation, DestroyerScreen, IframePlan, IframeSkill, IframeSpam};
use bns_macros::classes::destroyer_third::{DestroyerThirdRotation, DestroyerThirdScreen};
use bns_macros::classes::earth::{EarthRotation, EarthScreen, EarthVariant};
use bns_macros::classes::simple::{BasicRotation, BasicScreen};
use bns_macros::classes::warlock::{WarlockRotation, WarlockScreen};
use bns_macros::classes::{class_active, detect_class, ClassKind, ClassScreen, Command};
use bns_macros::color::CLR_INVALID;
use bns_macros::keys::{VK_0, VK_1, VK_3, VK_4, VK_C, VK_E, VK_F23, VK_G, VK_Q, VK_R, VK_T, VK_X, VK_Z};

const SOUL: u32 = 0x00FA_000A;

fn run<S: Copy, F: FnMut(usize) -> S, G: FnMut(&S) -> Command>(mut screen: F, mut step: G) -> Vec<Command> {
    let mut out = vec![];
    for i in 0..500 {
        let s = screen(i);
        let c = step(&s);
        if c == Command::Done {
            return out;
        }
        out.push(c);
    }
    panic!("rotation did not finish");
}

#[test]
fn class_names() {
    assert_eq!(ClassKind::Assassin.name(), "Phantom Assassin");
    assert_eq!(ClassKind::BladeMaster.name(), "Fire Blade Master");
    assert_eq!(ClassKind::Default.name(), "Default");
    assert_eq!(ClassKind::Destroyer.name(), "Earth Destroyer");
    assert_eq!(ClassKind::DestroyerThird.name(), "Third Spec Destroyer");
    assert_eq!(ClassKind::Warlock.name(), "Scourge Warlock");
}

#[test]
fn class_detection_takes_the_first_shown() {
    let nothing = ClassScreen { blade_master: 0, assassin: 0, destroyer: 0, warlock: 0 };
    let candidates = vec![ClassKind::BladeMaster, ClassKind::Destroyer];
    assert_eq!(detect_class(&candidates, &nothing, ClassKind::Destroyer), ClassKind::Destroyer);
    let bm = ClassScreen { blade_master: 14591851, ..nothing };
    assert_eq!(detect_class(&candidates, &bm, ClassKind::Destroyer), ClassKind::BladeMaster);
    let third = ClassScreen { destroyer: 10787442, ..nothing };
    assert!(class_active(ClassKind::DestroyerThird, &third));
    assert!(!class_active(ClassKind::Destroyer, &third));
    assert!(class_active(ClassKind::Default, &nothing));
    let all = vec![ClassKind::Assassin, ClassKind::Warlock, ClassKind::Default];
    let wl = ClassScreen { warlock: 1581715, ..nothing };
    assert_eq!(detect_class(&all, &wl, ClassKind::Destroyer), ClassKind::Warlock);
    assert_eq!(detect_class(&all, &nothing, ClassKind::Destroyer), ClassKind::Default);
    assert_eq!(detect_class(&vec![], &bm, ClassKind::Warlock), ClassKind::Warlock);
}

#[test]
fn basic_rotation_uses_the_talisman_with_the_soul() {
    let mut r = BasicRotation::start(true);
    let cmds = run(|_| BasicScreen { soul: SOUL }, |s| r.rotation(s));
    assert_eq!(cmds, vec![Command::Press(VK_R), Command::Press(VK_T), Command::Sleep(2)]);
    let mut r = BasicRotation::start(false);
    let cmds = run(|_| BasicScreen { soul: SOUL }, |s| r.rotation(s));
    assert_eq!(cmds, vec![Command::Press(VK_T), Command::Sleep(2)]);
    let mut r = BasicRotation::start(true);
    let cmds = run(|_| BasicScreen { soul: 0 }, |s| r.rotation(s));
    assert_eq!(cmds, vec![Command::Press(VK_T), Command::Sleep(2)]);
}

#[test]
fn warlock_iframe_spams_bastion_with_input_blocked() {
    let mut r = WarlockRotation::start(true);
    // Bastion ready for the first three readings during the spam, then used
    let mut spam_reads = 0;
    let cmds = run(
        |i| {
            let ready = if i >= 3 { spam_reads += 1; spam_reads <= 2 } else { true };
            WarlockScreen { bastion: if ready { 1916506 } else { 0 }, soul: 0, bastion_key_held: true }
        },
        |s| r.rotation(s),
    );
    assert_eq!(
        cmds,
        vec![
            Command::Release(VK_Z),
            Command::Sleep(10),
            Command::BlockInput(true),
            Command::Press(VK_Z),
            Command::Press(VK_Z),
            Command::BlockInput(false),
            Command::Press(VK_T),
            Command::Sleep(2),
            Command::Press(VK_G),
            Command::Sleep(2),
        ]
    );
}

#[test]
fn warlock_without_iframe() {
    let mut r = WarlockRotation::start(true);
    let cmds = run(|_| WarlockScreen { bastion: CLR_INVALID, soul: SOUL, bastion_key_held: false }, |s| r.rotation(s));
    assert_eq!(
        cmds,
        vec![Command::Press(VK_R), Command::Press(VK_T), Command::Sleep(2), Command::Press(VK_G), Command::Sleep(2)]
    );
}

#[test]
fn assassin_checks_its_three_iframes_in_order() {
    let idle = AssassinScreen {
        night_fury: 0,
        shunpo: 0,
        shadow_dance: 0,
        soul: 0,
        night_fury_held: false,
        shunpo_held: false,
        shadow_dance_held: false,
    };
    let mut r = AssassinRotation::start(false);
    let cmds = run(|_| idle, |s| r.rotation(s));
    assert_eq!(
        cmds,
        vec![Command::Press(VK_4), Command::Sleep(2), Command::Press(VK_T), Command::Sleep(2), Command::Press(VK_0), Command::Sleep(2)]
    );
    // Shunpo held and ready once
    let mut r = AssassinRotation::start(true);
    let cmds = run(
        |i| AssassinScreen { shunpo_held: i == 0, shunpo: if i == 3 { 4149014 } else { 0 }, soul: SOUL, ..idle },
        |s| r.rotation(s),
    );
    assert_eq!(
        cmds,
        vec![
            Command::Release(VK_E),
            Command::Sleep(10),
            Command::BlockInput(true),
            Command::Press(VK_E),
            Command::BlockInput(false),
            Command::Press(VK_R),
            Command::Press(VK_4),
            Command::Sleep(2),
            Command::Press(VK_T),
            Command::Sleep(2),
            Command::Press(VK_0),
            Command::Sleep(2),
        ]
    );
}

#[test]
fn third_spec_weaves_reaver_with_t() {
    let none = DestroyerThirdScreen {
        reaver: 0,
        reaver_edge: 0,
        brightforge: 0,
        galvanize: 0,
        sledgehammer: 0,
        soul: 0,
        ironclad_available: false,
    };
    let mut r = DestroyerThirdRotation::start(true);
    let cmds = run(
        |i| DestroyerThirdScreen { reaver: if i < 2 { 6846074 } else { 0 }, galvanize: if i == 2 { 6909555 } else { 0 }, ..none },
        |s| r.rotation(s),
    );
    assert_eq!(
        cmds,
        vec![Command::Press(VK_G), Command::Press(VK_T), Command::Press(VK_1), Command::Press(VK_T), Command::Press(VK_T), Command::Sleep(2)]
    );
    let mut r = DestroyerThirdRotation::start(true);
    let cmds = run(|_| DestroyerThirdScreen { soul: SOUL, ironclad_available: true, ..none }, |s| r.rotation(s));
    assert_eq!(cmds, vec![Command::Press(VK_E)]);
    let mut r = DestroyerThirdRotation::start(false);
    let cmds = run(|_| DestroyerThirdScreen { sledgehammer: 1471388, reaver: 6908265, ..none }, |s| r.rotation(s));
    assert_eq!(cmds, vec![Command::Press(VK_T)]);
}

fn bar() -> DestroyerScreen {
    DestroyerScreen {
        cleave: 0,
        judgment: 0,
        fury: 0,
        mighty_cleave: 0,
        smash: 0,
        emberstomp: 0,
        wrath3: 0,
        searing_strike: 0,
        typhoon: 0,
        soul: 0,
        button_held: true,
    }
}

#[test]
fn destroyer_plain_rotation_ends_with_wrath() {
    let mut r = DestroyerRotation::new();
    r.begin(true);
    let cmds = run(|_| bar(), |s| r.rotation(s));
    assert_eq!(cmds, vec![Command::Press(VK_0), Command::Sleep(2)]);
}

#[test]
fn destroyer_remembers_fury_for_the_next_mighty_cleave() {
    let mut r = DestroyerRotation::new();
    // first rotation: Fury ready, no Mighty Cleave, no Judgment
    r.begin(true);
    let cmds = run(|_| DestroyerScreen { fury: 4331614, ..bar() }, |s| r.rotation(s));
    assert_eq!(cmds, vec![Command::Press(VK_0), Command::Sleep(2)]);
    assert!(r.fury_after_cleave);
    // second rotation: Mighty Cleave ready once, Fury ready once
    r.begin(true);
    let cmds = run(
        |i| DestroyerScreen { mighty_cleave: if i == 0 { 1251356 } else { 0 }, fury: if i == 4 { 4331614 } else { 0 }, ..bar() },
        |s| r.rotation(s),
    );
    assert_eq!(
        cmds,
        vec![
            Command::Press(VK_0),
            Command::Sleep(10),
            Command::Press(VK_E),
            Command::Sleep(5),
            Command::Press(VK_E),
            Command::Sleep(5),
            Command::Sleep(135),
            Command::Press(VK_0),
            Command::Sleep(2),
        ]
    );
    assert!(!r.fury_after_cleave);
}

#[test]
fn destroyer_judgment_without_fury_cleaves() {
    let mut r = DestroyerRotation::new();
    r.begin(false);
    let cmds = run(|_| DestroyerScreen { judgment: 6909564, soul: SOUL, ..bar() }, |s| r.rotation(s));
    assert_eq!(cmds, vec![Command::Press(VK_R), Command::Press(VK_T), Command::Sleep(5)]);
}

#[test]
fn destroyer_smash_only_with_dps() {
    let mut r = DestroyerRotation::new();
    r.begin(false);
    let cmds = run(
        |i| DestroyerScreen { mighty_cleave: if i == 0 { 1250840 } else { 0 }, smash: 1252144, ..bar() },
        |s| r.rotation(s),
    );
    assert!(!cmds.contains(&Command::Press(VK_X)));
    let mut r = DestroyerRotation::new();
    r.begin(true);
    let cmds = run(
        |i| DestroyerScreen { mighty_cleave: if i == 0 { 1250840 } else { 0 }, smash: if i < 5 { 1252144 } else { 0 }, ..bar() },
        |s| r.rotation(s),
    );
    assert_eq!(
        cmds,
        vec![
            Command::Press(VK_0),
            Command::Sleep(10),
            Command::Press(VK_X),
            Command::Sleep(5),
            Command::Press(VK_X),
            Command::Sleep(5),
            Command::Press(VK_0),
            Command::Sleep(2),
        ]
    );
}

#[test]
fn destroyer_wrath3_and_soulburn_cleave() {
    let mut r = DestroyerRotation::new();
    r.begin(true);
    let cmds = run(
        |i| DestroyerScreen { wrath3: if i == 0 { 1318963 } else { 0 }, cleave: if i == 3 { 1716831 } else { 0 }, ..bar() },
        |s| r.rotation(s),
    );
    assert_eq!(
        cmds,
        vec![
            Command::Press(VK_0),
            Command::Sleep(10),
            Command::Sleep(45),
            Command::Press(VK_T),
            Command::Sleep(95),
            Command::Sleep(80),
            Command::Press(VK_0),
            Command::Sleep(2),
        ]
    );
}

#[test]
fn destroyer_iframes() {
    assert_eq!(iframe_plan(VK_C, false), IframePlan::Spam(IframeSkill::SearingStrike));
    assert_eq!(iframe_plan(VK_Q, false), IframePlan::Spam(IframeSkill::Typhoon));
    assert_eq!(iframe_plan(VK_C, true), IframePlan::Swallow);
    assert_eq!(iframe_plan(VK_F23, false), IframePlan::Pass);
    assert_eq!(iframe_plan(VK_F23, true), IframePlan::Pass);
    let mut spam = IframeSpam::new(IframeSkill::Typhoon);
    let cmds = run(
        |i| DestroyerScreen { typhoon: if i < 3 { 5851324 } else { CLR_INVALID }, button_held: i < 4, ..bar() },
        |s| spam.step(s),
    );
    assert_eq!(cmds, vec![Command::Press(VK_Q), Command::Sleep(1), Command::Press(VK_Q), Command::Sleep(1)]);
}

fn earth_screen() -> EarthScreen {
    EarthScreen { bar: DestroyerScreen { button_held: false, ..bar() }, searing_key_held: false, typhoon_key_held: false }
}

#[test]
fn earth_rotation_iframes_before_the_rest() {
    let mut r = EarthRotation::new(EarthVariant::Iframes);
    r.begin();
    let cmds = run(
        |i| EarthScreen {
            searing_key_held: true,
            bar: DestroyerScreen { searing_strike: if i >= 2 { 2042418 } else { 0 }, ..earth_screen().bar },
            ..earth_screen()
        },
        |s| r.rotation(s),
    );
    assert_eq!(cmds, vec![Command::Press(VK_C), Command::Press(VK_C), Command::Press(VK_0), Command::Sleep(2)]);
    // the first version has no iframes
    let mut r = EarthRotation::new(EarthVariant::First);
    r.begin();
    let cmds = run(|_| EarthScreen { searing_key_held: true, typhoon_key_held: true, ..earth_screen() }, |s| r.rotation(s));
    assert_eq!(cmds, vec![Command::Press(VK_0), Command::Sleep(2)]);
}

#[test]
fn earth_rotation_enters_the_fury_stance() {
    let mut r = EarthRotation::new(EarthVariant::Iframes);
    r.begin();
    let cmds = run(
        |i| EarthScreen {
            bar: DestroyerScreen {
                fury: if i == 0 || i == 2 { 4331614 } else { 0 },
                judgment: if i == 0 { 6909564 } else { 0 },
                ..earth_screen().bar
            },
            ..earth_screen()
        },
        |s| r.rotation(s),
    );
    assert_eq!(
        cmds,
        vec![Command::Press(VK_E), Command::Sleep(5), Command::Press(VK_E), Command::Sleep(5), Command::Sleep(140), Command::Press(VK_0), Command::Sleep(2)]
    );
    assert!(r.fury_after_cleave);
}

#[test]
fn earth_versions_differ_in_their_pauses() {
    for (variant, rest) in [(EarthVariant::Iframes, 120u64), (EarthVariant::First, 140u64)] {
        let mut r = EarthRotation::new(variant);
        r.begin();
        let cmds = run(
            |i| EarthScreen {
                bar: DestroyerScreen {
                    mighty_cleave: if i == 0 { 1251356 } else { 0 },
                    emberstomp: if i == 2 { 1447464 } else { 0 },
                    ..earth_screen().bar
                },
                ..earth_screen()
            },
            |s| r.rotation(s),
        );
        assert_eq!(
            cmds,
            vec![Command::Press(VK_0), Command::Sleep(10), Command::Press(VK_3), Command::Sleep(5), Command::Sleep(rest), Command::Press(VK_0), Command::Sleep(2)]
        );
    }
}

#[test]
fn destroyer_fury_seen_with_mighty_cleave_is_used_up() {
    let mut r = DestroyerRotation::new();
    r.begin(false);
    let cmds = run(
        |i| DestroyerScreen { mighty_cleave: if i == 0 { 1251356 } else { 0 }, fury: if i == 0 { 4331614 } else { 0 }, ..bar() },
        |s| r.rotation(s),
    );
    assert_eq!(cmds[..3].to_vec(), vec![Command::Press(VK_0), Command::Sleep(10), Command::Press(VK_E)]);
    assert!(!r.fury_after_cleave);
    // Fury alone keeps the flag up for the next rotation
    r.begin(false);
    run(|_| DestroyerScreen { fury: 4331614, ..bar() }, |s| r.rotation(s));
    assert!(r.fury_after_cleave);
}

#[test]
fn assassin_unblocks_input_and_ends_with_its_attacks() {
    let idle = AssassinScreen {
        night_fury: 0,
        shunpo: 0,
        shadow_dance: 0,
        soul: SOUL,
        night_fury_held: true,
        shunpo_held: false,
        shadow_dance_held: true,
    };
    let mut r = AssassinRotation::start(true);
    let cmds = run(
        |i| AssassinScreen { night_fury: if i < 6 { 8940159 } else { 0 }, shadow_dance: if i < 12 { CLR_INVALID } else { 0 }, ..idle },
        |s| r.rotation(s),
    );
    let mut blocked = false;
    for c in &cmds {
        if blocked {
            assert!(matches!(c, Command::Press(k) if *k == VK_C || *k == VK_Q) || *c == Command::BlockInput(false));
        }
        if let Command::BlockInput(b) = c {
            blocked = *b;
        }
    }
    assert!(!blocked);
    let n = cmds.len();
    assert_eq!(
        cmds[n - 7..].to_vec(),
        vec![
            Command::Press(VK_R),
            Command::Press(VK_4),
            Command::Sleep(2),
            Command::Press(VK_T),
            Command::Sleep(2),
            Command::Press(VK_0),
            Command::Sleep(2),
        ]
    );
}
