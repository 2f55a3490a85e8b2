use std::str::FromStr;

use chat_plays::game::ftl::{FTLAction, FTLTarget, FTLUtils};
use chat_plays::game::nds::{NDSAction, NDSUtils};
use chat_plays::game::supported_game::SupportedGame;
use chat_plays::model::bot::{GameFocusChecker, MessageParser};
use chat_plays::model::key::{KeyInputtable, KeyMappable, PhysicalKey};
use chat_plays::model::text::{
    chars_eq, contains_chars, parse_i8, split_command, to_chars,
};

fn ftl(cmd: &str) -> Option<(FTLAction, i8)> {
    FTLUtils.parse_command(cmd).ok().map(|i| (i.action(), i.get_presses()))
}

fn nds(cmd: &str) -> Option<(NDSAction, i8)> {
    NDSUtils.parse_command(cmd).ok().map(|i| (i.action(), i.get_presses()))
}

fn chars(s: &str) -> Vec<char> {
    s.chars().collect()
}

#[test]
fn power_levels_keep_their_sign() {
    assert_eq!(ftl("shields 3"), Some((FTLAction::PowerShields, 3)));
    assert_eq!(ftl("shields -3"), Some((FTLAction::PowerShields, -3)));
    assert_eq!(ftl("e 8"), Some((FTLAction::PowerEngines, 8)));
    assert_eq!(ftl("o2 -8"), Some((FTLAction::PowerOxygen, -8)));
    assert_eq!(ftl("med 1"), Some((FTLAction::PowerMedbay, 1)));
    assert_eq!(ftl("clone_bay -1"), Some((FTLAction::PowerCloneBay, -1)));
    assert_eq!(ftl("tp +4"), Some((FTLAction::PowerTeleporter, 4)));
    assert_eq!(ftl("mind 2"), Some((FTLAction::PowerMindControl, 2)));
    assert_eq!(ftl("beam 5"), Some((FTLAction::PowerArtilleryBeam, 5)));
}

#[test]
fn bad_power_levels_are_refused() {
    assert_eq!(ftl("shields 9"), None);
    assert_eq!(ftl("shields 0"), None);
    assert_eq!(ftl("shields -9"), None);
    assert_eq!(ftl("shields x"), None);
    assert_eq!(ftl("shields 3.5"), None);
    assert_eq!(ftl("shields 300"), None);
    assert_eq!(ftl("shields"), None);
    assert_eq!(ftl("engines -128"), None);
    assert!(FTLUtils.parse_msg("shields 9").is_err());
}

#[test]
fn startable_systems_start_or_take_power() {
    assert_eq!(ftl("hacking"), Some((FTLAction::StartHacking, 1)));
    assert_eq!(ftl("hack 3"), Some((FTLAction::PowerHacking, 3)));
    assert_eq!(ftl("cloak"), Some((FTLAction::ActivateCloaking, 1)));
    assert_eq!(ftl("c -2"), Some((FTLAction::PowerCloaking, -2)));
    assert_eq!(ftl("cloaking 10"), None);
    assert_eq!(ftl("h zero"), None);
}

#[test]
fn choices_take_their_range() {
    assert_eq!(ftl("event 1"), Some((FTLAction::EventChoice1, 1)));
    assert_eq!(ftl("choose 4"), Some((FTLAction::EventChoice4, 1)));
    assert_eq!(ftl("choice 5"), None);
    assert_eq!(ftl("event"), None);
    assert_eq!(ftl("w 2"), Some((FTLAction::PowerWeapon2, 1)));
    assert_eq!(ftl("weapons 4"), Some((FTLAction::PowerWeapon4, 1)));
    assert_eq!(ftl("wep 0"), None);
    assert_eq!(ftl("drone 3"), Some((FTLAction::PowerDrone3, 1)));
    assert_eq!(ftl("d 4"), None);
    assert_eq!(ftl("drones"), None);
}

#[test]
fn doors_and_battery() {
    assert_eq!(ftl("doors open"), Some((FTLAction::OpenDoors, 1)));
    assert_eq!(ftl("door close"), Some((FTLAction::CloseDoors, 1)));
    assert_eq!(ftl("doors"), None);
    assert_eq!(ftl("doors ajar"), None);
    assert_eq!(ftl("battery"), Some((FTLAction::ActivateBattery, 1)));
    assert_eq!(ftl("b now"), Some((FTLAction::ActivateBattery, 1)));
}

#[test]
fn unknown_commands_are_refused() {
    assert_eq!(ftl(""), None);
    assert_eq!(ftl("warp"), None);
    assert_eq!(ftl("Shields 3"), None);
    assert_eq!(ftl(" shields 3"), None);
}

#[test]
fn argument_follows_whitespace_run() {
    assert_eq!(ftl("shields   3"), Some((FTLAction::PowerShields, 3)));
    assert_eq!(ftl("shields\t3"), Some((FTLAction::PowerShields, 3)));
    assert_eq!(ftl("shields 3 4"), None);
    assert_eq!(ftl("hacking "), Some((FTLAction::StartHacking, 1)));
}

#[test]
fn negative_count_holds_shift() {
    let k = FTLUtils.parse_command("shields -3").unwrap().to_key_input();
    assert_eq!(k.keys(), &vec![PhysicalKey::LShiftKey, PhysicalKey::AKey]);
    assert_eq!(k.get_presses(), 3);
    assert_eq!(k.delay(), 25);
    let k = FTLUtils.parse_msg("shields 3").unwrap();
    assert_eq!(k.keys(), &vec![PhysicalKey::AKey]);
    assert_eq!(k.get_presses(), 3);
    let next = FTLUtils.parse_command("e -2").unwrap().pop().unwrap();
    assert_eq!(next.keys(), &vec![PhysicalKey::LShiftKey, PhysicalKey::SKey]);
    assert_eq!(next.get_presses(), 1);
}

#[test]
fn aliased_actions_share_keys() {
    let a = FTLUtils.parse_msg("event 1").unwrap();
    let b = FTLUtils.parse_msg("weapon 1").unwrap();
    assert_eq!(a.keys(), b.keys());
    assert_eq!(a.keys(), &vec![PhysicalKey::Numrow1Key]);
    assert_eq!(FTLUtils::to_keys(&FTLAction::PowerMedbay), FTLUtils::to_keys(&FTLAction::PowerCloneBay));
}

#[test]
fn accepted_commands_have_keys() {
    let commands = [
        "shields 3", "s -1", "engines 2", "o 4", "mb 1", "cb 2", "teleport 3", "cloak",
        "cloak 1", "mc 2", "hack", "h 2", "a 3", "event 2", "w 3", "d 1", "doors open",
        "doors close", "backup",
    ];
    for c in commands {
        let k = FTLUtils.parse_msg(c).expect(c);
        assert!(!k.keys().is_empty(), "{}", c);
    }
    for c in ["up", "down 2", "left", "right", "y", "x", "a", "b", "l", "r", "start", "select"] {
        let k = NDSUtils.parse_msg(c).expect(c);
        assert!(!k.keys().is_empty(), "{}", c);
    }
}

#[test]
fn ftl_target_aliases() {
    assert_eq!(FTLTarget::from_str("choose"), Ok(FTLTarget::Event));
    assert_eq!(FTLTarget::from_str("o2"), Ok(FTLTarget::Oxygen));
    assert_eq!(FTLTarget::from_str("clone"), Ok(FTLTarget::CloneBay));
    assert_eq!(FTLTarget::from_str("mind_control"), Ok(FTLTarget::MindControl));
    assert_eq!(FTLTarget::from_str("artillery"), Ok(FTLTarget::ArtilleryBeam));
    assert_eq!(FTLTarget::from_str("wep"), Ok(FTLTarget::WeaponControl));
    assert_eq!(FTLTarget::from_str("door"), Ok(FTLTarget::Doors));
    assert_eq!(FTLTarget::from_str("b"), Ok(FTLTarget::BackupBattery));
    assert_eq!(FTLTarget::from_str("bb"), Err(()));
}

#[test]
fn nds_buttons_and_counts() {
    assert_eq!(nds("a"), Some((NDSAction::A, 1)));
    assert_eq!(nds("a 3"), Some((NDSAction::A, 3)));
    assert_eq!(nds("up foo"), Some((NDSAction::Up, 1)));
    assert_eq!(nds("select -4"), Some((NDSAction::Select, -4)));
    assert_eq!(nds("jump"), None);
    let k = NDSUtils.parse_msg("select 2").unwrap();
    assert_eq!(k.keys(), &vec![PhysicalKey::OtherKey(47)]);
    assert_eq!(k.delay(), 100);
    let k = NDSUtils.parse_msg("b -4").unwrap();
    assert_eq!(k.keys(), &vec![PhysicalKey::ZKey]);
    assert_eq!(k.get_presses(), -4);
}

#[test]
fn nds_action_names() {
    assert_eq!(NDSAction::from_str("start"), Ok(NDSAction::Start));
    assert_eq!(NDSAction::from_str("Start"), Err(()));
    assert_eq!(NDSAction::Up.to_string(), "up");
    assert_eq!(NDSAction::Right.to_string(), "right");
    assert_eq!(NDSAction::A.to_string(), "");
}

#[test]
fn supported_game_names() {
    assert_eq!(SupportedGame::from_str("ftl"), Ok(SupportedGame::FTL));
    assert_eq!(SupportedGame::from_str("nds"), Ok(SupportedGame::NDS));
    assert_eq!(SupportedGame::from_str("FTL"), Err(()));
    assert_eq!(SupportedGame::FTL.to_string(), "FTL: Faster Than Light");
    assert_eq!(SupportedGame::NDS.to_string(), "Nintendo DS");
}

#[test]
fn window_titles_decide_focus() {
    assert!(FTLUtils.game_focused(Some("FTL: Faster Than Light")));
    assert!(!FTLUtils.game_focused(Some("FTL: Faster Than Light ")));
    assert!(!FTLUtils.game_focused(Some("Notepad")));
    assert!(!FTLUtils.game_focused(None));
    assert!(NDSUtils.game_focused(Some("DeSmuME 0.9.13 x64")));
    assert!(NDSUtils.game_focused(Some("Pokemon - DeSmuME")));
    assert!(!NDSUtils.game_focused(Some("desmume")));
    assert!(!NDSUtils.game_focused(Some("DeSmu")));
    assert!(!NDSUtils.game_focused(None));
}

#[test]
fn numerals_read_as_i8() {
    assert_eq!(parse_i8(&chars("42")), Some(42));
    assert_eq!(parse_i8(&chars("+7")), Some(7));
    assert_eq!(parse_i8(&chars("-128")), Some(-128));
    assert_eq!(parse_i8(&chars("127")), Some(127));
    assert_eq!(parse_i8(&chars("007")), Some(7));
    assert_eq!(parse_i8(&chars("128")), None);
    assert_eq!(parse_i8(&chars("-129")), None);
    assert_eq!(parse_i8(&chars("99999999999")), None);
    assert_eq!(parse_i8(&chars("")), None);
    assert_eq!(parse_i8(&chars("-")), None);
    assert_eq!(parse_i8(&chars("+")), None);
    assert_eq!(parse_i8(&chars("1a")), None);
    assert_eq!(parse_i8(&chars(" 1")), None);
}

#[test]
fn text_helpers() {
    assert_eq!(to_chars("héllo"), chars("héllo"));
    assert!(chars_eq(&chars("open"), "open"));
    assert!(!chars_eq(&chars("ope"), "open"));
    assert!(contains_chars(&chars("abcabd"), &chars("abd")));
    assert!(contains_chars(&chars("abc"), &chars("")));
    assert!(!contains_chars(&chars("ab"), &chars("abc")));
    let (cmd, arg) = split_command(&chars("doors  open"));
    assert_eq!(cmd, chars("doors"));
    assert_eq!(arg, Some(chars("open")));
    let (cmd, arg) = split_command(&chars("doors "));
    assert_eq!(cmd, chars("doors"));
    assert_eq!(arg, None);
}
