use chat_plays::game::supported_game::SupportedGame;
use chat_plays::model::app_model::{AppModel, AppModelSerenity, ConfigError, GameUtils};
use chat_plays::game::ftl::FTLUtils;
use chat_plays::game::nds::NDSUtils;
use chat_plays::model::bot::{GameFocusChecker, MessageParser};

#[test]
fn default_config() {
    let cfg = AppModelSerenity::default();
    assert_eq!(cfg.get_prefix(), ";");
    assert_eq!(cfg.get_token(), "");
    assert_eq!(cfg.get_game(), &Some(SupportedGame::NDS));
}

#[test]
fn setters_replace_one_option() {
    let cfg = AppModelSerenity::new(";".to_string(), "t0k".to_string(), None);
    let cfg = cfg.set_prefix("!".to_string());
    assert_eq!(cfg.get_prefix(), "!");
    assert_eq!(cfg.get_token(), "t0k");
    let cfg = cfg.set_game(Some(SupportedGame::FTL));
    assert_eq!(cfg.get_game(), &Some(SupportedGame::FTL));
    assert_eq!(cfg.get_prefix(), "!");
    let cfg = cfg.set_token("other".to_string());
    assert_eq!(cfg.get_token(), "other");
    assert_eq!(cfg.get_game(), &Some(SupportedGame::FTL));
}

#[test]
fn missing_game_stops_the_bot() {
    let cfg = AppModelSerenity::new(";".to_string(), "t0k".to_string(), None);
    let err = cfg.plan_bot().err().expect("an error");
    assert_eq!(err, ConfigError::MissingGame);
    assert_eq!(err.message(), "Cannot build a bot without a supported game.");
}

#[test]
fn missing_token_stops_the_bot() {
    let err = AppModelSerenity::default().plan_bot().err().expect("an error");
    assert_eq!(err, ConfigError::MissingToken);
    assert_eq!(err.message(), "Cannot build a bot without an OAuth token.");
}

#[test]
fn full_config_plans_the_bot() {
    let cfg = AppModelSerenity::new("!".to_string(), "t0k".to_string(), Some(SupportedGame::FTL));
    let plan = cfg.plan_bot().ok().expect("a plan");
    assert_eq!(plan.prefix, "!");
    assert_eq!(plan.token, "t0k");
    assert_eq!(plan.msg_parser, GameUtils::Ftl(FTLUtils));
    assert_eq!(plan.focus_checker, GameUtils::Ftl(FTLUtils));
    assert!(plan.msg_parser.parse_msg("shields 2").is_ok());
    assert!(plan.focus_checker.game_focused(Some("FTL: Faster Than Light")));
}

#[test]
fn games_get_their_own_grammar() {
    let cfg = AppModelSerenity::default();
    assert_eq!(cfg.get_msg_parser(&SupportedGame::NDS), Ok(GameUtils::Nds(NDSUtils)));
    assert_eq!(cfg.get_focus_checker(&SupportedGame::FTL), Ok(GameUtils::Ftl(FTLUtils)));
    let nds = cfg.get_msg_parser(&SupportedGame::NDS).unwrap();
    assert!(nds.parse_msg("start").is_ok());
    assert!(nds.parse_msg("shields 3").is_err());
    assert!(nds.game_focused(Some("DeSmuME")));
}
