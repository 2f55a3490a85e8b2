//! The bot's configuration and the choices made from it at start-up.
use vstd::prelude::*;
use crate::game::ftl::FTLUtils;
use crate::game::nds::NDSUtils;
use crate::game::supported_game::SupportedGame;
use crate::model::bot::{GameFocusChecker, MessageParser};
use crate::model::key::{InputView, KeyInput};

verus! {

/// The command grammar and window check of one game.
#[derive(Clone, Copy, PartialEq, Eq, Debug, Structural)]
pub enum GameUtils {
    Ftl(FTLUtils),
    Nds(NDSUtils),
}

/// The grammar and window check that serve a game.
pub open spec fn utils_for(game: SupportedGame) -> GameUtils {
    match game {
        SupportedGame::FTL => GameUtils::Ftl(FTLUtils),
        SupportedGame::NDS => GameUtils::Nds(NDSUtils),
    }
}

impl MessageParser for GameUtils {
    open spec fn parse_spec(&self, content: Seq<char>) -> Option<InputView> {
        match self {
            GameUtils::Ftl(u) => u.parse_spec(content),
            GameUtils::Nds(u) => u.parse_spec(content),
        }
    }

    fn parse_msg(&self, content: &str) -> (r: Result<KeyInput, ()>) {
        match self {
            GameUtils::Ftl(u) => u.parse_msg(content),
            GameUtils::Nds(u) => u.parse_msg(content),
        }
    }
}

impl GameFocusChecker for GameUtils {
    open spec fn title_matches(&self, title: Seq<char>) -> bool {
        match self {
            GameUtils::Ftl(u) => u.title_matches(title),
            GameUtils::Nds(u) => u.title_matches(title),
        }
    }

    fn game_focused(&self, title: Option<&str>) -> (r: bool) {
        match self {
            GameUtils::Ftl(u) => u.game_focused(title),
            GameUtils::Nds(u) => u.game_focused(title),
        }
    }
}

/// Why a bot cannot be built from a configuration.
#[derive(Clone, Copy, PartialEq, Eq, Debug, Structural)]
pub enum ConfigError {
    MissingGame,
    MissingToken,
}

impl ConfigError {
    pub fn message(&self) -> (r: String)
        ensures
            r@ == match self {
                ConfigError::MissingGame => "Cannot build a bot without a supported game."@,
                ConfigError::MissingToken => "Cannot build a bot without an OAuth token."@,
            },
    {
        match self {
            ConfigError::MissingGame => String::from_str(
                "Cannot build a bot without a supported game.",
            ),
            ConfigError::MissingToken => String::from_str(
                "Cannot build a bot without an OAuth token.",
            ),
        }
    }
}

/// What the chat client needs to run a bot: the command prefix, the token,
/// and the game's grammar and window check.
pub struct BotPlan {
    pub prefix: String,
    pub token: String,
    pub msg_parser: GameUtils,
    pub focus_checker: GameUtils,
}

/// A configuration as values.
pub struct AppModelView {
    pub prefix: Seq<char>,
    pub token: Seq<char>,
    pub game: Option<SupportedGame>,
}

/// Reading and replacing the three configuration options.
pub trait AppModel: Sized {
    spec fn model(&self) -> AppModelView;

    fn get_prefix(&self) -> (r: &String)
        ensures
            r@ == self.model().prefix,
    ;

    fn set_prefix(&self, prefix: String) -> (r: Self)
        ensures
            r.model() == (AppModelView { prefix: prefix@, ..self.model() }),
    ;

    fn get_token(&self) -> (r: &String)
        ensures
            r@ == self.model().token,
    ;

    fn set_token(&self, token: String) -> (r: Self)
        ensures
            r.model() == (AppModelView { token: token@, ..self.model() }),
    ;

    fn get_game(&self) -> (r: &Option<SupportedGame>)
        ensures
            *r == self.model().game,
    ;

    fn set_game(&self, game: Option<SupportedGame>) -> (r: Self)
        ensures
            r.model() == (AppModelView { game: game, ..self.model() }),
    ;
}

/// The configuration of a bot that talks to Discord: command prefix,
/// authentication token and selected game.
pub struct AppModelSerenity {
    prefix: String,
    token: String,
    game: Option<SupportedGame>,
}

impl View for AppModelSerenity {
    type V = AppModelView;

    closed spec fn view(&self) -> AppModelView {
        AppModelView { prefix: self.prefix@, token: self.token@, game: self.game }
    }
}

impl AppModelSerenity {
    pub fn new(prefix: String, token: String, game: Option<SupportedGame>) -> (r: AppModelSerenity)
        ensures
            r@ == (AppModelView { prefix: prefix@, token: token@, game }),
    {
        AppModelSerenity { prefix, token, game }
    }

    /// The grammar that reads commands for `game`.
    pub fn get_msg_parser(&self, game: &SupportedGame) -> (r: Result<GameUtils, &'static str>)
        ensures
            r == Ok::<GameUtils, &'static str>(utils_for(*game)),
    {
        match game {
            SupportedGame::NDS => Ok(GameUtils::Nds(NDSUtils)),
            SupportedGame::FTL => Ok(GameUtils::Ftl(FTLUtils)),
        }
    }

    /// The window check that tells whether `game` has focus.
    pub fn get_focus_checker(&self, game: &SupportedGame) -> (r: Result<GameUtils, &'static str>)
        ensures
            r == Ok::<GameUtils, &'static str>(utils_for(*game)),
    {
        match game {
            SupportedGame::NDS => Ok(GameUtils::Nds(NDSUtils)),
            SupportedGame::FTL => Ok(GameUtils::Ftl(FTLUtils)),
        }
    }

    /// What a bot is built from: fails without a game, then without a token.
    pub fn plan_bot(&self) -> (r: Result<BotPlan, ConfigError>)
        ensures
            self@.game is None ==> r == Err::<BotPlan, ConfigError>(ConfigError::MissingGame),
            self@.game is Some && self@.token.len() == 0 ==> r == Err::<BotPlan, ConfigError>(
                ConfigError::MissingToken,
            ),
            self@.game is Some && self@.token.len() > 0 ==> r is Ok,
            match r {
                Ok(plan) => {
                    &&& plan.prefix@ == self@.prefix
                    &&& plan.token@ == self@.token
                    &&& plan.msg_parser == utils_for(self@.game->0)
                    &&& plan.focus_checker == utils_for(self@.game->0)
                },
                Err(_) => true,
            },
    {
        let game = match self.game {
            None => return Err(ConfigError::MissingGame),
            Some(g) => g,
        };
        let msg_parser = match self.get_msg_parser(&game) {
            Ok(p) => p,
            Err(_) => return Err(ConfigError::MissingGame),
        };
        let focus_checker = match self.get_focus_checker(&game) {
            Ok(c) => c,
            Err(_) => return Err(ConfigError::MissingGame),
        };
        if self.token.as_str().unicode_len() == 0 {
            return Err(ConfigError::MissingToken);
        }
        Ok(
            BotPlan {
                prefix: self.prefix.clone(),
                token: self.token.clone(),
                msg_parser,
                focus_checker,
            },
        )
    }
}

impl Default for AppModelSerenity {
    fn default() -> (r: AppModelSerenity)
        ensures
            r@ == (AppModelView {
                prefix: ";"@,
                token: ""@,
                game: Some(SupportedGame::NDS),
            }),
    {
        AppModelSerenity {
            prefix: String::from_str(";"),
            token: String::from_str(""),
            game: Some(SupportedGame::NDS),
        }
    }
}

impl AppModel for AppModelSerenity {
    open spec fn model(&self) -> AppModelView {
        self@
    }

    fn get_prefix(&self) -> (r: &String) {
        &self.prefix
    }

    fn set_prefix(&self, prefix: String) -> (r: AppModelSerenity) {
        AppModelSerenity { prefix, token: self.token.clone(), game: self.game }
    }

    fn get_token(&self) -> (r: &String) {
        &self.token
    }

    fn set_token(&self, token: String) -> (r: AppModelSerenity) {
        AppModelSerenity { prefix: self.prefix.clone(), token, game: self.game }
    }

    fn get_game(&self) -> (r: &Option<SupportedGame>) {
        &self.game
    }

    fn set_game(&self, game: Option<SupportedGame>) -> (r: AppModelSerenity) {
        AppModelSerenity { prefix: self.prefix.clone(), token: self.token.clone(), game }
    }
}

/// Every command that a game's grammar accepts replays at least one key.
pub proof fn lemma_parsed_commands_have_keys(game: SupportedGame, content: Seq<char>)
    ensures
        match utils_for(game).parse_spec(content) {
            Some(v) => v.keys.len() > 0,
            None => true,
        },
{
}

} // verus!
