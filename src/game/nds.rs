//! Commands for a Nintendo DS emulator.
use vstd::prelude::*;
use crate::model::bot::{GameFocusChecker, MessageParser};
use crate::model::key::{InputView, KeyInput, KeyInputtable, KeyMappable, PhysicalKey};
use crate::model::text::{
    arg_i8, argument_of, chars_eq, command_of, contains_chars, occurs_in, parse_i8,
    split_command, to_chars,
};

verus! {

/// Milliseconds to wait after each key press of a Nintendo DS input.
pub const NDS_KEY_DELAY: i16 = 100;

/// A button of the console.
#[derive(Clone, Copy, PartialEq, Eq, Debug, Structural)]
pub enum NDSAction {
    Up,
    Down,
    Left,
    Right,
    Y,
    X,
    A,
    B,
    L,
    R,
    Start,
    Select,
}

/// The button that a command word names.
pub open spec fn nds_action_of(cmd: Seq<char>) -> Option<NDSAction> {
    if cmd == "up"@ {
        Some(NDSAction::Up)
    } else if cmd == "down"@ {
        Some(NDSAction::Down)
    } else if cmd == "left"@ {
        Some(NDSAction::Left)
    } else if cmd == "right"@ {
        Some(NDSAction::Right)
    } else if cmd == "y"@ {
        Some(NDSAction::Y)
    } else if cmd == "x"@ {
        Some(NDSAction::X)
    } else if cmd == "a"@ {
        Some(NDSAction::A)
    } else if cmd == "b"@ {
        Some(NDSAction::B)
    } else if cmd == "l"@ {
        Some(NDSAction::L)
    } else if cmd == "r"@ {
        Some(NDSAction::R)
    } else if cmd == "start"@ {
        Some(NDSAction::Start)
    } else if cmd == "select"@ {
        Some(NDSAction::Select)
    } else {
        None
    }
}

/// The name of a directional button; the other buttons have an empty name.
pub open spec fn nds_name(a: NDSAction) -> Seq<char> {
    match a {
        NDSAction::Up => "up"@,
        NDSAction::Down => "down"@,
        NDSAction::Left => "left"@,
        NDSAction::Right => "right"@,
        _ => ""@,
    }
}

/// The key that each button is bound to in the emulator.
pub open spec fn nds_keys(a: NDSAction) -> Seq<PhysicalKey> {
    match a {
        NDSAction::Up => seq![PhysicalKey::UpKey],
        NDSAction::Down => seq![PhysicalKey::DownKey],
        NDSAction::Left => seq![PhysicalKey::LeftKey],
        NDSAction::Right => seq![PhysicalKey::RightKey],
        NDSAction::Y => seq![PhysicalKey::AKey],
        NDSAction::X => seq![PhysicalKey::SKey],
        NDSAction::A => seq![PhysicalKey::XKey],
        NDSAction::B => seq![PhysicalKey::ZKey],
        NDSAction::L => seq![PhysicalKey::QKey],
        NDSAction::R => seq![PhysicalKey::WKey],
        NDSAction::Start => seq![PhysicalKey::EnterKey],
        NDSAction::Select => seq![PhysicalKey::OtherKey(47)],
    }
}

/// The button and count that a command denotes: the argument is the count
/// where it is an `i8` numeral, and the count is one otherwise.
pub open spec fn nds_command(s: Seq<char>) -> Option<(NDSAction, i8)> {
    match nds_action_of(command_of(s)) {
        None => None,
        Some(a) => match arg_i8(argument_of(s)) {
            Some(n) => Some((a, n)),
            None => Some((a, 1i8)),
        },
    }
}

pub open spec fn nds_replay(a: NDSAction, presses: i8) -> InputView {
    InputView { keys: nds_keys(a), presses: presses as int, delay: NDS_KEY_DELAY as int }
}

impl NDSAction {
    pub fn from_chars(cmd: &[char]) -> (r: Result<NDSAction, ()>)
        ensures
            match r {
                Ok(a) => nds_action_of(cmd@) == Some(a),
                Err(_) => nds_action_of(cmd@) is None,
            },
    {
        if chars_eq(cmd, "up") {
            Ok(NDSAction::Up)
        } else if chars_eq(cmd, "down") {
            Ok(NDSAction::Down)
        } else if chars_eq(cmd, "left") {
            Ok(NDSAction::Left)
        } else if chars_eq(cmd, "right") {
            Ok(NDSAction::Right)
        } else if chars_eq(cmd, "y") {
            Ok(NDSAction::Y)
        } else if chars_eq(cmd, "x") {
            Ok(NDSAction::X)
        } else if chars_eq(cmd, "a") {
            Ok(NDSAction::A)
        } else if chars_eq(cmd, "b") {
            Ok(NDSAction::B)
        } else if chars_eq(cmd, "l") {
            Ok(NDSAction::L)
        } else if chars_eq(cmd, "r") {
            Ok(NDSAction::R)
        } else if chars_eq(cmd, "start") {
            Ok(NDSAction::Start)
        } else if chars_eq(cmd, "select") {
            Ok(NDSAction::Select)
        } else {
            Err(())
        }
    }

    pub fn to_string(&self) -> (r: String)
        ensures
            r@ == nds_name(*self),
    {
        match self {
            NDSAction::Up => String::from_str("up"),
            NDSAction::Down => String::from_str("down"),
            NDSAction::Left => String::from_str("left"),
            NDSAction::Right => String::from_str("right"),
            _ => {
                proof {
                    reveal_strlit("");
                }
                String::new()
            },
        }
    }
}

impl std::str::FromStr for NDSAction {
    type Err = ();

    fn from_str(s: &str) -> Result<NDSAction, ()> {
        let cmd = to_chars(s);
        NDSAction::from_chars(cmd.as_slice())
    }
}

/// A button with its count, as a command gave them.
pub struct NDSInput {
    action: NDSAction,
    presses: i8,
}

impl View for NDSInput {
    type V = (NDSAction, i8);

    closed spec fn view(&self) -> (NDSAction, i8) {
        (self.action, self.presses)
    }
}

impl NDSInput {
    pub fn action(&self) -> (r: NDSAction)
        ensures
            r == self@.0,
    {
        self.action
    }
}

impl KeyMappable for NDSInput {
    open spec fn key_input_spec(&self) -> InputView {
        nds_replay(self@.0, self@.1)
    }

    fn to_key_input(&self) -> (r: KeyInput) {
        KeyInput::new(NDSUtils::to_keys(&self.action), self.presses, NDS_KEY_DELAY)
    }
}

impl KeyInputtable for NDSInput {
    open spec fn replay(&self) -> InputView {
        nds_replay(self@.0, self@.1)
    }

    open spec fn presses_spec(&self) -> i8 {
        self@.1
    }

    fn pop(&self) -> (r: Option<KeyInput>) {
        self.to_key_input().pop()
    }

    fn get_presses(&self) -> (r: i8) {
        self.presses
    }
}

/// The Nintendo DS command grammar and window check.
#[derive(Clone, Copy, PartialEq, Eq, Debug, Structural)]
pub struct NDSUtils;

impl NDSUtils {
    pub fn to_keys(action: &NDSAction) -> (r: Vec<PhysicalKey>)
        ensures
            r@ == nds_keys(*action),
    {
        let key = match action {
            NDSAction::Up => PhysicalKey::UpKey,
            NDSAction::Down => PhysicalKey::DownKey,
            NDSAction::Left => PhysicalKey::LeftKey,
            NDSAction::Right => PhysicalKey::RightKey,
            NDSAction::Y => PhysicalKey::AKey,
            NDSAction::X => PhysicalKey::SKey,
            NDSAction::A => PhysicalKey::XKey,
            NDSAction::B => PhysicalKey::ZKey,
            NDSAction::L => PhysicalKey::QKey,
            NDSAction::R => PhysicalKey::WKey,
            NDSAction::Start => PhysicalKey::EnterKey,
            NDSAction::Select => PhysicalKey::OtherKey(47),
        };
        let mut keys: Vec<PhysicalKey> = Vec::new();
        keys.push(key);
        assert(keys@ =~= nds_keys(*action));
        keys
    }

    /// Reads a button command and its count.
    pub fn parse_command(&self, content: &str) -> (r: Result<NDSInput, ()>)
        ensures
            match r {
                Ok(i) => nds_command(content@) == Some(i@),
                Err(_) => nds_command(content@) is None,
            },
    {
        let chars = to_chars(content);
        let (cmd, arg) = split_command(chars.as_slice());
        let action = match NDSAction::from_chars(cmd.as_slice()) {
            Ok(a) => a,
            Err(_) => return Err(()),
        };
        let presses: i8 = match &arg {
            None => 1,
            Some(a) => match parse_i8(a.as_slice()) {
                Some(n) => n,
                None => 1,
            },
        };
        Ok(NDSInput { action, presses })
    }
}

impl MessageParser for NDSUtils {
    open spec fn parse_spec(&self, content: Seq<char>) -> Option<InputView> {
        match nds_command(content) {
            Some((a, n)) => Some(nds_replay(a, n)),
            None => None,
        }
    }

    fn parse_msg(&self, content: &str) -> (r: Result<KeyInput, ()>) {
        match self.parse_command(content) {
            Ok(input) => Ok(input.to_key_input()),
            Err(_) => Err(()),
        }
    }
}

impl GameFocusChecker for NDSUtils {
    open spec fn title_matches(&self, title: Seq<char>) -> bool {
        occurs_in("DeSmuME"@, title)
    }

    fn game_focused(&self, title: Option<&str>) -> (r: bool) {
        match title {
            None => false,
            Some(t) => {
                let chars = to_chars(t);
                let name = to_chars("DeSmuME");
                contains_chars(chars.as_slice(), name.as_slice())
            },
        }
    }
}

} // verus!
