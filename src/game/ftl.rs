//! Commands for FTL: Faster Than Light.
use vstd::prelude::*;
use crate::model::bot::{GameFocusChecker, MessageParser};
use crate::model::key::{
    after_press, magnitude, InputView, KeyInput, KeyInputtable, KeyMappable, PhysicalKey,
};
use crate::model::text::{
    arg_i8, arg_view, argument_of, chars_eq, command_of, i8_of, is_space, lemma_numeral_starts_word,
    lemma_split_joined, lemma_split_word, no_space, parse_i8, split_command, to_chars,
};

verus! {

/// Milliseconds to wait after each key press of an FTL input.
pub const FTL_KEY_DELAY: i16 = 25;

/// The ship system or game feature that a command addresses.
#[derive(Clone, Copy, PartialEq, Eq, Debug, Structural)]
pub enum FTLTarget {
    Event,
    Shields,
    Engines,
    Oxygen,
    Medbay,
    CloneBay,
    Teleporter,
    Cloaking,
    MindControl,
    Hacking,
    ArtilleryBeam,
    WeaponControl,
    DroneControl,
    Doors,
    BackupBattery,
}

/// The target that a command word names; several aliases name each target.
pub open spec fn target_of(cmd: Seq<char>) -> Option<FTLTarget> {
    if cmd == "event"@ || cmd == "choice"@ || cmd == "choose"@ {
        Some(FTLTarget::Event)
    } else if cmd == "shields"@ || cmd == "shield"@ || cmd == "s"@ {
        Some(FTLTarget::Shields)
    } else if cmd == "engines"@ || cmd == "engine"@ || cmd == "e"@ {
        Some(FTLTarget::Engines)
    } else if cmd == "oxygen"@ || cmd == "o2"@ || cmd == "o"@ {
        Some(FTLTarget::Oxygen)
    } else if cmd == "medbay"@ || cmd == "med"@ || cmd == "mb"@ {
        Some(FTLTarget::Medbay)
    } else if cmd == "clone_bay"@ || cmd == "clone"@ || cmd == "cb"@ {
        Some(FTLTarget::CloneBay)
    } else if cmd == "teleporter"@ || cmd == "teleport"@ || cmd == "tp"@ {
        Some(FTLTarget::Teleporter)
    } else if cmd == "cloaking"@ || cmd == "cloak"@ || cmd == "c"@ {
        Some(FTLTarget::Cloaking)
    } else if cmd == "mind_control"@ || cmd == "mind"@ || cmd == "mc"@ {
        Some(FTLTarget::MindControl)
    } else if cmd == "hacking"@ || cmd == "hack"@ || cmd == "h"@ {
        Some(FTLTarget::Hacking)
    } else if cmd == "artillery"@ || cmd == "beam"@ || cmd == "a"@ {
        Some(FTLTarget::ArtilleryBeam)
    } else if cmd == "weapons"@ || cmd == "weapon"@ || cmd == "wep"@ || cmd == "w"@ {
        Some(FTLTarget::WeaponControl)
    } else if cmd == "drones"@ || cmd == "drone"@ || cmd == "d"@ {
        Some(FTLTarget::DroneControl)
    } else if cmd == "doors"@ || cmd == "door"@ {
        Some(FTLTarget::Doors)
    } else if cmd == "backup"@ || cmd == "battery"@ || cmd == "b"@ {
        Some(FTLTarget::BackupBattery)
    } else {
        None
    }
}

impl FTLTarget {
    pub fn from_chars(cmd: &[char]) -> (r: Result<FTLTarget, ()>)
        ensures
            match r {
                Ok(t) => target_of(cmd@) == Some(t),
                Err(_) => target_of(cmd@) is None,
            },
    {
        if chars_eq(cmd, "event") || chars_eq(cmd, "choice") || chars_eq(cmd, "choose") {
            Ok(FTLTarget::Event)
        } else if chars_eq(cmd, "shields") || chars_eq(cmd, "shield") || chars_eq(cmd, "s") {
            Ok(FTLTarget::Shields)
        } else if chars_eq(cmd, "engines") || chars_eq(cmd, "engine") || chars_eq(cmd, "e") {
            Ok(FTLTarget::Engines)
        } else if chars_eq(cmd, "oxygen") || chars_eq(cmd, "o2") || chars_eq(cmd, "o") {
            Ok(FTLTarget::Oxygen)
        } else if chars_eq(cmd, "medbay") || chars_eq(cmd, "med") || chars_eq(cmd, "mb") {
            Ok(FTLTarget::Medbay)
        } else if chars_eq(cmd, "clone_bay") || chars_eq(cmd, "clone") || chars_eq(cmd, "cb") {
            Ok(FTLTarget::CloneBay)
        } else if chars_eq(cmd, "teleporter") || chars_eq(cmd, "teleport") || chars_eq(cmd, "tp") {
            Ok(FTLTarget::Teleporter)
        } else if chars_eq(cmd, "cloaking") || chars_eq(cmd, "cloak") || chars_eq(cmd, "c") {
            Ok(FTLTarget::Cloaking)
        } else if chars_eq(cmd, "mind_control") || chars_eq(cmd, "mind") || chars_eq(cmd, "mc") {
            Ok(FTLTarget::MindControl)
        } else if chars_eq(cmd, "hacking") || chars_eq(cmd, "hack") || chars_eq(cmd, "h") {
            Ok(FTLTarget::Hacking)
        } else if chars_eq(cmd, "artillery") || chars_eq(cmd, "beam") || chars_eq(cmd, "a") {
            Ok(FTLTarget::ArtilleryBeam)
        } else if chars_eq(cmd, "weapons") || chars_eq(cmd, "weapon") || chars_eq(cmd, "wep") || chars_eq(cmd, "w") {
            Ok(FTLTarget::WeaponControl)
        } else if chars_eq(cmd, "drones") || chars_eq(cmd, "drone") || chars_eq(cmd, "d") {
            Ok(FTLTarget::DroneControl)
        } else if chars_eq(cmd, "doors") || chars_eq(cmd, "door") {
            Ok(FTLTarget::Doors)
        } else if chars_eq(cmd, "backup") || chars_eq(cmd, "battery") || chars_eq(cmd, "b") {
            Ok(FTLTarget::BackupBattery)
        } else {
            Err(())
        }
    }
}

impl std::str::FromStr for FTLTarget {
    type Err = ();

    fn from_str(s: &str) -> Result<FTLTarget, ()> {
        let cmd = to_chars(s);
        FTLTarget::from_chars(cmd.as_slice())
    }
}

/// One effect in the game.
#[derive(Clone, Copy, PartialEq, Eq, Debug, Structural)]
pub enum FTLAction {
    PowerShields,
    PowerEngines,
    PowerOxygen,
    PowerMedbay,
    PowerCloneBay,
    PowerTeleporter,
    PowerCloaking,
    PowerMindControl,
    PowerHacking,
    PowerArtilleryBeam,
    PowerWeapon1,
    PowerWeapon2,
    PowerWeapon3,
    PowerWeapon4,
    PowerDrone1,
    PowerDrone2,
    PowerDrone3,
    EventChoice1,
    EventChoice2,
    EventChoice3,
    EventChoice4,
    OpenDoors,
    CloseDoors,
    ActivateCloaking,
    StartHacking,
    ActivateBattery,
}

/// The keys of one repetition of an action.
pub open spec fn ftl_keys(a: FTLAction) -> Seq<PhysicalKey> {
    match a {
        FTLAction::PowerShields => seq![PhysicalKey::AKey],
        FTLAction::PowerEngines => seq![PhysicalKey::SKey],
        FTLAction::PowerOxygen => seq![PhysicalKey::FKey],
        FTLAction::PowerMedbay => seq![PhysicalKey::DKey],
        FTLAction::PowerCloneBay => seq![PhysicalKey::DKey],
        FTLAction::PowerTeleporter => seq![PhysicalKey::GKey],
        FTLAction::PowerCloaking => seq![PhysicalKey::HKey],
        FTLAction::PowerMindControl => seq![PhysicalKey::KKey],
        FTLAction::PowerHacking => seq![PhysicalKey::LKey],
        FTLAction::PowerArtilleryBeam => seq![PhysicalKey::YKey],
        FTLAction::PowerWeapon1 | FTLAction::EventChoice1 => seq![PhysicalKey::Numrow1Key],
        FTLAction::PowerWeapon2 | FTLAction::EventChoice2 => seq![PhysicalKey::Numrow2Key],
        FTLAction::PowerWeapon3 | FTLAction::EventChoice3 => seq![PhysicalKey::Numrow3Key],
        FTLAction::PowerWeapon4 | FTLAction::EventChoice4 => seq![PhysicalKey::Numrow4Key],
        FTLAction::PowerDrone1 => seq![PhysicalKey::Numrow5Key],
        FTLAction::PowerDrone2 => seq![PhysicalKey::Numrow6Key],
        FTLAction::PowerDrone3 => seq![PhysicalKey::Numrow7Key],
        FTLAction::OpenDoors => seq![PhysicalKey::ZKey],
        FTLAction::CloseDoors => seq![PhysicalKey::XKey],
        FTLAction::ActivateCloaking => seq![PhysicalKey::CKey],
        FTLAction::StartHacking => seq![PhysicalKey::NKey],
        FTLAction::ActivateBattery => seq![PhysicalKey::BKey],
    }
}

/// Whether an action allocates power to a system, so that its count is the
/// number of power bars to move.
pub open spec fn is_power(a: FTLAction) -> bool {
    match a {
        FTLAction::PowerShields | FTLAction::PowerEngines | FTLAction::PowerOxygen
        | FTLAction::PowerMedbay | FTLAction::PowerCloneBay | FTLAction::PowerTeleporter
        | FTLAction::PowerCloaking | FTLAction::PowerMindControl | FTLAction::PowerHacking
        | FTLAction::PowerArtilleryBeam => true,
        _ => false,
    }
}

/// Whether an argument is a power level: an integer whose absolute value is in [1, 8].
pub open spec fn power_arg_ok(arg: Option<Seq<char>>) -> bool {
    match arg_i8(arg) {
        Some(n) => 1 <= magnitude(n as int) <= 8,
        None => false,
    }
}

/// The action that a target and its argument denote, if they are valid.
pub open spec fn action_of(target: FTLTarget, arg: Option<Seq<char>>) -> Option<FTLAction> {
    match target {
        FTLTarget::Shields => power_action(FTLAction::PowerShields, arg),
        FTLTarget::Engines => power_action(FTLAction::PowerEngines, arg),
        FTLTarget::Oxygen => power_action(FTLAction::PowerOxygen, arg),
        FTLTarget::Medbay => power_action(FTLAction::PowerMedbay, arg),
        FTLTarget::CloneBay => power_action(FTLAction::PowerCloneBay, arg),
        FTLTarget::Teleporter => power_action(FTLAction::PowerTeleporter, arg),
        FTLTarget::Cloaking => startable_action(
            FTLAction::ActivateCloaking,
            FTLAction::PowerCloaking,
            arg,
        ),
        FTLTarget::MindControl => power_action(FTLAction::PowerMindControl, arg),
        FTLTarget::Hacking => startable_action(
            FTLAction::StartHacking,
            FTLAction::PowerHacking,
            arg,
        ),
        FTLTarget::ArtilleryBeam => power_action(FTLAction::PowerArtilleryBeam, arg),
        FTLTarget::Event => match arg_i8(arg) {
            Some(1) => Some(FTLAction::EventChoice1),
            Some(2) => Some(FTLAction::EventChoice2),
            Some(3) => Some(FTLAction::EventChoice3),
            Some(4) => Some(FTLAction::EventChoice4),
            _ => None,
        },
        FTLTarget::WeaponControl => match arg_i8(arg) {
            Some(1) => Some(FTLAction::PowerWeapon1),
            Some(2) => Some(FTLAction::PowerWeapon2),
            Some(3) => Some(FTLAction::PowerWeapon3),
            Some(4) => Some(FTLAction::PowerWeapon4),
            _ => None,
        },
        FTLTarget::DroneControl => match arg_i8(arg) {
            Some(1) => Some(FTLAction::PowerDrone1),
            Some(2) => Some(FTLAction::PowerDrone2),
            Some(3) => Some(FTLAction::PowerDrone3),
            _ => None,
        },
        FTLTarget::Doors => match arg {
            Some(a) => if a == "open"@ {
                Some(FTLAction::OpenDoors)
            } else if a == "close"@ {
                Some(FTLAction::CloseDoors)
            } else {
                None
            },
            None => None,
        },
        FTLTarget::BackupBattery => Some(FTLAction::ActivateBattery),
    }
}

/// A system that only takes a power level.
pub open spec fn power_action(action: FTLAction, arg: Option<Seq<char>>) -> Option<FTLAction> {
    if power_arg_ok(arg) {
        Some(action)
    } else {
        None
    }
}

/// A system that starts without an argument and takes a power level with one.
pub open spec fn startable_action(
    start: FTLAction,
    power: FTLAction,
    arg: Option<Seq<char>>,
) -> Option<FTLAction> {
    if arg is None {
        Some(start)
    } else if power_arg_ok(arg) {
        Some(power)
    } else {
        None
    }
}

/// The action and signed count that an FTL command denotes: power actions
/// take the argument as their count, every other action a count of one.
pub open spec fn ftl_command(s: Seq<char>) -> Option<(FTLAction, i8)> {
    match target_of(command_of(s)) {
        None => None,
        Some(t) => match action_of(t, argument_of(s)) {
            None => None,
            Some(a) => if is_power(a) {
                match arg_i8(argument_of(s)) {
                    Some(n) => Some((a, n)),
                    None => None,
                }
            } else {
                Some((a, 1i8))
            },
        },
    }
}

/// The replay form of an action and signed count: a negative count holds
/// Shift down before the action's keys and repeats by its absolute value.
pub open spec fn ftl_replay(a: FTLAction, presses: i8) -> InputView {
    if presses >= 0 {
        InputView { keys: ftl_keys(a), presses: presses as int, delay: FTL_KEY_DELAY as int }
    } else {
        InputView {
            keys: seq![PhysicalKey::LShiftKey] + ftl_keys(a),
            presses: -(presses as int),
            delay: FTL_KEY_DELAY as int,
        }
    }
}

/// An action with its signed count, as a command gave them.
pub struct FTLInput {
    action: FTLAction,
    presses: i8,
}

impl FTLInput {
    #[verifier::type_invariant]
    spec fn count_in_range(self) -> bool {
        1 <= magnitude(self.presses as int) <= 8
    }

    pub fn action(&self) -> (r: FTLAction)
        ensures
            r == self@.0,
    {
        self.action
    }
}

impl View for FTLInput {
    type V = (FTLAction, i8);

    closed spec fn view(&self) -> (FTLAction, i8) {
        (self.action, self.presses)
    }
}

impl KeyMappable for FTLInput {
    open spec fn key_input_spec(&self) -> InputView {
        ftl_replay(self@.0, self@.1)
    }

    fn to_key_input(&self) -> (r: KeyInput) {
        proof {
            use_type_invariant(self);
        }
        if self.presses >= 0 {
            KeyInput::new(FTLUtils::to_keys(&self.action), self.presses, FTL_KEY_DELAY)
        } else {
            let mut keys = FTLUtils::to_keys(&self.action);
            keys.insert(0, PhysicalKey::LShiftKey);
            assert(keys@ =~= seq![PhysicalKey::LShiftKey] + ftl_keys(self.action));
            KeyInput::new(keys, -self.presses, FTL_KEY_DELAY)
        }
    }
}

impl KeyInputtable for FTLInput {
    open spec fn replay(&self) -> InputView {
        ftl_replay(self@.0, self@.1)
    }

    open spec fn presses_spec(&self) -> i8 {
        self@.1
    }

    fn pop(&self) -> (r: Option<KeyInput>) {
        self.to_key_input().pop()
    }

    fn get_presses(&self) -> (r: i8) {
        self.presses
    }
}

/// The FTL command grammar and window check.
#[derive(Clone, Copy, PartialEq, Eq, Debug, Structural)]
pub struct FTLUtils;

impl FTLUtils {
    pub fn to_keys(action: &FTLAction) -> (r: Vec<PhysicalKey>)
        ensures
            r@ == ftl_keys(*action),
    {
        let key = match action {
            FTLAction::PowerShields => PhysicalKey::AKey,
            FTLAction::PowerEngines => PhysicalKey::SKey,
            FTLAction::PowerOxygen => PhysicalKey::FKey,
            FTLAction::PowerMedbay => PhysicalKey::DKey,
            FTLAction::PowerCloneBay => PhysicalKey::DKey,
            FTLAction::PowerTeleporter => PhysicalKey::GKey,
            FTLAction::PowerCloaking => PhysicalKey::HKey,
            FTLAction::PowerMindControl => PhysicalKey::KKey,
            FTLAction::PowerHacking => PhysicalKey::LKey,
            FTLAction::PowerArtilleryBeam => PhysicalKey::YKey,
            FTLAction::PowerWeapon1 | FTLAction::EventChoice1 => PhysicalKey::Numrow1Key,
            FTLAction::PowerWeapon2 | FTLAction::EventChoice2 => PhysicalKey::Numrow2Key,
            FTLAction::PowerWeapon3 | FTLAction::EventChoice3 => PhysicalKey::Numrow3Key,
            FTLAction::PowerWeapon4 | FTLAction::EventChoice4 => PhysicalKey::Numrow4Key,
            FTLAction::PowerDrone1 => PhysicalKey::Numrow5Key,
            FTLAction::PowerDrone2 => PhysicalKey::Numrow6Key,
            FTLAction::PowerDrone3 => PhysicalKey::Numrow7Key,
            FTLAction::OpenDoors => PhysicalKey::ZKey,
            FTLAction::CloseDoors => PhysicalKey::XKey,
            FTLAction::ActivateCloaking => PhysicalKey::CKey,
            FTLAction::StartHacking => PhysicalKey::NKey,
            FTLAction::ActivateBattery => PhysicalKey::BKey,
        };
        let mut keys: Vec<PhysicalKey> = Vec::new();
        keys.push(key);
        assert(keys@ =~= ftl_keys(*action));
        keys
    }

    /// The `i8` that an argument holds, if any.
    fn read_count(arg: Option<&[char]>) -> (r: Option<i8>)
        ensures
            r == arg_i8(arg_view(arg)),
    {
        match arg {
            Some(a) => parse_i8(a),
            None => None,
        }
    }

    pub fn parse_action(&self, target: FTLTarget, arg: Option<&[char]>) -> (r: Result<
        FTLAction,
        &'static str,
    >)
        ensures
            match r {
                Ok(a) => action_of(target, arg_view(arg)) == Some(a),
                Err(_) => action_of(target, arg_view(arg)) is None,
            },
    {
        match target {
            FTLTarget::Shields => self.parse_system_arg(FTLAction::PowerShields, arg),
            FTLTarget::Engines => self.parse_system_arg(FTLAction::PowerEngines, arg),
            FTLTarget::Oxygen => self.parse_system_arg(FTLAction::PowerOxygen, arg),
            FTLTarget::Medbay => self.parse_system_arg(FTLAction::PowerMedbay, arg),
            FTLTarget::CloneBay => self.parse_system_arg(FTLAction::PowerCloneBay, arg),
            FTLTarget::Teleporter => self.parse_system_arg(FTLAction::PowerTeleporter, arg),
            FTLTarget::Cloaking => self.parse_startable_system_arg(
                FTLAction::ActivateCloaking,
                FTLAction::PowerCloaking,
                arg,
            ),
            FTLTarget::MindControl => self.parse_system_arg(FTLAction::PowerMindControl, arg),
            FTLTarget::Hacking => self.parse_startable_system_arg(
                FTLAction::StartHacking,
                FTLAction::PowerHacking,
                arg,
            ),
            FTLTarget::ArtilleryBeam => self.parse_system_arg(FTLAction::PowerArtilleryBeam, arg),
            FTLTarget::Event => self.parse_event_arg(arg),
            FTLTarget::WeaponControl => self.parse_weapon_arg(arg),
            FTLTarget::DroneControl => self.parse_drone_arg(arg),
            FTLTarget::Doors => self.parse_doors_arg(arg),
            FTLTarget::BackupBattery => Ok(FTLAction::ActivateBattery),
        }
    }

    /// Accepts `action` when the argument is a power level.
    pub fn parse_system_arg(&self, action: FTLAction, arg: Option<&[char]>) -> (r: Result<
        FTLAction,
        &'static str,
    >)
        ensures
            match r {
                Ok(a) => power_action(action, arg_view(arg)) == Some(a),
                Err(_) => power_action(action, arg_view(arg)) is None,
            },
    {
        let power_err = "System power allocation must be accompanied by an integer whose absolute value is in the range [1, 8].";
        match FTLUtils::read_count(arg) {
            Some(i) => if (-8 <= i && i <= -1) || (1 <= i && i <= 8) {
                Ok(action)
            } else {
                Err(power_err)
            },
            None => Err(power_err),
        }
    }

    /// Starts the system without an argument; with one, accepts `power_action`
    /// when it is a power level.
    pub fn parse_startable_system_arg(
        &self,
        start_action: FTLAction,
        power_action: FTLAction,
        arg: Option<&[char]>,
    ) -> (r: Result<FTLAction, &'static str>)
        ensures
            match r {
                Ok(a) => startable_action(start_action, power_action, arg_view(arg)) == Some(a),
                Err(_) => startable_action(start_action, power_action, arg_view(arg)) is None,
            },
    {
        match arg {
            None => Ok(start_action),
            Some(_) => self.parse_system_arg(power_action, arg),
        }
    }

    pub fn parse_event_arg(&self, arg: Option<&[char]>) -> (r: Result<FTLAction, &'static str>)
        ensures
            match r {
                Ok(a) => action_of(FTLTarget::Event, arg_view(arg)) == Some(a),
                Err(_) => action_of(FTLTarget::Event, arg_view(arg)) is None,
            },
    {
        let event_err = "Event choice must be accompanied by an integer within the range [1, 4].";
        match FTLUtils::read_count(arg) {
            Some(1) => Ok(FTLAction::EventChoice1),
            Some(2) => Ok(FTLAction::EventChoice2),
            Some(3) => Ok(FTLAction::EventChoice3),
            Some(4) => Ok(FTLAction::EventChoice4),
            _ => Err(event_err),
        }
    }

    pub fn parse_weapon_arg(&self, arg: Option<&[char]>) -> (r: Result<FTLAction, &'static str>)
        ensures
            match r {
                Ok(a) => action_of(FTLTarget::WeaponControl, arg_view(arg)) == Some(a),
                Err(_) => action_of(FTLTarget::WeaponControl, arg_view(arg)) is None,
            },
    {
        let weapon_err = "Weapon control must be accompanied by an integer within the range [1, 4].";
        match FTLUtils::read_count(arg) {
            Some(1) => Ok(FTLAction::PowerWeapon1),
            Some(2) => Ok(FTLAction::PowerWeapon2),
            Some(3) => Ok(FTLAction::PowerWeapon3),
            Some(4) => Ok(FTLAction::PowerWeapon4),
            _ => Err(weapon_err),
        }
    }

    pub fn parse_drone_arg(&self, arg: Option<&[char]>) -> (r: Result<FTLAction, &'static str>)
        ensures
            match r {
                Ok(a) => action_of(FTLTarget::DroneControl, arg_view(arg)) == Some(a),
                Err(_) => action_of(FTLTarget::DroneControl, arg_view(arg)) is None,
            },
    {
        let drone_err = "Drone control must be accompanied by an integer within the range [1, 3].";
        match FTLUtils::read_count(arg) {
            Some(1) => Ok(FTLAction::PowerDrone1),
            Some(2) => Ok(FTLAction::PowerDrone2),
            Some(3) => Ok(FTLAction::PowerDrone3),
            _ => Err(drone_err),
        }
    }

    pub fn parse_doors_arg(&self, arg: Option<&[char]>) -> (r: Result<FTLAction, &'static str>)
        ensures
            match r {
                Ok(a) => action_of(FTLTarget::Doors, arg_view(arg)) == Some(a),
                Err(_) => action_of(FTLTarget::Doors, arg_view(arg)) is None,
            },
    {
        let doors_err = "Door control must be accompanied by either \"open\" or \"close\".";
        match arg {
            None => Err(doors_err),
            Some(a) => if chars_eq(a, "open") {
                Ok(FTLAction::OpenDoors)
            } else if chars_eq(a, "close") {
                Ok(FTLAction::CloseDoors)
            } else {
                Err(doors_err)
            },
        }
    }

    pub fn is_power_action(&self, action: &FTLAction) -> (r: bool)
        ensures
            r == is_power(*action),
    {
        match action {
            FTLAction::PowerShields | FTLAction::PowerEngines | FTLAction::PowerOxygen
            | FTLAction::PowerMedbay | FTLAction::PowerCloneBay | FTLAction::PowerTeleporter
            | FTLAction::PowerCloaking | FTLAction::PowerMindControl | FTLAction::PowerHacking
            | FTLAction::PowerArtilleryBeam => true,
            _ => false,
        }
    }

    /// Reads an FTL command: its action and its signed count.
    pub fn parse_command(&self, content: &str) -> (r: Result<FTLInput, ()>)
        ensures
            match r {
                Ok(i) => ftl_command(content@) == Some(i@),
                Err(_) => ftl_command(content@) is None,
            },
    {
        let chars = to_chars(content);
        let (cmd, arg) = split_command(chars.as_slice());
        let target = match FTLTarget::from_chars(cmd.as_slice()) {
            Ok(t) => t,
            Err(_) => return Err(()),
        };
        let arg_chars: Option<&[char]> = match &arg {
            Some(a) => Some(a.as_slice()),
            None => None,
        };
        assert(arg_view(arg_chars) == argument_of(content@));
        match self.parse_action(target, arg_chars) {
            Err(_) => Err(()),
            Ok(action) => if self.is_power_action(&action) {
                match FTLUtils::read_count(arg_chars) {
                    Some(n) => Ok(FTLInput { action, presses: n }),
                    None => Err(()),
                }
            } else {
                Ok(FTLInput { action, presses: 1 })
            },
        }
    }
}

impl MessageParser for FTLUtils {
    open spec fn parse_spec(&self, content: Seq<char>) -> Option<InputView> {
        match ftl_command(content) {
            Some((a, n)) => Some(ftl_replay(a, n)),
            None => None,
        }
    }

    fn parse_msg(&self, content: &str) -> (r: Result<KeyInput, ()>) {
        match self.parse_command(content) {
            Ok(input) => Ok(input.to_key_input()),
            Err(_) => Err(()),
        }
    }
}

impl GameFocusChecker for FTLUtils {
    open spec fn title_matches(&self, title: Seq<char>) -> bool {
        title == "FTL: Faster Than Light"@
    }

    fn game_focused(&self, title: Option<&str>) -> (r: bool) {
        match title {
            None => false,
            Some(t) => {
                let chars = to_chars(t);
                chars_eq(chars.as_slice(), "FTL: Faster Than Light")
            },
        }
    }
}

/// The power action of a ship system that takes a power level.
pub open spec fn system_power_action(t: FTLTarget) -> Option<FTLAction> {
    match t {
        FTLTarget::Shields => Some(FTLAction::PowerShields),
        FTLTarget::Engines => Some(FTLAction::PowerEngines),
        FTLTarget::Oxygen => Some(FTLAction::PowerOxygen),
        FTLTarget::Medbay => Some(FTLAction::PowerMedbay),
        FTLTarget::CloneBay => Some(FTLAction::PowerCloneBay),
        FTLTarget::Teleporter => Some(FTLAction::PowerTeleporter),
        FTLTarget::Cloaking => Some(FTLAction::PowerCloaking),
        FTLTarget::MindControl => Some(FTLAction::PowerMindControl),
        FTLTarget::Hacking => Some(FTLAction::PowerHacking),
        FTLTarget::ArtilleryBeam => Some(FTLAction::PowerArtilleryBeam),
        _ => None,
    }
}

/// The action that a startable system performs when named without an argument.
pub open spec fn system_start_action(t: FTLTarget) -> Option<FTLAction> {
    match t {
        FTLTarget::Cloaking => Some(FTLAction::ActivateCloaking),
        FTLTarget::Hacking => Some(FTLAction::StartHacking),
        _ => None,
    }
}

/// A power command whose argument is an integer `n` with `1 <= |n| <= 8`
/// parses to the system's power action with count `n`, sign included.
pub proof fn lemma_power_command_keeps_count(cmd: Seq<char>, arg: Seq<char>)
    requires
        no_space(cmd),
        target_of(cmd) is Some,
        system_power_action(target_of(cmd)->0) is Some,
        i8_of(arg) is Some,
        1 <= magnitude(i8_of(arg)->0 as int) <= 8,
    ensures
        ftl_command(cmd + seq![' '] + arg) == Some(
            (system_power_action(target_of(cmd)->0)->0, i8_of(arg)->0),
        ),
{
    lemma_numeral_starts_word(arg);
    lemma_split_joined(cmd, arg);
}

/// A power command is refused where its argument is missing, is not an `i8`
/// numeral, or is an integer whose absolute value is 0 or above 8; a
/// startable system without an argument is the one exception.
pub proof fn lemma_bad_power_command_refused(cmd: Seq<char>, arg: Seq<char>)
    requires
        no_space(cmd),
        target_of(cmd) is Some,
        system_power_action(target_of(cmd)->0) is Some,
        arg.len() > 0,
        !is_space(arg[0]),
        match i8_of(arg) {
            Some(n) => n == 0 || magnitude(n as int) > 8,
            None => true,
        },
    ensures
        ftl_command(cmd + seq![' '] + arg) is None,
        system_start_action(target_of(cmd)->0) is None ==> ftl_command(cmd) is None,
{
    lemma_split_joined(cmd, arg);
    lemma_split_word(cmd);
}

/// A startable system named without an argument starts with a count of one;
/// with a power level `n` it takes power with count `n`.
pub proof fn lemma_startable_command(cmd: Seq<char>, arg: Seq<char>)
    requires
        no_space(cmd),
        target_of(cmd) is Some,
        system_start_action(target_of(cmd)->0) is Some,
        i8_of(arg) is Some,
        1 <= magnitude(i8_of(arg)->0 as int) <= 8,
    ensures
        ftl_command(cmd) == Some((system_start_action(target_of(cmd)->0)->0, 1i8)),
        ftl_command(cmd + seq![' '] + arg) == Some(
            (system_power_action(target_of(cmd)->0)->0, i8_of(arg)->0),
        ),
{
    lemma_split_word(cmd);
    lemma_power_command_keeps_count(cmd, arg);
}

} // verus!
