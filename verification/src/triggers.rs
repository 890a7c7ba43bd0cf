//! The triggers that reach the overlay from outside the focus pipeline: the
//! tray's menu and the global hotkey.

use vstd::prelude::*;
use crate::machine::Command;

verus! {

/// The key combination that toggles the overlay from anywhere on the system.
pub const TOGGLE_SHORTCUT: &'static str = "CmdOrCtrl+Shift+K";

/// The name of the event that asks the vault to lock.
pub const LOCK_EVENT: &'static str = "vault:lock";

/// The label of the window that is the overlay.
pub const OVERLAY_WINDOW: &'static str = "overlay";

/// An entry of the tray's menu.
#[derive(Clone, Copy, Debug, PartialEq, Eq, Structural)]
pub enum TrayCommand {
    Open,
    Lock,
    Quit,
}

/// What the host does for a tray command.
#[derive(Clone, Copy, Debug, PartialEq, Eq, Structural)]
pub enum TrayEffect {
    /// Hand the command to the overlay's state machine.
    Overlay(Command),
    /// Ask the vault to lock.
    LockVault,
    /// End the process.
    Exit,
}

/// Whether the hotkey went down or came up.
#[derive(Clone, Copy, Debug, PartialEq, Eq, Structural)]
pub enum KeyState {
    Pressed,
    Released,
}

/// The tray command that a menu id stands for, if any.
pub open spec fn decode_spec(id: Seq<char>) -> Option<TrayCommand> {
    if id == "open"@ {
        Some(TrayCommand::Open)
    } else if id == "lock"@ {
        Some(TrayCommand::Lock)
    } else if id == "quit"@ {
        Some(TrayCommand::Quit)
    } else {
        None
    }
}

impl TrayCommand {
    /// Decodes the id of a menu event. An id that names no entry gives
    /// `None`, and the event is ignored.
    pub fn decode(id: &str) -> (command: Option<TrayCommand>)
        ensures
            command == decode_spec(id@),
    {
        proof {
            reveal_strlit("open");
            reveal_strlit("lock");
            reveal_strlit("quit");
        }
        if id.unicode_len() != 4 {
            return None;
        }
        let c0 = id.get_char(0);
        let c1 = id.get_char(1);
        let c2 = id.get_char(2);
        let c3 = id.get_char(3);
        if c0 == 'o' && c1 == 'p' && c2 == 'e' && c3 == 'n' {
            assert(id@ =~= "open"@);
            Some(TrayCommand::Open)
        } else if c0 == 'l' && c1 == 'o' && c2 == 'c' && c3 == 'k' {
            assert(id@ =~= "lock"@);
            Some(TrayCommand::Lock)
        } else if c0 == 'q' && c1 == 'u' && c2 == 'i' && c3 == 't' {
            assert(id@ =~= "quit"@);
            Some(TrayCommand::Quit)
        } else {
            None
        }
    }

    /// The id under which the entry stands in the menu.
    pub fn id(self) -> (id: &'static str)
        ensures
            decode_spec(id@) == Some(self),
    {
        proof {
            reveal_strlit("open");
            reveal_strlit("lock");
            reveal_strlit("quit");
            assert("open"@[0] == 'o' && "lock"@[0] == 'l' && "quit"@[0] == 'q');
        }
        match self {
            TrayCommand::Open => "open",
            TrayCommand::Lock => "lock",
            TrayCommand::Quit => "quit",
        }
    }

    /// The text that the menu shows for the entry.
    pub fn label(self) -> (label: &'static str)
        ensures
            label@ == (match self {
                TrayCommand::Open => "Open Keynest"@,
                TrayCommand::Lock => "Lock Vault"@,
                TrayCommand::Quit => "Quit"@,
            }),
    {
        match self {
            TrayCommand::Open => "Open Keynest",
            TrayCommand::Lock => "Lock Vault",
            TrayCommand::Quit => "Quit",
        }
    }

    /// What the entry does: `Open` is a command to the overlay, on the
    /// monitor `monitor` that the overlay's window is on; the two others are
    /// handed on to the vault and to the process.
    pub open spec fn effect_spec(self, monitor: u32) -> TrayEffect {
        match self {
            TrayCommand::Open => TrayEffect::Overlay(Command::Open { monitor }),
            TrayCommand::Lock => TrayEffect::LockVault,
            TrayCommand::Quit => TrayEffect::Exit,
        }
    }

    #[verifier::when_used_as_spec(effect_spec)]
    pub fn effect(self, monitor: u32) -> (effect: TrayEffect)
        ensures
            effect == self.effect_spec(monitor),
    {
        match self {
            TrayCommand::Open => TrayEffect::Overlay(Command::Open { monitor }),
            TrayCommand::Lock => TrayEffect::LockVault,
            TrayCommand::Quit => TrayEffect::Exit,
        }
    }
}

/// The command that a hotkey event stands for: pressing the combination
/// toggles the overlay, releasing it does nothing.
pub open spec fn hotkey_command_spec(state: KeyState, monitor: u32) -> Option<Command> {
    match state {
        KeyState::Pressed => Some(Command::Toggle { monitor }),
        KeyState::Released => None,
    }
}

#[verifier::when_used_as_spec(hotkey_command_spec)]
pub fn hotkey_command(state: KeyState, monitor: u32) -> (command: Option<Command>)
    ensures
        command == hotkey_command_spec(state, monitor),
{
    match state {
        KeyState::Pressed => Some(Command::Toggle { monitor }),
        KeyState::Released => None,
    }
}

} // verus!
