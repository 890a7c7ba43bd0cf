use keynest::machine::Command;
use keynest::triggers::{
    hotkey_command, KeyState, TrayCommand, TrayEffect, LOCK_EVENT, OVERLAY_WINDOW, TOGGLE_SHORTCUT,
};

#[test]
fn menu_ids_are_decoded() {
    assert_eq!(TrayCommand::decode("open"), Some(TrayCommand::Open));
    assert_eq!(TrayCommand::decode("lock"), Some(TrayCommand::Lock));
    assert_eq!(TrayCommand::decode("quit"), Some(TrayCommand::Quit));
}

#[test]
fn unknown_menu_ids_are_ignored() {
    assert_eq!(TrayCommand::decode(""), None);
    assert_eq!(TrayCommand::decode("Open"), None);
    assert_eq!(TrayCommand::decode("opens"), None);
    assert_eq!(TrayCommand::decode("ope"), None);
    assert_eq!(TrayCommand::decode("lick"), None);
    assert_eq!(TrayCommand::decode("quiz"), None);
    assert_eq!(TrayCommand::decode("öpen"), None);
    assert_eq!(TrayCommand::decode("löck"), None);
}

#[test]
fn menu_entries_have_their_ids_and_labels() {
    assert_eq!(TrayCommand::Open.id(), "open");
    assert_eq!(TrayCommand::Lock.id(), "lock");
    assert_eq!(TrayCommand::Quit.id(), "quit");
    assert_eq!(TrayCommand::Open.label(), "Open Keynest");
    assert_eq!(TrayCommand::Lock.label(), "Lock Vault");
    assert_eq!(TrayCommand::Quit.label(), "Quit");
}

#[test]
fn menu_entries_have_their_effects() {
    assert_eq!(TrayCommand::Open.effect(3), TrayEffect::Overlay(Command::Open { monitor: 3 }));
    assert_eq!(TrayCommand::Lock.effect(3), TrayEffect::LockVault);
    assert_eq!(TrayCommand::Quit.effect(3), TrayEffect::Exit);
}

#[test]
fn pressing_the_hotkey_toggles() {
    assert_eq!(hotkey_command(KeyState::Pressed, 2), Some(Command::Toggle { monitor: 2 }));
    assert_eq!(hotkey_command(KeyState::Released, 2), None);
}

#[test]
fn names_shared_with_the_host() {
    assert_eq!(TOGGLE_SHORTCUT, "CmdOrCtrl+Shift+K");
    assert_eq!(LOCK_EVENT, "vault:lock");
    assert_eq!(OVERLAY_WINDOW, "overlay");
}
