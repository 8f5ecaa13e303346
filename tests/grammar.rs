use cktap_cli::grammar::{parse_command, ArgError, CardKind, Command, SatsCommand, TapCommand};

fn words(ws: &[&str]) -> Vec<String> {
    ws.iter().map(|w| w.to_string()).collect()
}

fn tap_path(ws: &[&str]) -> Result<Vec<u32>, ArgError> {
    match parse_command(CardKind::TapSigner, &words(ws)) {
        Ok(Command::Tap(TapCommand::Derive { path })) => Ok(path),
        Ok(Command::Tap(TapCommand::Sign { path })) => Ok(path),
        Ok(other) => panic!("unexpected command {:?}", other),
        Err(e) => Err(e),
    }
}

#[test]
fn sats_commands_parse() {
    let cases = [
        ("status", SatsCommand::Status),
        ("address", SatsCommand::Address),
        ("verify-certificate", SatsCommand::VerifyCertificate),
        ("read-pubkey", SatsCommand::ReadPubkey),
        ("new-slot", SatsCommand::NewSlot),
        ("unseal", SatsCommand::Unseal),
        ("derive", SatsCommand::Derive),
        ("sign", SatsCommand::Sign),
    ];
    for (name, expected) in cases {
        match parse_command(CardKind::SatsCard, &words(&[name])) {
            Ok(Command::Sats(c)) => assert_eq!(c, expected),
            other => panic!("{} gave {:?}", name, other),
        }
    }
}

#[test]
fn tap_commands_parse() {
    assert!(matches!(
        parse_command(CardKind::TapSigner, &words(&["status"])),
        Ok(Command::Tap(TapCommand::Status))
    ));
    assert!(matches!(
        parse_command(CardKind::TapSigner, &words(&["verify-certificate"])),
        Ok(Command::Tap(TapCommand::VerifyCertificate))
    ));
    assert!(matches!(
        parse_command(CardKind::TapSigner, &words(&["read-pubkey"])),
        Ok(Command::Tap(TapCommand::ReadPubkey))
    ));
    assert!(matches!(
        parse_command(CardKind::TapSigner, &words(&["init"])),
        Ok(Command::Tap(TapCommand::Init))
    ));
}

#[test]
fn other_personality_commands_are_rejected() {
    assert_eq!(
        parse_command(CardKind::SatsCard, &words(&["init"])).err(),
        Some(ArgError::UnknownCommand)
    );
    for name in ["address", "new-slot", "unseal"] {
        assert_eq!(
            parse_command(CardKind::TapSigner, &words(&[name])).err(),
            Some(ArgError::UnknownCommand)
        );
    }
    assert_eq!(
        parse_command(CardKind::SatsCard, &words(&["debug"])).err(),
        Some(ArgError::UnknownCommand)
    );
}

#[test]
fn missing_and_extra_words() {
    assert_eq!(parse_command(CardKind::SatsCard, &words(&[])).err(), Some(ArgError::MissingCommand));
    assert_eq!(
        parse_command(CardKind::SatsCard, &words(&["status", "now"])).err(),
        Some(ArgError::UnexpectedArgument)
    );
    assert_eq!(
        parse_command(CardKind::SatsCard, &words(&["derive", "--path", "1"])).err(),
        Some(ArgError::UnexpectedArgument)
    );
    assert_eq!(
        parse_command(CardKind::TapSigner, &words(&["init", "x"])).err(),
        Some(ArgError::UnexpectedArgument)
    );
}

#[test]
fn derive_path_comma_list() {
    assert_eq!(tap_path(&["derive", "--path", "84,0,0"]), Ok(vec![84, 0, 0]));
    assert_eq!(tap_path(&["sign", "-p", "84,0,0"]), Ok(vec![84, 0, 0]));
}

#[test]
fn derive_path_separate_values_and_repeated_flag() {
    assert_eq!(tap_path(&["derive", "-p", "84", "0", "0"]), Ok(vec![84, 0, 0]));
    assert_eq!(tap_path(&["derive", "--path", "84", "--path", "1,2"]), Ok(vec![84, 1, 2]));
}

#[test]
fn empty_path_is_master_key() {
    assert_eq!(tap_path(&["derive"]), Ok(vec![]));
    assert_eq!(tap_path(&["sign"]), Ok(vec![]));
}

#[test]
fn path_bounds() {
    assert_eq!(tap_path(&["derive", "-p", "4294967295"]), Ok(vec![4294967295]));
    assert_eq!(tap_path(&["derive", "-p", "007"]), Ok(vec![7]));
    assert_eq!(tap_path(&["derive", "-p", "4294967296"]), Err(ArgError::BadPathIndex));
}

#[test]
fn non_numeric_path_rejected() {
    assert_eq!(tap_path(&["derive", "--path", "84,x,0"]), Err(ArgError::BadPathIndex));
    assert_eq!(tap_path(&["sign", "--path", "84h"]), Err(ArgError::BadPathIndex));
    assert_eq!(tap_path(&["derive", "--path", "84,,0"]), Err(ArgError::BadPathIndex));
    assert_eq!(tap_path(&["derive", "--path", "84,"]), Err(ArgError::BadPathIndex));
    assert_eq!(tap_path(&["derive", "--path", ""]), Err(ArgError::BadPathIndex));
}

#[test]
fn malformed_path_options() {
    assert_eq!(tap_path(&["derive", "--path"]), Err(ArgError::MissingPathValue));
    assert_eq!(tap_path(&["derive", "--path", "--path", "1"]), Err(ArgError::MissingPathValue));
    assert_eq!(tap_path(&["derive", "84"]), Err(ArgError::UnexpectedArgument));
    assert_eq!(tap_path(&["derive", "--depth", "1"]), Err(ArgError::UnexpectedArgument));
    assert_eq!(tap_path(&["derive", "-p", "1", "-5"]), Err(ArgError::UnexpectedArgument));
}
