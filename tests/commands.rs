use vehicle_relay::command::{complete, parse_command, split_tokens, Command};
use vehicle_relay::error::RelayError;
use vehicle_relay::events::{EventMessage, Objects, Operations};

#[test]
fn single_token_is_missing_arguments() {
    assert_eq!(parse_command("enable"), Err(RelayError::MissingArguments));
    assert_eq!(parse_command(""), Err(RelayError::MissingArguments));
    assert_eq!(parse_command("   \n"), Err(RelayError::MissingArguments));
}

#[test]
fn unknown_operation_is_invalid_operation() {
    assert_eq!(parse_command("launch friend"), Err(RelayError::InvalidOperation));
}

#[test]
fn unknown_object_is_invalid_object() {
    assert_eq!(parse_command("enable stranger"), Err(RelayError::InvalidObject));
}

#[test]
fn issue_owner_parses() {
    let cmd = parse_command("issue owner").unwrap();
    assert_eq!(
        cmd,
        Command { operation: Operations::IssueCertificate, object: Objects::Owner, payload_source: None }
    );
    let msg = complete(cmd, None).unwrap();
    assert_eq!(msg, EventMessage::new(Operations::IssueCertificate, Objects::Owner, None));
}

#[test]
fn tokens_are_case_insensitive_and_whitespace_separated() {
    let cmd = parse_command("  DELETE\tFriend  /tmp/key.pem  extra\r\n").unwrap();
    assert_eq!(cmd.operation, Operations::Delete);
    assert_eq!(cmd.object, Objects::Friend);
    assert_eq!(cmd.payload_source, Some(b"/tmp/key.pem".to_vec()));
}

#[test]
fn split_tokens_skips_runs_of_spaces() {
    assert_eq!(split_tokens(b"  a bb\t\tccc \n"), vec![b"a".to_vec(), b"bb".to_vec(), b"ccc".to_vec()]);
    assert!(split_tokens(b" \t ").is_empty());
}

#[test]
fn payload_is_attached() {
    let cmd = parse_command("enable friend greeting.txt").unwrap();
    let msg = complete(cmd, Some(b"hi".to_vec())).unwrap();
    assert_eq!(msg.serialize(), Ok(vec![0x03, 0x02, 0x00, 0x02, b'h', b'i']));
}

#[test]
fn unreadable_payload_is_payload_read_failure() {
    let cmd = parse_command("enable friend missing.txt").unwrap();
    assert_eq!(complete(cmd, None), Err(RelayError::PayloadReadFailure));
}

#[test]
fn oversized_payload_is_rejected() {
    let cmd = parse_command("enable friend big.bin").unwrap();
    assert_eq!(complete(cmd.clone(), Some(vec![0u8; 65536])), Err(RelayError::PayloadTooLarge));
    assert!(complete(cmd, Some(vec![0u8; 65535])).is_ok());
}

#[test]
fn unicode_whitespace_separates_tokens() {
    let cmd = parse_command("enable\u{A0}owner").unwrap();
    assert_eq!(cmd.operation, Operations::Enable);
    assert_eq!(cmd.object, Objects::Owner);
    assert_eq!(cmd.payload_source, None);
    assert_eq!(parse_command("launch\u{A0}friend"), Err(RelayError::InvalidOperation));
    assert_eq!(parse_command("enable\u{A0}car"), Err(RelayError::InvalidObject));
    let cmd = parse_command("enable owner\u{A0}f").unwrap();
    assert_eq!(cmd.payload_source, Some(b"f".to_vec()));
    assert_eq!(complete(cmd, None), Err(RelayError::PayloadReadFailure));
}

#[test]
fn every_unicode_space_splits_like_split_whitespace() {
    let spaces = [
        '\t', '\n', '\u{B}', '\u{C}', '\r', ' ', '\u{85}', '\u{A0}', '\u{1680}', '\u{2000}',
        '\u{2005}', '\u{200A}', '\u{2028}', '\u{2029}', '\u{202F}', '\u{205F}', '\u{3000}',
    ];
    for c in spaces {
        let line = format!("{c}issue{c}{c}middle{c}k\u{e9}y.pem{c}");
        let expected: Vec<Vec<u8>> = line.split_whitespace().map(|t| t.as_bytes().to_vec()).collect();
        assert_eq!(split_tokens(line.as_bytes()), expected);
        assert_eq!(expected.len(), 3);
    }
    let near = "a\u{200B}b\u{2060}c\u{E9}d";
    assert_eq!(split_tokens(near.as_bytes()), vec![near.as_bytes().to_vec()]);
}
