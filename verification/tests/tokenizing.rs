use cli_snap::tokenize_command;

#[test]
fn splits_program_and_arguments() {
    let inv = tokenize_command(&"echo A".to_string()).expect("plain command tokenizes");
    assert_eq!(inv.program, "echo");
    assert_eq!(inv.args, vec!["A".to_string()]);
}

#[test]
fn respects_shell_quoting() {
    let inv = tokenize_command(&"grep 'a b'  c".to_string()).expect("quoted command tokenizes");
    assert_eq!(inv.program, "grep");
    assert_eq!(inv.args, vec!["a b".to_string(), "c".to_string()]);
}

#[test]
fn unterminated_quote_is_a_tokenize_failure() {
    assert!(tokenize_command(&"'abc".to_string()).is_none());
}

#[test]
fn blank_command_yields_no_program() {
    assert!(tokenize_command(&String::new()).is_none());
    assert!(tokenize_command(&"   ".to_string()).is_none());
}

#[test]
fn comment_only_command_yields_no_program() {
    assert!(tokenize_command(&"# just a comment".to_string()).is_none());
}
