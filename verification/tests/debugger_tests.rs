use rusty_boy::debugger::dbglanguage::{
    parse_Input, parse_Number, parse_input_checked, parse_number_checked, DbgParseError, TokenSpan,
};
use rusty_boy::debugger::language::{parse_debug_language, DebuggerAction, ShowableThing};

#[test]
fn number_test() {
    assert!(parse_Number("12").is_ok());
    assert!(parse_Number("-02").is_ok());
}

#[test]
fn hexnumber_test() {
    assert!(parse_Number("0x12").is_ok());
}

#[test]
fn number_values() {
    assert_eq!(parse_Number("12"), Ok(12));
    assert_eq!(parse_Number("-02"), Ok(-2));
    assert_eq!(parse_Number("0x12"), Ok(0x12));
    assert_eq!(parse_Number("  0XfF  "), Ok(255));
    assert_eq!(parse_Number("-2147483648"), Ok(i32::MIN));
    assert_eq!(parse_Number("2147483647"), Ok(i32::MAX));
}

#[test]
fn number_errors() {
    assert_eq!(parse_Number(""), Err(DbgParseError::UnrecognizedToken { token: None }));
    assert_eq!(parse_Number("x"), Err(DbgParseError::InvalidToken { location: 0 }));
    assert_eq!(
        parse_Number("1 2"),
        Err(DbgParseError::UnrecognizedToken {
            token: Some(TokenSpan { start: 2, terminal: 17, end: 3 })
        })
    );
    assert_eq!(
        parse_Number("step"),
        Err(DbgParseError::UnrecognizedToken {
            token: Some(TokenSpan { start: 0, terminal: 13, end: 4 })
        })
    );
}

#[test]
fn input_commands() {
    assert_eq!(parse_Input("step"), Ok(DebuggerAction::Step));
    assert_eq!(parse_Input(" run "), Ok(DebuggerAction::Run));
    assert_eq!(parse_Input("reset"), Ok(DebuggerAction::Reset));
    assert_eq!(parse_Input("watch 0xC000"), Ok(DebuggerAction::WatchPoint { addr: 0xC000 }));
    assert_eq!(parse_Input("unwatch 10"), Ok(DebuggerAction::UnwatchPoint { addr: 10 }));
    assert_eq!(
        parse_Input("set\\tbreakpoint 0x150"),
        Ok(DebuggerAction::SetBreakPoint { addr: 0x150 })
    );
    assert_eq!(
        parse_Input("unset \\t breakpoint (0x100 + 0x50)"),
        Ok(DebuggerAction::UnsetBreakPoint { addr: 0x150 })
    );
    assert_eq!(parse_Input("watch 0x10000"), Ok(DebuggerAction::WatchPoint { addr: 0 }));
}

#[test]
fn input_expressions() {
    assert_eq!(parse_Input("1 + 2 * 3"), Ok(DebuggerAction::Echo { str: "7".to_string() }));
    assert_eq!(parse_Input("(1 + 2) * 3"), Ok(DebuggerAction::Echo { str: "9".to_string() }));
    assert_eq!(parse_Input("7 / 2 % 3"), Ok(DebuggerAction::Echo { str: "0".to_string() }));
    assert_eq!(parse_Input("10 - 20"), Ok(DebuggerAction::Echo { str: "-10".to_string() }));
    assert_eq!(parse_Input("-5"), Ok(DebuggerAction::Echo { str: "-5".to_string() }));
    assert_eq!(parse_Input("0x10"), Ok(DebuggerAction::Echo { str: "16".to_string() }));
}

#[test]
fn input_errors() {
    assert_eq!(parse_Input("watch"), Err(DbgParseError::UnrecognizedToken { token: None }));
    assert_eq!(parse_Input("jump"), Err(DbgParseError::InvalidToken { location: 0 }));
    assert_eq!(
        parse_Input("step step"),
        Err(DbgParseError::UnrecognizedToken {
            token: Some(TokenSpan { start: 5, terminal: 13, end: 9 })
        })
    );
    assert_eq!(
        parse_Input("1-2"),
        Err(DbgParseError::UnrecognizedToken {
            token: Some(TokenSpan { start: 1, terminal: 17, end: 3 })
        })
    );
    assert_eq!(
        parse_Input("set breakpoint 1"),
        Err(DbgParseError::UnrecognizedToken {
            token: Some(TokenSpan { start: 4, terminal: 9, end: 14 })
        })
    );
    assert_eq!(parse_Input("é1"), Err(DbgParseError::InvalidToken { location: 0 }));
    assert_eq!(parse_Input("1 é"), Err(DbgParseError::InvalidToken { location: 2 }));
}

#[test]
fn checked_parsing() {
    assert_eq!(parse_number_checked("12"), Some(Ok(12)));
    assert_eq!(parse_number_checked("0x7FFFFFFF"), Some(Ok(0x7FFF_FFFF)));
    assert_eq!(parse_number_checked("99999999999"), None);
    assert!(matches!(parse_number_checked("1 2"), Some(Err(_))));
    assert_eq!(
        parse_input_checked("watch 0x12"),
        Some(Ok(DebuggerAction::WatchPoint { addr: 0x12 }))
    );
    assert_eq!(parse_input_checked("2147483647 + 1"), None);
    assert_eq!(
        parse_input_checked("2147483646 + 1"),
        Some(Ok(DebuggerAction::Echo { str: "2147483647".to_string() }))
    );
}

#[test]
fn simple_language_words() {
    assert_eq!(parse_debug_language("step"), Some(DebuggerAction::Step));
    assert_eq!(parse_debug_language("stepping"), Some(DebuggerAction::Step));
    assert_eq!(parse_debug_language("reset"), Some(DebuggerAction::Reset));
    assert_eq!(parse_debug_language("run x"), Some(DebuggerAction::Run));
    // `run` alone could still become `run to`
    assert_eq!(parse_debug_language("run"), None);
    assert_eq!(parse_debug_language("res"), None);
    assert_eq!(parse_debug_language(""), None);
    assert_eq!(parse_debug_language("hello"), None);
}

#[test]
fn simple_language_addresses() {
    // an address is the two bytes after its word, little-endian
    assert_eq!(
        parse_debug_language("run to\u{34}\u{12}"),
        Some(DebuggerAction::RunToAddress { addr: 0x1234 })
    );
    assert_eq!(
        parse_debug_language("run to 5"),
        Some(DebuggerAction::RunToAddress { addr: 0x3520 })
    );
    assert_eq!(
        parse_debug_language("watch ab"),
        Some(DebuggerAction::WatchPoint { addr: 0x6261 })
    );
    assert_eq!(
        parse_debug_language("unwatch ab"),
        Some(DebuggerAction::UnwatchPoint { addr: 0x6261 })
    );
    assert_eq!(
        parse_debug_language("set breakpoint ab"),
        Some(DebuggerAction::SetBreakPoint { addr: 0x6261 })
    );
    assert_eq!(
        parse_debug_language("unset\tbreakpoint\tab"),
        Some(DebuggerAction::UnsetBreakPoint { addr: 0x6261 })
    );
    assert_eq!(parse_debug_language("watch"), None);
    assert_eq!(parse_debug_language("watchx"), None);
}

#[test]
fn simple_language_show() {
    assert_eq!(
        parse_debug_language("show breakpoints"),
        Some(DebuggerAction::Show { show: ShowableThing::Breakpoints })
    );
    assert_eq!(
        parse_debug_language("show  AB"),
        Some(DebuggerAction::Show { show: ShowableThing::Address { addr: 0x4241 } })
    );
    assert_eq!(parse_debug_language("show break"), None);
}
