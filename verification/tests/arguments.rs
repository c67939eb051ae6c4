use under_dev::args::{parse_arguments, ArgExpr, AssignedValue};
use under_dev::batch::{parse_batch_header, BatchDefault, Token};
use under_dev::error::StubError;

fn lit(s: &str) -> ArgExpr {
    ArgExpr::Literal(s.to_string())
}

fn assign(key: &str, value: AssignedValue) -> ArgExpr {
    ArgExpr::Assignment { key: key.to_string(), value }
}

fn word(s: &str) -> Token {
    Token::Word(s.to_string())
}

#[test]
fn no_arguments_give_the_default() {
    let a = parse_arguments(&vec![]).unwrap();
    assert_eq!(a.comment, "");
    assert!(!a.is_ffi);
}

#[test]
fn lone_literal_sets_comment_only() {
    let a = parse_arguments(&vec![lit("Need to check EINVAL")]).unwrap();
    assert_eq!(a.comment, "Need to check EINVAL");
    assert!(!a.is_ffi);
}

#[test]
fn flag_matches_its_literal() {
    let t = parse_arguments(&vec![assign("ffi", AssignedValue::Boolean(true))]).unwrap();
    assert!(t.is_ffi);
    assert_eq!(t.comment, "");
    let f = parse_arguments(&vec![assign("ffi", AssignedValue::Boolean(false))]).unwrap();
    assert!(!f.is_ffi);
}

#[test]
fn order_of_comment_and_flag_does_not_matter() {
    let a = parse_arguments(&vec![lit("c"), assign("ffi", AssignedValue::Boolean(true))]).unwrap();
    let b = parse_arguments(&vec![assign("ffi", AssignedValue::Boolean(true)), lit("c")]).unwrap();
    assert_eq!(a.comment, "c");
    assert_eq!(b.comment, "c");
    assert!(a.is_ffi);
    assert!(b.is_ffi);
}

#[test]
fn last_flag_and_last_comment_win() {
    let a = parse_arguments(&vec![
        assign("ffi", AssignedValue::Boolean(true)),
        lit("first"),
        assign("ffi", AssignedValue::Boolean(false)),
        lit("second"),
    ])
    .unwrap();
    assert!(!a.is_ffi);
    assert_eq!(a.comment, "second");
}

#[test]
fn number_argument_is_malformed() {
    let r = parse_arguments(&vec![ArgExpr::Other]);
    assert_eq!(r.unwrap_err(), StubError::MalformedArgument { index: 0 });
}

#[test]
fn assignment_to_another_key_is_malformed() {
    let r = parse_arguments(&vec![lit("ok"), assign("mode", AssignedValue::Boolean(true))]);
    assert_eq!(r.unwrap_err(), StubError::MalformedArgument { index: 1 });
}

#[test]
fn flag_without_boolean_is_invalid() {
    let r = parse_arguments(&vec![
        assign("ffi", AssignedValue::Boolean(true)),
        lit("x"),
        assign("ffi", AssignedValue::Other),
    ]);
    assert_eq!(r.unwrap_err(), StubError::InvalidFfiValue { index: 2 });
}

#[test]
fn first_rejected_argument_decides() {
    let r = parse_arguments(&vec![assign("ffi", AssignedValue::Other), ArgExpr::Other]);
    assert_eq!(r.unwrap_err(), StubError::InvalidFfiValue { index: 0 });
    let r = parse_arguments(&vec![ArgExpr::Other, assign("ffi", AssignedValue::Other)]);
    assert_eq!(r.unwrap_err(), StubError::MalformedArgument { index: 0 });
}

#[test]
fn batch_without_header() {
    let r = parse_batch_header(&vec![word("pub"), word("fn"), word("f1"), Token::Other]);
    assert_eq!(r, Ok(BatchDefault { is_ffi: false, consumed: 0 }));
    assert_eq!(parse_batch_header(&vec![]), Ok(BatchDefault { is_ffi: false, consumed: 0 }));
    assert_eq!(
        parse_batch_header(&vec![word("ffi")]),
        Ok(BatchDefault { is_ffi: false, consumed: 0 })
    );
}

#[test]
fn batch_header_with_comma() {
    let r = parse_batch_header(&vec![
        word("ffi"),
        Token::Punct('='),
        word("true"),
        Token::Punct(','),
        word("fn"),
    ]);
    assert_eq!(r, Ok(BatchDefault { is_ffi: true, consumed: 4 }));
}

#[test]
fn batch_header_without_comma() {
    let r = parse_batch_header(&vec![word("ffi"), Token::Punct('='), word("false"), word("fn")]);
    assert_eq!(r, Ok(BatchDefault { is_ffi: false, consumed: 3 }));
    let r = parse_batch_header(&vec![word("ffi"), Token::Punct('='), word("true")]);
    assert_eq!(r, Ok(BatchDefault { is_ffi: true, consumed: 3 }));
}

#[test]
fn batch_header_with_other_name_is_unexpected() {
    let r = parse_batch_header(&vec![
        word("mode"),
        Token::Punct('='),
        word("true"),
        Token::Punct(','),
    ]);
    assert_eq!(r, Err(StubError::UnexpectedBatchHeader));
}

#[test]
fn batch_header_without_boolean_is_invalid() {
    let r = parse_batch_header(&vec![word("ffi"), Token::Punct('='), Token::Other]);
    assert_eq!(r, Err(StubError::InvalidFfiValue { index: 0 }));
    let r = parse_batch_header(&vec![word("ffi"), Token::Punct('='), word("yes")]);
    assert_eq!(r, Err(StubError::InvalidFfiValue { index: 0 }));
    let r = parse_batch_header(&vec![word("ffi"), Token::Punct('=')]);
    assert_eq!(r, Err(StubError::InvalidFfiValue { index: 0 }));
}

#[test]
fn only_the_missing_destination_is_survivable() {
    assert!(StubError::MalformedArgument { index: 0 }.is_fatal());
    assert!(StubError::InvalidFfiValue { index: 0 }.is_fatal());
    assert!(StubError::UnexpectedBatchHeader.is_fatal());
    assert!(StubError::AuditWriteFailure.is_fatal());
    assert!(!StubError::AuditDestinationUnavailable.is_fatal());
}
