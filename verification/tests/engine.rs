//! Tests of the option capability registry, the context extractors and the
//! generic invocation parser.

use command_schema::capability::{parse_option, FieldValue};
use command_schema::context::{parse_user, Context};
use command_schema::errors::{CommandError, OptionError};
use command_schema::parser::{parse, Invocation, InvocationOption};
use command_schema::schema::{build, CommandDecl, FieldDecl};
use command_schema::wire::{OptionType, WireValue};

fn explicit_field(name: &str, description: &str, kind: OptionType, optional: bool) -> FieldDecl {
    FieldDecl {
        ident: None,
        name: Some(name.to_owned()),
        description: Some(description.to_owned()),
        docs: None,
        kind,
        optional,
        autocomplete: false,
        min: None,
        max: None,
        extractor: None,
    }
}

fn invocation(name: &str, options: Vec<InvocationOption>, context: Context) -> Invocation {
    Invocation { name: name.to_owned(), options, context }
}

fn some_context() -> Context {
    Context { member_user: Some(77), user: None }
}

#[test]
fn parse_option_missing_required() {
    let r = parse_option(OptionType::String, true, None);
    assert_eq!(r, Err(OptionError::Missing));
}

#[test]
fn parse_option_matching_tag_unwraps() {
    let v = WireValue::String("buy milk".to_owned());
    let r = parse_option(OptionType::String, true, Some(&v));
    assert_eq!(r, Ok(FieldValue::Present(WireValue::String("buy milk".to_owned()))));
}

#[test]
fn parse_option_wrong_tag_reports_actual() {
    let v = WireValue::Integer(5);
    let r = parse_option(OptionType::String, true, Some(&v));
    assert_eq!(
        r,
        Err(OptionError::InvalidType {
            expected: OptionType::String,
            actual: OptionType::Integer,
        })
    );
}

#[test]
fn optional_absent_is_ok_none() {
    let r = parse_option(OptionType::Integer, false, None);
    assert_eq!(r, Ok(FieldValue::Absent));
}

#[test]
fn optional_present_round_trips() {
    let v = WireValue::Integer(42);
    let optional = parse_option(OptionType::Integer, false, Some(&v));
    let required = parse_option(OptionType::Integer, true, Some(&v));
    assert_eq!(optional, required);
    assert_eq!(optional, Ok(FieldValue::Present(WireValue::Integer(42))));
}

#[test]
fn optional_present_wrong_tag_still_fails() {
    let v = WireValue::Number(2.5f64.to_bits());
    let r = parse_option(OptionType::Integer, false, Some(&v));
    assert_eq!(
        r,
        Err(OptionError::InvalidType {
            expected: OptionType::Integer,
            actual: OptionType::Number,
        })
    );
}

#[test]
fn parse_user_prefers_member() {
    let ctx = Context { member_user: Some(1), user: Some(2) };
    assert_eq!(parse_user(&ctx), Ok(1));
}

#[test]
fn parse_user_falls_back_to_top_level() {
    let ctx = Context { member_user: None, user: Some(2) };
    assert_eq!(parse_user(&ctx), Ok(2));
}

#[test]
fn parse_user_missing_both() {
    let ctx = Context { member_user: None, user: None };
    assert_eq!(parse_user(&ctx), Err(OptionError::Missing));
}

#[test]
fn parse_walks_fields_in_order() {
    let decl = CommandDecl {
        ident: "Pair".to_owned(),
        name: Some("pair".to_owned()),
        version: None,
        description: Some("Two options".to_owned()),
        docs: None,
        fields: vec![
            explicit_field("first", "The first option", OptionType::String, false),
            explicit_field("second", "The second option", OptionType::Integer, true),
        ],
    };
    let schema = build(decl).expect("valid declaration");
    let inv = invocation(
        "pair",
        vec![
            InvocationOption { name: "second".to_owned(), value: WireValue::Integer(9) },
            InvocationOption { name: "first".to_owned(), value: WireValue::String("a".to_owned()) },
        ],
        some_context(),
    );
    let vals = parse(&schema, &inv).expect("both options served");
    assert_eq!(
        vals,
        vec![
            FieldValue::Present(WireValue::String("a".to_owned())),
            FieldValue::Present(WireValue::Integer(9)),
        ]
    );
}

#[test]
fn parse_optional_field_absent_yields_absent() {
    let decl = CommandDecl {
        ident: "Opt".to_owned(),
        name: Some("opt".to_owned()),
        version: None,
        description: Some("One optional option".to_owned()),
        docs: None,
        fields: vec![explicit_field("maybe", "May be absent", OptionType::String, true)],
    };
    let schema = build(decl).expect("valid declaration");
    let inv = invocation("opt", vec![], some_context());
    let vals = parse(&schema, &inv).expect("optional field may be absent");
    assert_eq!(vals, vec![FieldValue::Absent]);
}

#[test]
fn parse_fails_fast_on_first_missing_field() {
    let decl = CommandDecl {
        ident: "Pair".to_owned(),
        name: Some("pair".to_owned()),
        version: None,
        description: Some("Two options".to_owned()),
        docs: None,
        fields: vec![
            explicit_field("first", "The first option", OptionType::String, false),
            explicit_field("second", "The second option", OptionType::Integer, false),
        ],
    };
    let schema = build(decl).expect("valid declaration");
    // Both fields fail: `first` is absent and `second` has the wrong tag.
    // Fail-fast reports `first` alone.
    let inv = invocation(
        "pair",
        vec![InvocationOption {
            name: "second".to_owned(),
            value: WireValue::String("oops".to_owned()),
        }],
        some_context(),
    );
    let err = parse(&schema, &inv).expect_err("first option is missing");
    assert_eq!(
        err,
        CommandError::ExplicitOption { option: "first".to_owned(), error: OptionError::Missing }
    );
}

#[test]
fn parse_duplicate_option_names_first_wins() {
    let decl = CommandDecl {
        ident: "One".to_owned(),
        name: Some("one".to_owned()),
        version: None,
        description: Some("One option".to_owned()),
        docs: None,
        fields: vec![explicit_field("value", "The value", OptionType::Integer, false)],
    };
    let schema = build(decl).expect("valid declaration");
    let inv = invocation(
        "one",
        vec![
            InvocationOption { name: "value".to_owned(), value: WireValue::Integer(1) },
            InvocationOption { name: "value".to_owned(), value: WireValue::Integer(2) },
        ],
        some_context(),
    );
    let vals = parse(&schema, &inv).expect("option is served");
    assert_eq!(vals, vec![FieldValue::Present(WireValue::Integer(1))]);
}

#[test]
fn parse_reference_kinds_copy_identifiers() {
    let decl = CommandDecl {
        ident: "Refs".to_owned(),
        name: Some("refs".to_owned()),
        version: None,
        description: Some("Reference options".to_owned()),
        docs: None,
        fields: vec![
            explicit_field("who", "A user", OptionType::User, false),
            explicit_field("role", "A role", OptionType::Role, false),
            explicit_field("chan", "A channel", OptionType::Channel, false),
            explicit_field("any", "Anything mentionable", OptionType::Mentionable, false),
        ],
    };
    let schema = build(decl).expect("valid declaration");
    let inv = invocation(
        "refs",
        vec![
            InvocationOption { name: "who".to_owned(), value: WireValue::User(10) },
            InvocationOption { name: "role".to_owned(), value: WireValue::Role(11) },
            InvocationOption { name: "chan".to_owned(), value: WireValue::Channel(12) },
            InvocationOption { name: "any".to_owned(), value: WireValue::Mentionable(13) },
        ],
        some_context(),
    );
    let vals = parse(&schema, &inv).expect("all options served");
    assert_eq!(
        vals,
        vec![
            FieldValue::Present(WireValue::User(10)),
            FieldValue::Present(WireValue::Role(11)),
            FieldValue::Present(WireValue::Channel(12)),
            FieldValue::Present(WireValue::Mentionable(13)),
        ]
    );
}
