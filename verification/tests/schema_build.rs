//! Tests of the schema builder: default resolution, accumulated validation,
//! and descriptor generation.

use command_schema::context::Extractor;
use command_schema::descriptor::{describe, CommandDescriptor, OptionDescriptor};
use command_schema::errors::SchemaError;
use command_schema::schema::{build, validate_length, CommandDecl, FieldDecl};
use command_schema::wire::{Bound, OptionType};

fn plain_field(name: &str, description: &str, kind: OptionType) -> FieldDecl {
    FieldDecl {
        ident: None,
        name: Some(name.to_owned()),
        description: Some(description.to_owned()),
        docs: None,
        kind,
        optional: false,
        autocomplete: false,
        min: None,
        max: None,
        extractor: None,
    }
}

fn plain_decl(name: &str, description: &str, fields: Vec<FieldDecl>) -> CommandDecl {
    CommandDecl {
        ident: "Plain".to_owned(),
        name: Some(name.to_owned()),
        version: None,
        description: Some(description.to_owned()),
        docs: None,
        fields,
    }
}

#[test]
fn validate_length_counts_characters() {
    assert!(validate_length("abcd", 1, 4));
    assert!(!validate_length("abcde", 1, 4));
    assert!(!validate_length("", 1, 4));
}

#[test]
fn build_resolves_defaults() {
    let decl = CommandDecl {
        ident: "MyCommand".to_owned(),
        name: None,
        version: None,
        description: None,
        docs: Some("Does something".to_owned()),
        fields: vec![],
    };
    let schema = build(decl).expect("valid declaration");
    // The name defaults from the identifier in snake case, the description
    // from the documentation text, and the version to 1.
    assert_eq!(schema.name, "my_command");
    assert_eq!(schema.description, "Does something");
    assert_eq!(schema.version, 1);
    assert!(schema.fields.is_empty());
}

#[test]
fn build_defaults_field_name_from_identifier() {
    let decl = CommandDecl {
        ident: "Widget".to_owned(),
        name: Some("widget".to_owned()),
        version: None,
        description: Some("A widget".to_owned()),
        docs: None,
        fields: vec![FieldDecl {
            ident: Some("BigOption".to_owned()),
            name: None,
            description: Some("A big option".to_owned()),
            docs: None,
            kind: OptionType::String,
            optional: false,
            autocomplete: false,
            min: None,
            max: None,
            extractor: None,
        }],
    };
    let schema = build(decl).expect("valid declaration");
    let descriptor = describe(&schema);
    assert_eq!(
        descriptor.options,
        vec![OptionDescriptor::String {
            name: "big_option".to_owned(),
            description: "A big option".to_owned(),
            required: true,
            autocomplete: false,
        }]
    );
}

#[test]
fn build_is_idempotent() {
    let make = || {
        plain_decl(
            "alpha",
            "The alpha command",
            vec![
                plain_field("left", "The left value", OptionType::Integer),
                plain_field("right", "The right value", OptionType::Number),
            ],
        )
    };
    let first = describe(&build(make()).expect("valid declaration"));
    let second = describe(&build(make()).expect("valid declaration"));
    assert_eq!(first, second);
}

#[test]
fn build_rejects_overlong_description() {
    let long = "x".repeat(101);
    let errs = build(plain_decl("alpha", &long, vec![])).expect_err("description too long");
    assert_eq!(errs, vec![SchemaError::CommandDescriptionLength]);
}

#[test]
fn build_rejects_overlong_name() {
    let long = "n".repeat(33);
    let errs = build(plain_decl(&long, "Fine", vec![])).expect_err("name too long");
    assert_eq!(errs, vec![SchemaError::CommandNameLength]);
}

#[test]
fn build_rejects_empty_name() {
    let errs = build(plain_decl("", "Fine", vec![])).expect_err("name empty");
    assert_eq!(errs, vec![SchemaError::CommandNameLength]);
}

#[test]
fn build_requires_some_description() {
    let decl = CommandDecl {
        ident: "Bare".to_owned(),
        name: Some("bare".to_owned()),
        version: None,
        description: None,
        docs: None,
        fields: vec![],
    };
    let errs = build(decl).expect_err("no description and no docs");
    assert_eq!(errs, vec![SchemaError::MissingCommandDescription]);
}

#[test]
fn build_accumulates_every_violation() {
    // An overlong command name, a missing command description, an overlong
    // field name, a duplicated field name and a missing field description
    // are all reported by one build, in declaration order.
    let long_name = "c".repeat(33);
    let long_field = "f".repeat(33);
    let decl = CommandDecl {
        ident: "Bad".to_owned(),
        name: Some(long_name.clone()),
        version: None,
        description: None,
        docs: None,
        fields: vec![
            plain_field(&long_field, "Fine", OptionType::String),
            plain_field("twin", "Fine", OptionType::String),
            FieldDecl {
                ident: None,
                name: Some("twin".to_owned()),
                description: None,
                docs: None,
                kind: OptionType::String,
                optional: false,
                autocomplete: false,
                min: None,
                max: None,
                extractor: None,
            },
        ],
    };
    let errs = build(decl).expect_err("many violations");
    assert_eq!(
        errs,
        vec![
            SchemaError::CommandNameLength,
            SchemaError::MissingCommandDescription,
            SchemaError::FieldNameLength { field: long_field },
            SchemaError::DuplicateFieldName { field: "twin".to_owned() },
            SchemaError::MissingFieldDescription { field: "twin".to_owned() },
        ]
    );
}

#[test]
fn build_reports_unresolvable_field_name_by_position() {
    let decl = plain_decl(
        "alpha",
        "Fine",
        vec![FieldDecl {
            ident: None,
            name: None,
            description: Some("Fine".to_owned()),
            docs: None,
            kind: OptionType::String,
            optional: false,
            autocomplete: false,
            min: None,
            max: None,
            extractor: None,
        }],
    );
    let errs = build(decl).expect_err("field has neither name nor identifier");
    assert_eq!(errs, vec![SchemaError::MissingFieldName { index: 0 }]);
}

#[test]
fn build_rejects_overlong_field_description() {
    let long = "d".repeat(101);
    let decl = plain_decl("alpha", "Fine", vec![plain_field("opt", &long, OptionType::String)]);
    let errs = build(decl).expect_err("field description too long");
    assert_eq!(errs, vec![SchemaError::FieldDescriptionLength { field: "opt".to_owned() }]);
}

#[test]
fn describe_skips_implicit_fields_and_keeps_order() {
    let decl = CommandDecl {
        ident: "Mixed".to_owned(),
        name: Some("mixed".to_owned()),
        version: Some(3),
        description: Some("Mixed fields".to_owned()),
        docs: None,
        fields: vec![
            FieldDecl {
                ident: Some("user".to_owned()),
                name: Some("user".to_owned()),
                description: None,
                docs: None,
                kind: OptionType::User,
                optional: false,
                autocomplete: false,
                min: None,
                max: None,
                extractor: Some(Extractor::InvokingUser),
            },
            plain_field("first", "The first", OptionType::String),
            plain_field("second", "The second", OptionType::Channel),
        ],
    };
    let schema = build(decl).expect("valid declaration");
    let descriptor = describe(&schema);
    assert_eq!(
        descriptor,
        CommandDescriptor {
            name: "mixed".to_owned(),
            description: "Mixed fields".to_owned(),
            version: 3,
            options: vec![
                OptionDescriptor::String {
                    name: "first".to_owned(),
                    description: "The first".to_owned(),
                    required: true,
                    autocomplete: false,
                },
                OptionDescriptor::Channel {
                    name: "second".to_owned(),
                    description: "The second".to_owned(),
                    required: true,
                },
            ],
        }
    );
}

#[test]
fn describe_numeric_options_carry_bounds() {
    let min = Bound::Int(0);
    let max = Bound::NumberBits(9.5f64.to_bits());
    let decl = plain_decl(
        "bounded",
        "Bounded numbers",
        vec![FieldDecl {
            ident: None,
            name: Some("level".to_owned()),
            description: Some("The level".to_owned()),
            docs: None,
            kind: OptionType::Number,
            optional: true,
            autocomplete: true,
            min: Some(min),
            max: Some(max),
            extractor: None,
        }],
    );
    let schema = build(decl).expect("valid declaration");
    let descriptor = describe(&schema);
    // The optional wrapper forces `required` to false while delegating the
    // other metadata.
    assert_eq!(
        descriptor.options,
        vec![OptionDescriptor::Number {
            name: "level".to_owned(),
            description: "The level".to_owned(),
            required: false,
            autocomplete: true,
            min_value: Some(Bound::Int(0)),
            max_value: Some(Bound::NumberBits(9.5f64.to_bits())),
        }]
    );
    match &descriptor.options[0] {
        OptionDescriptor::Number { max_value: Some(Bound::NumberBits(bits)), .. } => {
            assert_eq!(f64::from_bits(*bits), 9.5);
        },
        other => panic!("unexpected fragment: {other:?}"),
    }
}
