//! Tests of the concrete commands and the dispatch table.

use command_schema::commands::{
    commands, done_schema, task_schema, DoneCommand, TaskCommand, TodoCommand,
};
use command_schema::context::Context;
use command_schema::descriptor::describe;
use command_schema::errors::{CommandError, Error, OptionError};
use command_schema::parser::{Invocation, InvocationOption};
use command_schema::wire::{OptionType, WireValue};

fn member_context(user: u64) -> Context {
    Context { member_user: Some(user), user: None }
}

fn task_invocation(options: Vec<InvocationOption>, context: Context) -> Invocation {
    Invocation { name: "task".to_owned(), options, context }
}

#[test]
fn task_invocation_succeeds() {
    let inv = task_invocation(
        vec![InvocationOption {
            name: "task".to_owned(),
            value: WireValue::String("buy milk".to_owned()),
        }],
        member_context(7),
    );
    let cmd = TodoCommand::parse(inv).expect("well-formed invocation");
    assert_eq!(cmd, TodoCommand::Task(TaskCommand { user: 7, task: "buy milk".to_owned() }));
}

#[test]
fn task_invocation_missing_option() {
    let inv = task_invocation(vec![], member_context(7));
    let err = TodoCommand::parse(inv).expect_err("task option is missing");
    assert_eq!(
        err,
        Error::CommandError {
            command: "task".to_owned(),
            error: CommandError::ExplicitOption {
                option: "task".to_owned(),
                error: OptionError::Missing,
            },
        }
    );
}

#[test]
fn task_invocation_wrong_type() {
    let inv = task_invocation(
        vec![InvocationOption { name: "task".to_owned(), value: WireValue::Integer(5) }],
        member_context(7),
    );
    let err = TodoCommand::parse(inv).expect_err("task option has the wrong tag");
    assert_eq!(
        err,
        Error::CommandError {
            command: "task".to_owned(),
            error: CommandError::ExplicitOption {
                option: "task".to_owned(),
                error: OptionError::InvalidType {
                    expected: OptionType::String,
                    actual: OptionType::Integer,
                },
            },
        }
    );
}

#[test]
fn implicit_extraction_failure_aborts_first() {
    // The context serves no identity, and the explicit option is also of the
    // wrong tag: the parse aborts on the implicit field without evaluating
    // the explicit one.
    let inv = task_invocation(
        vec![InvocationOption { name: "task".to_owned(), value: WireValue::Integer(5) }],
        Context { member_user: None, user: None },
    );
    let err = TodoCommand::parse(inv).expect_err("no identity in the context");
    assert_eq!(
        err,
        Error::CommandError {
            command: "task".to_owned(),
            error: CommandError::ImplicitOption {
                option: "user".to_owned(),
                error: OptionError::Missing,
            },
        }
    );
}

#[test]
fn implicit_extraction_uses_top_level_user() {
    let inv = task_invocation(
        vec![InvocationOption {
            name: "task".to_owned(),
            value: WireValue::String("water plants".to_owned()),
        }],
        Context { member_user: None, user: Some(41) },
    );
    let cmd = TodoCommand::parse(inv).expect("top-level user serves the identity");
    assert_eq!(cmd, TodoCommand::Task(TaskCommand { user: 41, task: "water plants".to_owned() }));
}

#[test]
fn done_invocation_succeeds() {
    let inv = Invocation {
        name: "done".to_owned(),
        options: vec![InvocationOption { name: "task".to_owned(), value: WireValue::Integer(3) }],
        context: member_context(9),
    };
    let cmd = TodoCommand::parse(inv).expect("well-formed invocation");
    assert_eq!(cmd, TodoCommand::Done(DoneCommand { user: 9, task: 3 }));
}

#[test]
fn done_invocation_wrong_type() {
    let inv = Invocation {
        name: "done".to_owned(),
        options: vec![InvocationOption {
            name: "task".to_owned(),
            value: WireValue::String("three".to_owned()),
        }],
        context: member_context(9),
    };
    let err = TodoCommand::parse(inv).expect_err("index option has the wrong tag");
    assert_eq!(
        err,
        Error::CommandError {
            command: "done".to_owned(),
            error: CommandError::ExplicitOption {
                option: "task".to_owned(),
                error: OptionError::InvalidType {
                    expected: OptionType::Integer,
                    actual: OptionType::String,
                },
            },
        }
    );
}

#[test]
fn unknown_command_is_invalid() {
    let inv = Invocation {
        name: "frobnicate".to_owned(),
        options: vec![],
        context: member_context(1),
    };
    let err = TodoCommand::parse(inv).expect_err("no such command");
    assert_eq!(err, Error::InvalidCommand("frobnicate".to_owned()));
}

#[test]
fn registration_descriptors_cover_both_commands() {
    let all = commands();
    assert_eq!(all.len(), 2);
    assert_eq!(all[0], describe(&task_schema()));
    assert_eq!(all[1], describe(&done_schema()));
    assert_eq!(all[0].name, "task");
    assert_eq!(all[0].description, "Add a task to the todo list");
    assert_eq!(all[0].version, 2);
    // The implicit user field is invisible to the platform: one option each.
    assert_eq!(all[0].options.len(), 1);
    assert_eq!(all[1].name, "done");
    assert_eq!(all[1].description, "Mark a task as done");
    assert_eq!(all[1].version, 1);
    assert_eq!(all[1].options.len(), 1);
}
