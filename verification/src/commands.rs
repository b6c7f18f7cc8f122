//! The concrete commands: their declarations, schemas, typed results, and
//! the dispatch table that routes an invocation by command name.

use vstd::prelude::*;

use crate::capability::{FieldValue, FieldValueView};
use crate::context::Extractor;
use crate::descriptor::{describe, spec_describe, CommandDescriptor};
use crate::errors::{CommandError, CommandErrorView, Error, ErrorView};
use crate::parser::{parse, spec_parse_fields, Invocation, InvocationOptionView, InvocationView};
use crate::schema::{
    build, resolved_schema, violations, CommandDecl, CommandDeclView, CommandSchema, FieldDecl,
    FieldDeclView, FieldView,
};
use crate::wire::{OptionType, WireValue, WireValueView};

verus! {

/// The declaration of the `task` command: an implicit invoking-user field
/// and a required string field naming the task to create.
pub open spec fn task_decl_view() -> CommandDeclView {
    CommandDeclView {
        ident: "TaskCommand"@,
        name: Some("task"@),
        version: Some(2u64),
        description: None,
        docs: Some("Add a task to the todo list"@),
        fields: seq![
            FieldDeclView {
                ident: Some("user"@),
                name: Some("user"@),
                description: None,
                docs: None,
                kind: OptionType::User,
                optional: false,
                autocomplete: false,
                min: None,
                max: None,
                extractor: Some(Extractor::InvokingUser),
            },
            FieldDeclView {
                ident: Some("task"@),
                name: Some("task"@),
                description: None,
                docs: Some("The task to create"@),
                kind: OptionType::String,
                optional: false,
                autocomplete: false,
                min: None,
                max: None,
                extractor: None,
            },
        ],
    }
}

/// The declaration of the `done` command: an implicit invoking-user field
/// and a required integer field indexing the task to mark completed.
pub open spec fn done_decl_view() -> CommandDeclView {
    CommandDeclView {
        ident: "DoneCommand"@,
        name: Some("done"@),
        version: Some(1u64),
        description: None,
        docs: Some("Mark a task as done"@),
        fields: seq![
            FieldDeclView {
                ident: Some("user"@),
                name: Some("user"@),
                description: None,
                docs: None,
                kind: OptionType::User,
                optional: false,
                autocomplete: false,
                min: None,
                max: None,
                extractor: Some(Extractor::InvokingUser),
            },
            FieldDeclView {
                ident: Some("task"@),
                name: Some("task"@),
                description: None,
                docs: Some("The index of the command to mark completed"@),
                kind: OptionType::Integer,
                optional: false,
                autocomplete: false,
                min: None,
                max: None,
                extractor: None,
            },
        ],
    }
}

/// Build the `task` command's declaration.
pub fn task_decl() -> (d: CommandDecl)
    ensures
        d@ == task_decl_view(),
{
    let mut fields: Vec<FieldDecl> = Vec::new();
    fields.push(
        FieldDecl {
            ident: Some("user".to_owned()),
            name: Some("user".to_owned()),
            description: None,
            docs: None,
            kind: OptionType::User,
            optional: false,
            autocomplete: false,
            min: None,
            max: None,
            extractor: Some(Extractor::InvokingUser),
        },
    );
    fields.push(
        FieldDecl {
            ident: Some("task".to_owned()),
            name: Some("task".to_owned()),
            description: None,
            docs: Some("The task to create".to_owned()),
            kind: OptionType::String,
            optional: false,
            autocomplete: false,
            min: None,
            max: None,
            extractor: None,
        },
    );
    let d = CommandDecl {
        ident: "TaskCommand".to_owned(),
        name: Some("task".to_owned()),
        version: Some(2),
        description: None,
        docs: Some("Add a task to the todo list".to_owned()),
        fields,
    };
    proof {
        assert(d@.fields =~= task_decl_view().fields);
    }
    d
}

/// Build the `done` command's declaration.
pub fn done_decl() -> (d: CommandDecl)
    ensures
        d@ == done_decl_view(),
{
    let mut fields: Vec<FieldDecl> = Vec::new();
    fields.push(
        FieldDecl {
            ident: Some("user".to_owned()),
            name: Some("user".to_owned()),
            description: None,
            docs: None,
            kind: OptionType::User,
            optional: false,
            autocomplete: false,
            min: None,
            max: None,
            extractor: Some(Extractor::InvokingUser),
        },
    );
    fields.push(
        FieldDecl {
            ident: Some("task".to_owned()),
            name: Some("task".to_owned()),
            description: None,
            docs: Some("The index of the command to mark completed".to_owned()),
            kind: OptionType::Integer,
            optional: false,
            autocomplete: false,
            min: None,
            max: None,
            extractor: None,
        },
    );
    let d = CommandDecl {
        ident: "DoneCommand".to_owned(),
        name: Some("done".to_owned()),
        version: Some(1),
        description: None,
        docs: Some("Mark a task as done".to_owned()),
        fields,
    };
    proof {
        assert(d@.fields =~= done_decl_view().fields);
    }
    d
}

/// The `task` declaration has no violations.
proof fn lemma_task_decl_valid()
    ensures
        violations(task_decl_view()).len() == 0,
{
    let d = task_decl_view();
    reveal_strlit("task");
    reveal_strlit("user");
    reveal_strlit("Add a task to the todo list");
    reveal_strlit("The task to create");
    assert(crate::schema::header_violations(d) =~= Seq::<crate::errors::SchemaErrorView>::empty());
    assert(crate::schema::field_violations(d.fields, 0) =~= Seq::<
        crate::errors::SchemaErrorView,
    >::empty());
    assert(crate::schema::field_violations(d.fields, 1) =~= Seq::<
        crate::errors::SchemaErrorView,
    >::empty()) by {
        assert(!crate::schema::duplicate_name(d.fields, 1)) by {
            assert("user"@[0] != "task"@[0]);
        }
    }
    assert(crate::schema::fields_violations(d.fields, 0) =~= Seq::<
        crate::errors::SchemaErrorView,
    >::empty());
    assert(crate::schema::fields_violations(d.fields, 1) =~= Seq::<
        crate::errors::SchemaErrorView,
    >::empty());
    assert(crate::schema::fields_violations(d.fields, 2) =~= Seq::<
        crate::errors::SchemaErrorView,
    >::empty());
    assert(violations(d) =~= Seq::<crate::errors::SchemaErrorView>::empty());
}

/// The `done` declaration has no violations.
proof fn lemma_done_decl_valid()
    ensures
        violations(done_decl_view()).len() == 0,
{
    let d = done_decl_view();
    reveal_strlit("done");
    reveal_strlit("user");
    reveal_strlit("task");
    reveal_strlit("Mark a task as done");
    reveal_strlit("The index of the command to mark completed");
    assert(crate::schema::header_violations(d) =~= Seq::<crate::errors::SchemaErrorView>::empty());
    assert(crate::schema::field_violations(d.fields, 0) =~= Seq::<
        crate::errors::SchemaErrorView,
    >::empty());
    assert(crate::schema::field_violations(d.fields, 1) =~= Seq::<
        crate::errors::SchemaErrorView,
    >::empty()) by {
        assert(!crate::schema::duplicate_name(d.fields, 1)) by {
            assert("user"@[0] != "task"@[0]);
        }
    }
    assert(crate::schema::fields_violations(d.fields, 0) =~= Seq::<
        crate::errors::SchemaErrorView,
    >::empty());
    assert(crate::schema::fields_violations(d.fields, 1) =~= Seq::<
        crate::errors::SchemaErrorView,
    >::empty());
    assert(crate::schema::fields_violations(d.fields, 2) =~= Seq::<
        crate::errors::SchemaErrorView,
    >::empty());
    assert(violations(d) =~= Seq::<crate::errors::SchemaErrorView>::empty());
}

/// Build the `task` command's validated schema.
pub fn task_schema() -> (s: CommandSchema)
    ensures
        s@ == resolved_schema(task_decl_view()),
        s.wf(),
{
    let decl = task_decl();
    proof {
        lemma_task_decl_valid();
    }
    match build(decl) {
        Ok(s) => s,
        Err(_) => vstd::pervasive::unreached(),
    }
}

/// Build the `done` command's validated schema.
pub fn done_schema() -> (s: CommandSchema)
    ensures
        s@ == resolved_schema(done_decl_view()),
        s.wf(),
{
    let decl = done_decl();
    proof {
        lemma_done_decl_valid();
    }
    match build(decl) {
        Ok(s) => s,
        Err(_) => vstd::pervasive::unreached(),
    }
}

/// The registration descriptors of every known command, in dispatch order.
pub fn commands() -> (v: Vec<CommandDescriptor>)
    ensures
        v@.map_values(|c: CommandDescriptor| c@) == seq![
            spec_describe(resolved_schema(task_decl_view())),
            spec_describe(resolved_schema(done_decl_view())),
        ],
{
    let task = task_schema();
    let done = done_schema();
    let mut v: Vec<CommandDescriptor> = Vec::new();
    v.push(describe(&task));
    v.push(describe(&done));
    proof {
        assert(v@.map_values(|c: CommandDescriptor| c@) =~= seq![
            spec_describe(resolved_schema(task_decl_view())),
            spec_describe(resolved_schema(done_decl_view())),
        ]);
    }
    v
}

/// A parsed `task` invocation: the invoking user and the task to create.
#[derive(Debug, PartialEq, Eq)]
pub struct TaskCommand {
    pub user: u64,
    pub task: String,
}

/// The mathematical model of a [`TaskCommand`].
pub struct TaskCommandView {
    pub user: u64,
    pub task: Seq<char>,
}

impl View for TaskCommand {
    type V = TaskCommandView;

    open spec fn view(&self) -> TaskCommandView {
        TaskCommandView { user: self.user, task: self.task@ }
    }
}

/// A parsed `done` invocation: the invoking user and the index of the task
/// to mark completed.
#[derive(Debug, PartialEq, Eq)]
pub struct DoneCommand {
    pub user: u64,
    pub task: usize,
}

/// The mathematical model of a [`DoneCommand`].
pub struct DoneCommandView {
    pub user: u64,
    pub task: usize,
}

impl View for DoneCommand {
    type V = DoneCommandView;

    open spec fn view(&self) -> DoneCommandView {
        DoneCommandView { user: self.user, task: self.task }
    }
}

/// A parsed invocation of any known command, tagged by which schema matched.
#[derive(Debug, PartialEq, Eq)]
pub enum TodoCommand {
    Task(TaskCommand),
    Done(DoneCommand),
}

/// The mathematical model of a [`TodoCommand`].
pub enum TodoCommandView {
    Task(TaskCommandView),
    Done(DoneCommandView),
}

impl View for TodoCommand {
    type V = TodoCommandView;

    open spec fn view(&self) -> TodoCommandView {
        match self {
            TodoCommand::Task(c) => TodoCommandView::Task(c@),
            TodoCommand::Done(c) => TodoCommandView::Done(c@),
        }
    }
}

/// The `task` schema's fields.
pub open spec fn task_fields() -> Seq<FieldView> {
    resolved_schema(task_decl_view()).fields
}

/// The `done` schema's fields.
pub open spec fn done_fields() -> Seq<FieldView> {
    resolved_schema(done_decl_view()).fields
}

/// What parsing a raw invocation as the `task` command yields: the engine's
/// field values assembled into the typed result, or the first field error.
pub open spec fn spec_task_parse(inv: InvocationView) -> Result<TaskCommandView, CommandErrorView> {
    match spec_parse_fields(task_fields(), inv.options, inv.context) {
        Err(e) => Err(e),
        Ok(vals) => Ok(
            TaskCommandView {
                user: vals[0]->Present_0->User_0,
                task: vals[1]->Present_0->String_0,
            },
        ),
    }
}

/// What parsing a raw invocation as the `done` command yields.  The wire
/// integer is converted to an index with the platform's truncating cast.
pub open spec fn spec_done_parse(inv: InvocationView) -> Result<DoneCommandView, CommandErrorView> {
    match spec_parse_fields(done_fields(), inv.options, inv.context) {
        Err(e) => Err(e),
        Ok(vals) => Ok(
            DoneCommandView {
                user: vals[0]->Present_0->User_0,
                task: vals[1]->Present_0->Integer_0 as usize,
            },
        ),
    }
}

/// When the engine parses the `task` fields successfully, the two values
/// have the shapes the schema declares: the invoking user, then a string.
proof fn lemma_task_shapes(opts: Seq<InvocationOptionView>, ctx: crate::context::Context)
    ensures
        spec_parse_fields(task_fields(), opts, ctx) matches Ok(vals) ==> {
            &&& vals.len() == 2
            &&& vals[0] matches FieldValueView::Present(WireValueView::User(_))
            &&& vals[1] matches FieldValueView::Present(WireValueView::String(_))
        },
{
    let fs = task_fields();
    assert(fs.len() == 2);
    let rest = fs.skip(1);
    assert(rest.len() == 1);
    assert(rest[0] == fs[1]);
    assert(rest.skip(1).len() == 0);
    let r = spec_parse_fields(fs, opts, ctx);
    if r is Ok {
        reveal_with_fuel(spec_parse_fields, 4);
        assert(spec_parse_fields(rest.skip(1), opts, ctx) == Ok::<
            Seq<FieldValueView>,
            CommandErrorView,
        >(Seq::empty()));
        let p0 = crate::parser::spec_parse_field(fs[0], opts, ctx);
        let p1 = crate::parser::spec_parse_field(rest[0], opts, ctx);
        assert(p0 is Ok && p1 is Ok);
        assert(r->Ok_0 =~= seq![p0->Ok_0, p1->Ok_0]);
        assert(fs[0] matches FieldView::Implicit(imp) && imp.extractor
            == Extractor::InvokingUser);
        assert(p0->Ok_0 matches FieldValueView::Present(WireValueView::User(_)));
        assert(fs[1] matches FieldView::Explicit(ex) && ex.kind == OptionType::String
            && ex.required);
        let v = crate::parser::spec_lookup(opts, fs[1]->Explicit_0.name);
        assert(v matches Some(w) && w.kind() == OptionType::String);
        assert(p1->Ok_0 matches FieldValueView::Present(WireValueView::String(_)));
    }
}

/// When the engine parses the `done` fields successfully, the two values
/// have the shapes the schema declares: the invoking user, then an integer.
proof fn lemma_done_shapes(opts: Seq<InvocationOptionView>, ctx: crate::context::Context)
    ensures
        spec_parse_fields(done_fields(), opts, ctx) matches Ok(vals) ==> {
            &&& vals.len() == 2
            &&& vals[0] matches FieldValueView::Present(WireValueView::User(_))
            &&& vals[1] matches FieldValueView::Present(WireValueView::Integer(_))
        },
{
    let fs = done_fields();
    assert(fs.len() == 2);
    let rest = fs.skip(1);
    assert(rest.len() == 1);
    assert(rest[0] == fs[1]);
    assert(rest.skip(1).len() == 0);
    let r = spec_parse_fields(fs, opts, ctx);
    if r is Ok {
        reveal_with_fuel(spec_parse_fields, 4);
        assert(spec_parse_fields(rest.skip(1), opts, ctx) == Ok::<
            Seq<FieldValueView>,
            CommandErrorView,
        >(Seq::empty()));
        let p0 = crate::parser::spec_parse_field(fs[0], opts, ctx);
        let p1 = crate::parser::spec_parse_field(rest[0], opts, ctx);
        assert(p0 is Ok && p1 is Ok);
        assert(r->Ok_0 =~= seq![p0->Ok_0, p1->Ok_0]);
        assert(fs[0] matches FieldView::Implicit(imp) && imp.extractor
            == Extractor::InvokingUser);
        assert(p0->Ok_0 matches FieldValueView::Present(WireValueView::User(_)));
        assert(fs[1] matches FieldView::Explicit(ex) && ex.kind == OptionType::Integer
            && ex.required);
        let v = crate::parser::spec_lookup(opts, fs[1]->Explicit_0.name);
        assert(v matches Some(w) && w.kind() == OptionType::Integer);
        assert(p1->Ok_0 matches FieldValueView::Present(WireValueView::Integer(_)));
    }
}

impl TaskCommand {
    /// Parse a raw invocation as the `task` command.
    pub fn parse(inv: &Invocation) -> (r: Result<TaskCommand, CommandError>)
        ensures
            match r {
                Ok(c) => spec_task_parse(inv@) == Ok::<TaskCommandView, CommandErrorView>(c@),
                Err(e) => spec_task_parse(inv@) == Err::<TaskCommandView, CommandErrorView>(e@),
            },
    {
        let schema = task_schema();
        match parse(&schema, inv) {
            Err(e) => Err(e),
            Ok(vals) => {
                proof {
                    lemma_task_shapes(inv@.options, inv@.context);
                }
                let mut vals = vals;
                let v0 = vals.remove(0);
                let v1 = vals.remove(0);
                let user: u64 = match v0 {
                    FieldValue::Present(WireValue::User(u)) => u,
                    _ => vstd::pervasive::unreached(),
                };
                let task: String = match v1 {
                    FieldValue::Present(WireValue::String(s)) => s,
                    _ => vstd::pervasive::unreached(),
                };
                Ok(TaskCommand { user, task })
            },
        }
    }
}

impl DoneCommand {
    /// Parse a raw invocation as the `done` command.
    pub fn parse(inv: &Invocation) -> (r: Result<DoneCommand, CommandError>)
        ensures
            match r {
                Ok(c) => spec_done_parse(inv@) == Ok::<DoneCommandView, CommandErrorView>(c@),
                Err(e) => spec_done_parse(inv@) == Err::<DoneCommandView, CommandErrorView>(e@),
            },
    {
        let schema = done_schema();
        match parse(&schema, inv) {
            Err(e) => Err(e),
            Ok(vals) => {
                proof {
                    lemma_done_shapes(inv@.options, inv@.context);
                }
                let mut vals = vals;
                let v0 = vals.remove(0);
                let v1 = vals.remove(0);
                let user: u64 = match v0 {
                    FieldValue::Present(WireValue::User(u)) => u,
                    _ => vstd::pervasive::unreached(),
                };
                let task: usize = match v1 {
                    FieldValue::Present(WireValue::Integer(i)) => #[verifier::truncate] (i as usize),
                    _ => vstd::pervasive::unreached(),
                };
                Ok(DoneCommand { user, task })
            },
        }
    }
}

/// What dispatching a raw invocation yields: the matching command's typed
/// parse, its field errors wrapped with the command's name, or an
/// invalid-command error for an unknown name.
pub open spec fn spec_dispatch(inv: InvocationView) -> Result<TodoCommandView, ErrorView> {
    if inv.name == "task"@ {
        match spec_task_parse(inv) {
            Ok(c) => Ok(TodoCommandView::Task(c)),
            Err(e) => Err(ErrorView::CommandError { command: "task"@, error: e }),
        }
    } else if inv.name == "done"@ {
        match spec_done_parse(inv) {
            Ok(c) => Ok(TodoCommandView::Done(c)),
            Err(e) => Err(ErrorView::CommandError { command: "done"@, error: e }),
        }
    } else {
        Err(ErrorView::InvalidCommand(inv.name))
    }
}

impl TodoCommand {
    /// Dispatch a raw invocation by command name to the matching schema's
    /// parser, wrapping field errors with the command's name.
    pub fn parse(inv: Invocation) -> (r: Result<TodoCommand, Error>)
        ensures
            match r {
                Ok(c) => spec_dispatch(inv@) == Ok::<TodoCommandView, ErrorView>(c@),
                Err(e) => spec_dispatch(inv@) == Err::<TodoCommandView, ErrorView>(e@),
            },
    {
        let task_name: String = "task".to_owned();
        let done_name: String = "done".to_owned();
        if inv.name == task_name {
            match TaskCommand::parse(&inv) {
                Ok(c) => Ok(TodoCommand::Task(c)),
                Err(e) => Err(Error::CommandError { command: task_name, error: e }),
            }
        } else if inv.name == done_name {
            match DoneCommand::parse(&inv) {
                Ok(c) => Ok(TodoCommand::Done(c)),
                Err(e) => Err(Error::CommandError { command: done_name, error: e }),
            }
        } else {
            Err(Error::InvalidCommand(inv.name))
        }
    }
}

} // verus!
