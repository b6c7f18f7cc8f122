//! Command schemas and the declarations they are built from.
//!
//! A declaration is the raw, authored form: names and descriptions may be
//! omitted and are then defaulted (the identifier in snake case, the attached
//! documentation text).  Building resolves those defaults and validates the
//! result, accumulating every violation; only a declaration with no
//! violations yields a schema.

use vstd::prelude::*;
use vstd::string::StrSliceExecFns;

use crate::casing::{snake_of, to_snake_case};
use crate::context::Extractor;
use crate::errors::{SchemaError, SchemaErrorView};
use crate::wire::{Bound, OptionType};

verus! {

/// One wire-supplied parameter slot of a schema.  `required` is derived from
/// the declaration: true unless the field's type carried the optional
/// wrapper.
#[derive(Debug, PartialEq, Eq)]
pub struct ExplicitField {
    pub name: String,
    pub description: String,
    pub kind: OptionType,
    pub required: bool,
    pub autocomplete: bool,
    pub min: Option<Bound>,
    pub max: Option<Bound>,
}

/// One context-derived parameter slot: never wire-supplied and never visible
/// in the descriptor; the name serves error attribution only.
#[derive(Debug, PartialEq, Eq)]
pub struct ImplicitField {
    pub name: String,
    pub extractor: Extractor,
}

/// One parameter slot, classified as explicit or implicit.
#[derive(Debug, PartialEq, Eq)]
pub enum Field {
    Explicit(ExplicitField),
    Implicit(ImplicitField),
}

/// The mathematical model of an [`ExplicitField`].
pub struct ExplicitFieldView {
    pub name: Seq<char>,
    pub description: Seq<char>,
    pub kind: OptionType,
    pub required: bool,
    pub autocomplete: bool,
    pub min: Option<Bound>,
    pub max: Option<Bound>,
}

/// The mathematical model of an [`ImplicitField`].
pub struct ImplicitFieldView {
    pub name: Seq<char>,
    pub extractor: Extractor,
}

/// The mathematical model of a [`Field`].
pub enum FieldView {
    Explicit(ExplicitFieldView),
    Implicit(ImplicitFieldView),
}

impl View for ExplicitField {
    type V = ExplicitFieldView;

    open spec fn view(&self) -> ExplicitFieldView {
        ExplicitFieldView {
            name: self.name@,
            description: self.description@,
            kind: self.kind,
            required: self.required,
            autocomplete: self.autocomplete,
            min: self.min,
            max: self.max,
        }
    }
}

impl View for ImplicitField {
    type V = ImplicitFieldView;

    open spec fn view(&self) -> ImplicitFieldView {
        ImplicitFieldView { name: self.name@, extractor: self.extractor }
    }
}

impl View for Field {
    type V = FieldView;

    open spec fn view(&self) -> FieldView {
        match self {
            Field::Explicit(f) => FieldView::Explicit(f@),
            Field::Implicit(f) => FieldView::Implicit(f@),
        }
    }
}

impl FieldView {
    /// The field's name, used for lookup and error attribution.
    pub open spec fn name(self) -> Seq<char> {
        match self {
            FieldView::Explicit(f) => f.name,
            FieldView::Implicit(f) => f.name,
        }
    }
}

/// An immutable, validated description of one invocable command.
#[derive(Debug, PartialEq, Eq)]
pub struct CommandSchema {
    pub name: String,
    pub description: String,
    pub version: u64,
    pub fields: Vec<Field>,
}

/// The mathematical model of a [`CommandSchema`].
pub struct SchemaView {
    pub name: Seq<char>,
    pub description: Seq<char>,
    pub version: u64,
    pub fields: Seq<FieldView>,
}

impl View for CommandSchema {
    type V = SchemaView;

    open spec fn view(&self) -> SchemaView {
        SchemaView {
            name: self.name@,
            description: self.description@,
            version: self.version,
            fields: self.fields@.map_values(|f: Field| f@),
        }
    }
}

/// Whether a name satisfies the platform's length rule: 1 to 32 characters.
pub open spec fn name_ok(n: Seq<char>) -> bool {
    1 <= n.len() <= 32
}

/// Whether a description satisfies the platform's length rule: 1 to 100
/// characters.
pub open spec fn description_ok(d: Seq<char>) -> bool {
    1 <= d.len() <= 100
}

/// Well-formedness of one field: its name is within bounds, and an explicit
/// field's description is within bounds.
pub open spec fn field_wf(f: FieldView) -> bool {
    &&& name_ok(f.name())
    &&& (f matches FieldView::Explicit(ex) ==> description_ok(ex.description))
}

/// Well-formedness of a schema: the name and description bounds hold for the
/// schema itself and for every field, and no two fields share a name.  Only a
/// well-formed schema may be described to the platform or used to parse
/// invocations.
pub open spec fn schema_wf(s: SchemaView) -> bool {
    &&& name_ok(s.name)
    &&& description_ok(s.description)
    &&& (forall|i: int| 0 <= i < s.fields.len() ==> field_wf(#[trigger] s.fields[i]))
    &&& (forall|i: int, j: int|
        0 <= i < j < s.fields.len() ==> (#[trigger] s.fields[i].name()) != (
        #[trigger] s.fields[j].name()))
}

impl CommandSchema {
    /// Well-formedness of this schema.
    pub open spec fn wf(&self) -> bool {
        schema_wf(self@)
    }
}

/// The raw, authored form of one field.  A field is implicit exactly when it
/// is bound to an extractor; every other attribute then serves no purpose.
/// `ident` is the declaration identifier the name defaults from; `docs` is
/// the attached documentation text the description falls back to.
#[derive(Debug)]
pub struct FieldDecl {
    pub ident: Option<String>,
    pub name: Option<String>,
    pub description: Option<String>,
    pub docs: Option<String>,
    pub kind: OptionType,
    pub optional: bool,
    pub autocomplete: bool,
    pub min: Option<Bound>,
    pub max: Option<Bound>,
    pub extractor: Option<Extractor>,
}

/// The mathematical model of a [`FieldDecl`].
pub struct FieldDeclView {
    pub ident: Option<Seq<char>>,
    pub name: Option<Seq<char>>,
    pub description: Option<Seq<char>>,
    pub docs: Option<Seq<char>>,
    pub kind: OptionType,
    pub optional: bool,
    pub autocomplete: bool,
    pub min: Option<Bound>,
    pub max: Option<Bound>,
    pub extractor: Option<Extractor>,
}

/// The view of an optional string.
pub open spec fn opt_str_view(s: Option<String>) -> Option<Seq<char>> {
    match s {
        Some(v) => Some(v@),
        None => None,
    }
}

impl View for FieldDecl {
    type V = FieldDeclView;

    open spec fn view(&self) -> FieldDeclView {
        FieldDeclView {
            ident: opt_str_view(self.ident),
            name: opt_str_view(self.name),
            description: opt_str_view(self.description),
            docs: opt_str_view(self.docs),
            kind: self.kind,
            optional: self.optional,
            autocomplete: self.autocomplete,
            min: self.min,
            max: self.max,
            extractor: self.extractor,
        }
    }
}

/// The raw, authored form of one command: the declaration identifier, the
/// optional explicit name, version and description, the attached
/// documentation text, and the ordered field declarations.
#[derive(Debug)]
pub struct CommandDecl {
    pub ident: String,
    pub name: Option<String>,
    pub version: Option<u64>,
    pub description: Option<String>,
    pub docs: Option<String>,
    pub fields: Vec<FieldDecl>,
}

/// The mathematical model of a [`CommandDecl`].
pub struct CommandDeclView {
    pub ident: Seq<char>,
    pub name: Option<Seq<char>>,
    pub version: Option<u64>,
    pub description: Option<Seq<char>>,
    pub docs: Option<Seq<char>>,
    pub fields: Seq<FieldDeclView>,
}

impl View for CommandDecl {
    type V = CommandDeclView;

    open spec fn view(&self) -> CommandDeclView {
        CommandDeclView {
            ident: self.ident@,
            name: opt_str_view(self.name),
            version: self.version,
            description: opt_str_view(self.description),
            docs: opt_str_view(self.docs),
            fields: self.fields@.map_values(|f: FieldDecl| f@),
        }
    }
}

/// The command's name after defaulting: the explicit name, or the
/// declaration identifier in snake case.
pub open spec fn resolved_name(d: CommandDeclView) -> Seq<char> {
    match d.name {
        Some(n) => n,
        None => snake_of(d.ident),
    }
}

/// The command's description after the documentation fallback, if either
/// source supplies one.
pub open spec fn resolved_description(d: CommandDeclView) -> Option<Seq<char>> {
    match d.description {
        Some(x) => Some(x),
        None => d.docs,
    }
}

/// The command's version after defaulting: the explicit version, or 1.
pub open spec fn resolved_version(d: CommandDeclView) -> u64 {
    match d.version {
        Some(v) => v,
        None => 1,
    }
}

/// A field's name after defaulting: the explicit name, or the field
/// identifier in snake case, if the declaration carries either.
pub open spec fn field_resolved_name(f: FieldDeclView) -> Option<Seq<char>> {
    match f.name {
        Some(n) => Some(n),
        None => match f.ident {
            Some(id) => Some(snake_of(id)),
            None => None,
        },
    }
}

/// A field's description after the documentation fallback, if either source
/// supplies one.
pub open spec fn field_resolved_description(f: FieldDeclView) -> Option<Seq<char>> {
    match f.description {
        Some(x) => Some(x),
        None => f.docs,
    }
}

/// The view of a list of schema errors.
pub open spec fn errs_view(s: Seq<SchemaError>) -> Seq<SchemaErrorView> {
    s.map_values(|e: SchemaError| e@)
}

/// The violations of the command's own name and description rules, in report
/// order.
pub open spec fn header_violations(d: CommandDeclView) -> Seq<SchemaErrorView> {
    (if name_ok(resolved_name(d)) {
        Seq::<SchemaErrorView>::empty()
    } else {
        seq![SchemaErrorView::CommandNameLength]
    }) + (match resolved_description(d) {
        None => seq![SchemaErrorView::MissingCommandDescription],
        Some(desc) => if description_ok(desc) {
            Seq::<SchemaErrorView>::empty()
        } else {
            seq![SchemaErrorView::CommandDescriptionLength]
        },
    })
}

/// Whether field `i`'s resolved name repeats the resolved name of an earlier
/// field.
pub open spec fn duplicate_name(fields: Seq<FieldDeclView>, i: int) -> bool {
    field_resolved_name(fields[i]) is Some && exists|j: int|
        0 <= j < i && field_resolved_name(#[trigger] fields[j]) == field_resolved_name(fields[i])
}

/// The violations of field `i`'s rules, in report order: an unresolvable
/// name, or the name length rule, then a duplicated name, then the
/// description rules (explicit fields only).
pub open spec fn field_violations(fields: Seq<FieldDeclView>, i: int) -> Seq<SchemaErrorView> {
    let f = fields[i];
    match field_resolved_name(f) {
        None => seq![SchemaErrorView::MissingFieldName { index: i as usize }],
        Some(n) => (if name_ok(n) {
            Seq::<SchemaErrorView>::empty()
        } else {
            seq![SchemaErrorView::FieldNameLength { field: n }]
        }) + (if duplicate_name(fields, i) {
            seq![SchemaErrorView::DuplicateFieldName { field: n }]
        } else {
            Seq::<SchemaErrorView>::empty()
        }) + (if f.extractor is Some {
            Seq::<SchemaErrorView>::empty()
        } else {
            match field_resolved_description(f) {
                None => seq![SchemaErrorView::MissingFieldDescription { field: n }],
                Some(ds) => if description_ok(ds) {
                    Seq::<SchemaErrorView>::empty()
                } else {
                    seq![SchemaErrorView::FieldDescriptionLength { field: n }]
                },
            }
        }),
    }
}

/// The violations of the first `n` fields, in field order.
pub open spec fn fields_violations(fields: Seq<FieldDeclView>, n: int) -> Seq<SchemaErrorView>
    decreases n,
{
    if n <= 0 {
        Seq::empty()
    } else {
        fields_violations(fields, n - 1) + field_violations(fields, n - 1)
    }
}

/// Every violation of a declaration, in report order: the command's own
/// rules first, then each field's, in field order.  A declaration is valid
/// exactly when this is empty.
pub open spec fn violations(d: CommandDeclView) -> Seq<SchemaErrorView> {
    header_violations(d) + fields_violations(d.fields, d.fields.len() as int)
}

/// The schema a declaration resolves to once its defaults are applied.
/// Meaningful for valid declarations; unresolvable names and descriptions
/// are left empty (a valid declaration has none).
pub open spec fn resolved_field(f: FieldDeclView) -> FieldView {
    let name = match field_resolved_name(f) {
        Some(n) => n,
        None => Seq::empty(),
    };
    match f.extractor {
        Some(e) => FieldView::Implicit(ImplicitFieldView { name, extractor: e }),
        None => FieldView::Explicit(
            ExplicitFieldView {
                name,
                description: match field_resolved_description(f) {
                    Some(ds) => ds,
                    None => Seq::empty(),
                },
                kind: f.kind,
                required: !f.optional,
                autocomplete: f.autocomplete,
                min: f.min,
                max: f.max,
            },
        ),
    }
}

/// The schema a valid declaration builds to.
pub open spec fn resolved_schema(d: CommandDeclView) -> SchemaView {
    SchemaView {
        name: resolved_name(d),
        description: match resolved_description(d) {
            Some(x) => x,
            None => Seq::empty(),
        },
        version: resolved_version(d),
        fields: Seq::new(d.fields.len(), |i: int| resolved_field(d.fields[i])),
    }
}

/// If the first `n` fields report no violation, neither does any single one
/// of them.
proof fn lemma_fields_violations_empty(fields: Seq<FieldDeclView>, n: int, i: int)
    requires
        0 <= i < n,
        fields_violations(fields, n).len() == 0,
    ensures
        field_violations(fields, i).len() == 0,
    decreases n,
{
    if i < n - 1 {
        lemma_fields_violations_empty(fields, n - 1, i);
    }
}

/// Law: a declaration without violations resolves to a well-formed schema:
/// the length bounds hold for the command and all its fields, and no two
/// fields share a name.
pub proof fn lemma_valid_decl_wf(d: CommandDeclView)
    requires
        violations(d).len() == 0,
    ensures
        schema_wf(resolved_schema(d)),
{
    let s = resolved_schema(d);
    assert(header_violations(d).len() == 0);
    assert(fields_violations(d.fields, d.fields.len() as int).len() == 0);
    assert forall|i: int| 0 <= i < s.fields.len() implies field_wf(#[trigger] s.fields[i]) by {
        lemma_fields_violations_empty(d.fields, d.fields.len() as int, i);
    }
    assert forall|i: int, j: int| 0 <= i < j < s.fields.len() implies (
    #[trigger] s.fields[i].name()) != (#[trigger] s.fields[j].name()) by {
        lemma_fields_violations_empty(d.fields, d.fields.len() as int, i);
        lemma_fields_violations_empty(d.fields, d.fields.len() as int, j);
        if s.fields[i].name() == s.fields[j].name() {
            assert(field_resolved_name(d.fields[i]) == field_resolved_name(d.fields[j]));
            assert(duplicate_name(d.fields, j));
        }
    }
}

/// Law: a declaration whose resolved description exceeds the length bound is
/// invalid: its violations contain the description length violation, so no
/// schema — and hence no descriptor — is ever built from it.
pub proof fn lemma_overlong_description_rejected(d: CommandDeclView)
    requires
        resolved_description(d) matches Some(ds) && ds.len() > 100,
    ensures
        violations(d).contains(SchemaErrorView::CommandDescriptionLength),
        violations(d).len() > 0,
{
    let k: int = if name_ok(resolved_name(d)) {
        0
    } else {
        1
    };
    assert(violations(d)[k] == SchemaErrorView::CommandDescriptionLength);
}

/// Whether a string's character count lies within `[min, max]`.
pub fn validate_length(value: &str, min: usize, max: usize) -> (ok: bool)
    ensures
        ok == (min <= value@.len() <= max),
{
    let l = value.unicode_len();
    min <= l && l <= max
}

/// Whether `n` repeats one of the already resolved names.
fn contains_name(names: &Vec<Option<String>>, n: &String) -> (r: bool)
    ensures
        r == exists|j: int|
            0 <= j < names@.len() && opt_str_view(#[trigger] names@[j]) == Some(n@),
{
    let mut i: usize = 0;
    while i < names.len()
        invariant
            0 <= i <= names.len(),
            forall|j: int| 0 <= j < i ==> opt_str_view(#[trigger] names@[j]) != Some(n@),
        decreases names.len() - i,
    {
        match &names[i] {
            Some(m) => {
                if *m == *n {
                    return true;
                }
            },
            None => {},
        }
        i = i + 1;
    }
    false
}

/// Build a declaration into a validated schema.  Defaults are resolved (the
/// identifier in snake case for a missing name, the documentation text for a
/// missing description, version 1), then every rule is checked and every
/// violation collected: the result is the resolved schema exactly when the
/// declaration has no violation, and otherwise the complete list of
/// violations in report order — never just the first.
#[verifier::rlimit(100)]
pub fn build(decl: CommandDecl) -> (r: Result<CommandSchema, Vec<SchemaError>>)
    ensures
        match r {
            Ok(s) => violations(decl@).len() == 0 && s@ == resolved_schema(decl@) && s.wf(),
            Err(errs) => violations(decl@).len() > 0 && errs_view(errs@) == violations(decl@),
        },
{
    let ghost d = decl@;
    let mut errors: Vec<SchemaError> = Vec::new();
    let ghost mut cur = Seq::<SchemaErrorView>::empty();

    let name: String = match decl.name {
        Some(n) => n,
        None => to_snake_case(decl.ident.as_str()),
    };
    if !validate_length(name.as_str(), 1, 32) {
        errors.push(SchemaError::CommandNameLength);
        proof {
            cur = cur.push(SchemaErrorView::CommandNameLength);
        }
    }
    let description: Option<String> = match decl.description {
        Some(x) => Some(x),
        None => decl.docs,
    };
    match &description {
        None => {
            errors.push(SchemaError::MissingCommandDescription);
            proof {
                cur = cur.push(SchemaErrorView::MissingCommandDescription);
            }
        },
        Some(ds) => {
            if !validate_length(ds.as_str(), 1, 100) {
                errors.push(SchemaError::CommandDescriptionLength);
                proof {
                    cur = cur.push(SchemaErrorView::CommandDescriptionLength);
                }
            }
        },
    }
    let version: u64 = match decl.version {
        Some(v) => v,
        None => 1,
    };
    proof {
        assert(cur =~= errs_view(errors@));
        assert(cur =~= header_violations(d));
    }

    let mut resolved_names: Vec<Option<String>> = Vec::new();
    let mut out_fields: Vec<Field> = Vec::new();
    let mut i: usize = 0;
    while i < decl.fields.len()
        invariant
            0 <= i <= decl.fields.len(),
            d == decl@,
            name@ == resolved_name(d),
            opt_str_view(description) == resolved_description(d),
            version == resolved_version(d),
            cur == errs_view(errors@),
            cur == header_violations(d) + fields_violations(d.fields, i as int),
            resolved_names@.len() == i,
            forall|j: int|
                0 <= j < i ==> opt_str_view(#[trigger] resolved_names@[j]) == field_resolved_name(
                    d.fields[j],
                ),
            errors@.len() == 0 ==> out_fields@.len() == i,
            errors@.len() == 0 ==> forall|j: int|
                0 <= j < i ==> (#[trigger] out_fields@[j])@ == resolved_field(d.fields[j]),
        decreases decl.fields.len() - i,
    {
        let ghost pre = cur;
        let f = &decl.fields[i];
        proof {
            assert(f@ == d.fields[i as int]);
        }
        let fname: Option<String> = match &f.name {
            Some(n) => Some(n.clone()),
            None => match &f.ident {
                Some(id) => Some(to_snake_case(id.as_str())),
                None => None,
            },
        };
        proof {
            assert(opt_str_view(fname) == field_resolved_name(d.fields[i as int]));
        }
        match fname {
            None => {
                errors.push(SchemaError::MissingFieldName { index: i });
                proof {
                    cur = cur.push(SchemaErrorView::MissingFieldName { index: i });
                    assert(field_violations(d.fields, i as int) =~= seq![
                        SchemaErrorView::MissingFieldName { index: i },
                    ]);
                }
                resolved_names.push(None);
            },
            Some(n) => {
                if !validate_length(n.as_str(), 1, 32) {
                    errors.push(SchemaError::FieldNameLength { field: n.clone() });
                    proof {
                        cur = cur.push(SchemaErrorView::FieldNameLength { field: n@ });
                    }
                }
                if contains_name(&resolved_names, &n) {
                    errors.push(SchemaError::DuplicateFieldName { field: n.clone() });
                    proof {
                        let j = choose|j: int|
                            0 <= j < resolved_names@.len() && opt_str_view(
                                #[trigger] resolved_names@[j],
                            ) == Some(n@);
                        assert(field_resolved_name(d.fields[j]) == field_resolved_name(
                            d.fields[i as int],
                        ));
                        assert(duplicate_name(d.fields, i as int));
                        cur = cur.push(SchemaErrorView::DuplicateFieldName { field: n@ });
                    }
                } else {
                    proof {
                        if duplicate_name(d.fields, i as int) {
                            let j = choose|j: int|
                                0 <= j < i && field_resolved_name(#[trigger] d.fields[j])
                                    == field_resolved_name(d.fields[i as int]);
                            assert(opt_str_view(resolved_names@[j]) == Some(n@));
                            assert(false);
                        }
                    }
                }
                match f.extractor {
                    Some(e) => {
                        out_fields.push(
                            Field::Implicit(ImplicitField { name: n.clone(), extractor: e }),
                        );
                    },
                    None => {
                        let fdesc: Option<String> = match &f.description {
                            Some(x) => Some(x.clone()),
                            None => match &f.docs {
                                Some(x) => Some(x.clone()),
                                None => None,
                            },
                        };
                        proof {
                            assert(opt_str_view(fdesc) == field_resolved_description(
                                d.fields[i as int],
                            ));
                        }
                        match fdesc {
                            None => {
                                errors.push(
                                    SchemaError::MissingFieldDescription { field: n.clone() },
                                );
                                proof {
                                    cur = cur.push(
                                        SchemaErrorView::MissingFieldDescription { field: n@ },
                                    );
                                }
                            },
                            Some(ds) => {
                                if !validate_length(ds.as_str(), 1, 100) {
                                    errors.push(
                                        SchemaError::FieldDescriptionLength { field: n.clone() },
                                    );
                                    proof {
                                        cur = cur.push(
                                            SchemaErrorView::FieldDescriptionLength { field: n@ },
                                        );
                                    }
                                }
                                out_fields.push(
                                    Field::Explicit(
                                        ExplicitField {
                                            name: n.clone(),
                                            description: ds,
                                            kind: f.kind,
                                            required: !f.optional,
                                            autocomplete: f.autocomplete,
                                            min: f.min,
                                            max: f.max,
                                        },
                                    ),
                                );
                            },
                        }
                    },
                }
                resolved_names.push(Some(n));
            },
        }
        proof {
            assert(cur =~= errs_view(errors@));
            assert(cur =~= pre + field_violations(d.fields, i as int));
            assert(fields_violations(d.fields, i as int + 1) == fields_violations(
                d.fields,
                i as int,
            ) + field_violations(d.fields, i as int));
            assert(cur =~= header_violations(d) + fields_violations(d.fields, i as int + 1));
        }
        i = i + 1;
    }

    if errors.len() == 0 {
        proof {
            assert(violations(d) =~= cur);
            assert(violations(d).len() == 0);
        }
        let desc: String = match description {
            Some(x) => x,
            None => vstd::pervasive::unreached(),
        };
        let schema = CommandSchema { name, description: desc, version, fields: out_fields };
        proof {
            assert(schema@.fields =~= resolved_schema(d).fields);
            assert(schema@ == resolved_schema(d));
            lemma_valid_decl_wf(d);
        }
        Ok(schema)
    } else {
        proof {
            assert(violations(d) =~= cur);
        }
        Err(errors)
    }
}

} // verus!
