//! The invocation parser: walks a schema's fields in order over one raw
//! invocation and produces the typed field values, or the first field error.

use vstd::prelude::*;

use crate::capability::{
    opt_wire_view, parse_option, spec_parse_option, FieldValue, FieldValueView,
};
use crate::context::{run_extractor, spec_extract, Context};
use crate::errors::{CommandError, CommandErrorView, OptionError};
use crate::schema::{CommandSchema, FieldView};
use crate::wire::{WireValue, WireValueView};

verus! {

/// One name/value pair of a raw invocation.
#[derive(Debug, PartialEq, Eq)]
pub struct InvocationOption {
    pub name: String,
    pub value: WireValue,
}

/// The mathematical model of an [`InvocationOption`].
pub struct InvocationOptionView {
    pub name: Seq<char>,
    pub value: WireValueView,
}

impl View for InvocationOption {
    type V = InvocationOptionView;

    open spec fn view(&self) -> InvocationOptionView {
        InvocationOptionView { name: self.name@, value: self.value@ }
    }
}

/// One raw invocation as the gateway delivers it: the invoked command's
/// name, an unordered collection of named tagged values, and the context the
/// implicit extractors read.
#[derive(Debug)]
pub struct Invocation {
    pub name: String,
    pub options: Vec<InvocationOption>,
    pub context: Context,
}

/// The mathematical model of an [`Invocation`].
pub struct InvocationView {
    pub name: Seq<char>,
    pub options: Seq<InvocationOptionView>,
    pub context: Context,
}

impl View for Invocation {
    type V = InvocationView;

    open spec fn view(&self) -> InvocationView {
        InvocationView {
            name: self.name@,
            options: self.options@.map_values(|o: InvocationOption| o@),
            context: self.context,
        }
    }
}

/// The value bound to `name` in the invocation's options: the first pair
/// carrying that name, or absence.
pub open spec fn spec_lookup(opts: Seq<InvocationOptionView>, name: Seq<char>) -> Option<
    WireValueView,
>
    decreases opts.len(),
{
    if opts.len() == 0 {
        None
    } else if opts[0].name == name {
        Some(opts[0].value)
    } else {
        spec_lookup(opts.skip(1), name)
    }
}

/// Look `name` up in the invocation's options.
pub fn lookup_value<'a>(options: &'a Vec<InvocationOption>, name: &String) -> (r: Option<
    &'a WireValue,
>)
    ensures
        opt_wire_view(r) == spec_lookup(options@.map_values(|o: InvocationOption| o@), name@),
{
    let ghost opts = options@.map_values(|o: InvocationOption| o@);
    proof {
        assert(opts.skip(0) =~= opts);
    }
    let mut i: usize = 0;
    while i < options.len()
        invariant
            0 <= i <= options.len(),
            opts == options@.map_values(|o: InvocationOption| o@),
            spec_lookup(opts, name@) == spec_lookup(opts.skip(i as int), name@),
        decreases options.len() - i,
    {
        proof {
            assert(opts.skip(i as int)[0] == opts[i as int]);
        }
        if options[i].name == *name {
            return Some(&options[i].value);
        }
        proof {
            assert(opts.skip(i as int).skip(1) =~= opts.skip(i as int + 1));
        }
        i = i + 1;
    }
    proof {
        assert(opts.skip(i as int).len() == 0);
    }
    None
}

/// What parsing one field of the schema yields: an implicit field runs its
/// extractor against the context, an explicit field parses the looked-up
/// value; either failure is attributed to the field's name.
pub open spec fn spec_parse_field(
    f: FieldView,
    opts: Seq<InvocationOptionView>,
    ctx: Context,
) -> Result<FieldValueView, CommandErrorView> {
    match f {
        FieldView::Implicit(imp) => match spec_extract(imp.extractor, ctx) {
            Ok(v) => Ok(FieldValueView::Present(v)),
            Err(e) => Err(CommandErrorView::ImplicitOption { option: imp.name, error: e }),
        },
        FieldView::Explicit(ex) => match spec_parse_option(
            ex.kind,
            ex.required,
            spec_lookup(opts, ex.name),
        ) {
            Ok(v) => Ok(v),
            Err(e) => Err(CommandErrorView::ExplicitOption { option: ex.name, error: e }),
        },
    }
}

/// What parsing a whole field list yields: the fields' values in schema
/// order, or the first failing field's error (fail-fast).
pub open spec fn spec_parse_fields(
    fields: Seq<FieldView>,
    opts: Seq<InvocationOptionView>,
    ctx: Context,
) -> Result<Seq<FieldValueView>, CommandErrorView>
    decreases fields.len(),
{
    if fields.len() == 0 {
        Ok(Seq::empty())
    } else {
        match spec_parse_field(fields[0], opts, ctx) {
            Err(e) => Err(e),
            Ok(v) => match spec_parse_fields(fields.skip(1), opts, ctx) {
                Err(e) => Err(e),
                Ok(rest) => Ok(seq![v] + rest),
            },
        }
    }
}

/// If every field parses, the whole parse succeeds with the fields' values
/// in schema order.
proof fn lemma_parse_fields_all_ok(
    fields: Seq<FieldView>,
    opts: Seq<InvocationOptionView>,
    ctx: Context,
)
    requires
        forall|j: int|
            0 <= j < fields.len() ==> spec_parse_field(#[trigger] fields[j], opts, ctx) is Ok,
    ensures
        spec_parse_fields(fields, opts, ctx) is Ok,
        spec_parse_fields(fields, opts, ctx)->Ok_0.len() == fields.len(),
        forall|j: int|
            0 <= j < fields.len() ==> #[trigger] spec_parse_fields(fields, opts, ctx)->Ok_0[j]
                == spec_parse_field(fields[j], opts, ctx)->Ok_0,
    decreases fields.len(),
{
    if fields.len() == 0 {
    } else {
        assert(forall|j: int|
            0 <= j < fields.skip(1).len() ==> #[trigger] fields.skip(1)[j] == fields[j + 1]);
        lemma_parse_fields_all_ok(fields.skip(1), opts, ctx);
    }
}

/// If every field before position `i` parses and field `i` fails, the whole
/// parse fails with field `i`'s error, whatever stands after it.
proof fn lemma_parse_fields_err_at(
    fields: Seq<FieldView>,
    opts: Seq<InvocationOptionView>,
    ctx: Context,
    i: int,
)
    requires
        0 <= i < fields.len(),
        forall|j: int| 0 <= j < i ==> spec_parse_field(#[trigger] fields[j], opts, ctx) is Ok,
        spec_parse_field(fields[i], opts, ctx) is Err,
    ensures
        spec_parse_fields(fields, opts, ctx) == Err::<Seq<FieldValueView>, CommandErrorView>(
            spec_parse_field(fields[i], opts, ctx)->Err_0,
        ),
    decreases i,
{
    assert(forall|j: int|
        0 <= j < fields.skip(1).len() ==> #[trigger] fields.skip(1)[j] == fields[j + 1]);
    if i == 0 {
    } else {
        lemma_parse_fields_err_at(fields.skip(1), opts, ctx, i - 1);
    }
}

/// Parse one raw invocation against a validated schema: walk the schema's
/// fields in order and produce their typed values, or abort with the first
/// field's error.  The result is exactly what [`spec_parse_fields`] states.
pub fn parse(schema: &CommandSchema, inv: &Invocation) -> (r: Result<Vec<FieldValue>, CommandError>)
    requires
        schema.wf(),
    ensures
        match r {
            Ok(vals) => spec_parse_fields(schema@.fields, inv@.options, inv@.context)
                == Ok::<Seq<FieldValueView>, CommandErrorView>(
                vals@.map_values(|v: FieldValue| v@),
            ),
            Err(e) => spec_parse_fields(schema@.fields, inv@.options, inv@.context) == Err::<
                Seq<FieldValueView>,
                CommandErrorView,
            >(e@),
        },
{
    let ghost gfields = schema@.fields;
    let ghost gopts = inv@.options;
    let ghost gctx = inv@.context;
    let mut values: Vec<FieldValue> = Vec::new();
    let mut i: usize = 0;
    while i < schema.fields.len()
        invariant
            0 <= i <= schema.fields.len(),
            gfields == schema@.fields,
            gopts == inv@.options,
            gctx == inv@.context,
            values@.len() == i,
            forall|j: int|
                0 <= j < i ==> spec_parse_field(#[trigger] gfields[j], gopts, gctx) is Ok,
            forall|j: int|
                0 <= j < i ==> #[trigger] values@[j]@ == spec_parse_field(
                    gfields[j],
                    gopts,
                    gctx,
                )->Ok_0,
        decreases schema.fields.len() - i,
    {
        proof {
            assert(gfields[i as int] == schema.fields@[i as int]@);
        }
        match &schema.fields[i] {
            crate::schema::Field::Implicit(imp) => {
                match run_extractor(imp.extractor, &inv.context) {
                    Ok(v) => {
                        values.push(FieldValue::Present(v));
                    },
                    Err(err) => {
                        let e = CommandError::ImplicitOption {
                            option: imp.name.clone(),
                            error: err,
                        };
                        proof {
                            lemma_parse_fields_err_at(gfields, gopts, gctx, i as int);
                        }
                        return Err(e);
                    },
                }
            },
            crate::schema::Field::Explicit(ex) => {
                let raw = lookup_value(&inv.options, &ex.name);
                match parse_option(ex.kind, ex.required, raw) {
                    Ok(v) => {
                        values.push(v);
                    },
                    Err(err) => {
                        let e = CommandError::ExplicitOption {
                            option: ex.name.clone(),
                            error: err,
                        };
                        proof {
                            lemma_parse_fields_err_at(gfields, gopts, gctx, i as int);
                        }
                        return Err(e);
                    },
                }
            },
        }
        i = i + 1;
    }
    proof {
        lemma_parse_fields_all_ok(gfields, gopts, gctx);
        assert(spec_parse_fields(gfields, gopts, gctx)->Ok_0 =~= values@.map_values(
            |v: FieldValue| v@,
        ));
    }
    Ok(values)
}

/// The value a field is expected to take when the invocation serves it: an
/// implicit field takes what its extractor derives, an explicit field takes
/// the looked-up wire value, or `Absent` when an optional field's name is
/// not supplied.
pub open spec fn expected_value(
    f: FieldView,
    opts: Seq<InvocationOptionView>,
    ctx: Context,
) -> FieldValueView {
    match f {
        FieldView::Implicit(imp) => FieldValueView::Present(spec_extract(imp.extractor, ctx)->Ok_0),
        FieldView::Explicit(ex) => match spec_lookup(opts, ex.name) {
            Some(v) => FieldValueView::Present(v),
            None => FieldValueView::Absent,
        },
    }
}

/// Whether the invocation serves field `f`: an implicit field's extractor
/// succeeds on the context; a required explicit field's name is bound to a
/// value of the field's kind; an optional explicit field's name is absent or
/// bound to a value of the field's kind.
pub open spec fn field_served(f: FieldView, opts: Seq<InvocationOptionView>, ctx: Context) -> bool {
    match f {
        FieldView::Implicit(imp) => spec_extract(imp.extractor, ctx) is Ok,
        FieldView::Explicit(ex) => match spec_lookup(opts, ex.name) {
            Some(v) => v.kind() == ex.kind,
            None => !ex.required,
        },
    }
}

/// Law: an invocation that provides a correctly-typed value for every
/// required explicit field (and whose context serves every implicit field)
/// parses successfully, and the result holds each field's converted wire
/// value, in schema order.
pub proof fn lemma_parse_succeeds(
    fields: Seq<FieldView>,
    opts: Seq<InvocationOptionView>,
    ctx: Context,
)
    requires
        forall|j: int| 0 <= j < fields.len() ==> field_served(#[trigger] fields[j], opts, ctx),
    ensures
        spec_parse_fields(fields, opts, ctx) is Ok,
        spec_parse_fields(fields, opts, ctx)->Ok_0.len() == fields.len(),
        forall|j: int|
            0 <= j < fields.len() ==> #[trigger] spec_parse_fields(fields, opts, ctx)->Ok_0[j]
                == expected_value(fields[j], opts, ctx),
{
    assert forall|j: int| 0 <= j < fields.len() implies spec_parse_field(
        #[trigger] fields[j],
        opts,
        ctx,
    ) is Ok && spec_parse_field(fields[j], opts, ctx)->Ok_0 == expected_value(
        fields[j],
        opts,
        ctx,
    ) by {
        assert(field_served(fields[j], opts, ctx));
    }
    lemma_parse_fields_all_ok(fields, opts, ctx);
}

/// Law: fail-fast on a missing required option.  If every field before
/// position `i` parses and field `i` is a required explicit field whose name
/// is absent from the invocation, the whole parse fails with that field's
/// `Missing` error, whatever fields stand after it.
pub proof fn lemma_parse_missing(
    fields: Seq<FieldView>,
    opts: Seq<InvocationOptionView>,
    ctx: Context,
    i: int,
)
    requires
        0 <= i < fields.len(),
        forall|j: int| 0 <= j < i ==> spec_parse_field(#[trigger] fields[j], opts, ctx) is Ok,
        fields[i] matches FieldView::Explicit(ex) && ex.required && spec_lookup(opts, ex.name)
            is None,
    ensures
        spec_parse_fields(fields, opts, ctx) == Err::<Seq<FieldValueView>, CommandErrorView>(
            CommandErrorView::ExplicitOption {
                option: fields[i].name(),
                error: OptionError::Missing,
            },
        ),
{
    lemma_parse_fields_err_at(fields, opts, ctx, i);
}

/// Law: fail-fast on a wrongly-typed option.  If every field before position
/// `i` parses and field `i` is an explicit field whose name is bound to a
/// value of the wrong tag, the whole parse fails with that field's
/// `InvalidType` error, carrying the wire value's true tag.
pub proof fn lemma_parse_invalid_type(
    fields: Seq<FieldView>,
    opts: Seq<InvocationOptionView>,
    ctx: Context,
    i: int,
)
    requires
        0 <= i < fields.len(),
        forall|j: int| 0 <= j < i ==> spec_parse_field(#[trigger] fields[j], opts, ctx) is Ok,
        fields[i] matches FieldView::Explicit(ex) && spec_lookup(opts, ex.name) matches Some(v)
            && v.kind() != ex.kind,
    ensures
        spec_parse_fields(fields, opts, ctx) == Err::<Seq<FieldValueView>, CommandErrorView>(
            CommandErrorView::ExplicitOption {
                option: fields[i].name(),
                error: OptionError::InvalidType {
                    expected: fields[i]->Explicit_0.kind,
                    actual: spec_lookup(opts, fields[i].name())->Some_0.kind(),
                },
            },
        ),
{
    lemma_parse_fields_err_at(fields, opts, ctx, i);
}

} // verus!
