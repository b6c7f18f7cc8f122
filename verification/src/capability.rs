//! The option capability registry: for each option kind, how to describe a
//! field of that kind in the wire descriptor and how to parse a raw tagged
//! value into it.  The optional wrapper composes any kind: it forces
//! `required` to false in the descriptor, and maps an absent value to a
//! successful empty result instead of a `Missing` error.

use vstd::prelude::*;

use crate::descriptor::{OptionDescriptor, OptionDescriptorView};
use crate::errors::OptionError;
use crate::wire::{Bound, OptionType, WireValue, WireValueView};

verus! {

/// The per-field metadata a capability's describe operation consumes.
#[derive(Debug, PartialEq, Eq)]
pub struct OptionMeta {
    pub name: String,
    pub description: String,
    pub autocomplete: bool,
    pub required: bool,
    pub min_value: Option<Bound>,
    pub max_value: Option<Bound>,
}

/// The mathematical model of an [`OptionMeta`].
pub struct OptionMetaView {
    pub name: Seq<char>,
    pub description: Seq<char>,
    pub autocomplete: bool,
    pub required: bool,
    pub min_value: Option<Bound>,
    pub max_value: Option<Bound>,
}

impl View for OptionMeta {
    type V = OptionMetaView;

    open spec fn view(&self) -> OptionMetaView {
        OptionMetaView {
            name: self.name@,
            description: self.description@,
            autocomplete: self.autocomplete,
            required: self.required,
            min_value: self.min_value,
            max_value: self.max_value,
        }
    }
}

/// A successfully parsed field value: the unwrapped wire value, or `Absent`
/// for an optional field whose option was not supplied.
#[derive(Debug, PartialEq, Eq)]
pub enum FieldValue {
    Present(WireValue),
    Absent,
}

/// The mathematical model of a [`FieldValue`].
pub enum FieldValueView {
    Present(WireValueView),
    Absent,
}

impl View for FieldValue {
    type V = FieldValueView;

    open spec fn view(&self) -> FieldValueView {
        match self {
            FieldValue::Present(v) => FieldValueView::Present(v@),
            FieldValue::Absent => FieldValueView::Absent,
        }
    }
}

impl Clone for FieldValue {
    fn clone(&self) -> (res: Self)
        ensures
            res == *self,
    {
        match self {
            FieldValue::Present(v) => FieldValue::Present(v.clone()),
            FieldValue::Absent => FieldValue::Absent,
        }
    }
}

/// The descriptor fragment a field of kind `kind` with metadata `meta`
/// contributes: string options carry the autocomplete flag, numeric options
/// carry autocomplete and bounds, reference kinds carry neither.
pub open spec fn spec_describe_option(kind: OptionType, meta: OptionMetaView) -> OptionDescriptorView {
    match kind {
        OptionType::String => OptionDescriptorView::String {
            name: meta.name,
            description: meta.description,
            required: meta.required,
            autocomplete: meta.autocomplete,
        },
        OptionType::Integer => OptionDescriptorView::Integer {
            name: meta.name,
            description: meta.description,
            required: meta.required,
            autocomplete: meta.autocomplete,
            min_value: meta.min_value,
            max_value: meta.max_value,
        },
        OptionType::Number => OptionDescriptorView::Number {
            name: meta.name,
            description: meta.description,
            required: meta.required,
            autocomplete: meta.autocomplete,
            min_value: meta.min_value,
            max_value: meta.max_value,
        },
        OptionType::User => OptionDescriptorView::User {
            name: meta.name,
            description: meta.description,
            required: meta.required,
        },
        OptionType::Role => OptionDescriptorView::Role {
            name: meta.name,
            description: meta.description,
            required: meta.required,
        },
        OptionType::Channel => OptionDescriptorView::Channel {
            name: meta.name,
            description: meta.description,
            required: meta.required,
        },
        OptionType::Mentionable => OptionDescriptorView::Mentionable {
            name: meta.name,
            description: meta.description,
            required: meta.required,
        },
    }
}

/// Produce the descriptor fragment for one explicit field.  Side-effect free:
/// the fragment is exactly what [`spec_describe_option`] states.
pub fn describe_option(kind: OptionType, meta: OptionMeta) -> (d: OptionDescriptor)
    ensures
        d@ == spec_describe_option(kind, meta@),
{
    match kind {
        OptionType::String => OptionDescriptor::String {
            name: meta.name,
            description: meta.description,
            required: meta.required,
            autocomplete: meta.autocomplete,
        },
        OptionType::Integer => OptionDescriptor::Integer {
            name: meta.name,
            description: meta.description,
            required: meta.required,
            autocomplete: meta.autocomplete,
            min_value: meta.min_value,
            max_value: meta.max_value,
        },
        OptionType::Number => OptionDescriptor::Number {
            name: meta.name,
            description: meta.description,
            required: meta.required,
            autocomplete: meta.autocomplete,
            min_value: meta.min_value,
            max_value: meta.max_value,
        },
        OptionType::User => OptionDescriptor::User {
            name: meta.name,
            description: meta.description,
            required: meta.required,
        },
        OptionType::Role => OptionDescriptor::Role {
            name: meta.name,
            description: meta.description,
            required: meta.required,
        },
        OptionType::Channel => OptionDescriptor::Channel {
            name: meta.name,
            description: meta.description,
            required: meta.required,
        },
        OptionType::Mentionable => OptionDescriptor::Mentionable {
            name: meta.name,
            description: meta.description,
            required: meta.required,
        },
    }
}

/// The view of an optionally-present borrowed wire value.
pub open spec fn opt_wire_view(v: Option<&WireValue>) -> Option<WireValueView> {
    match v {
        Some(w) => Some(w@),
        None => None,
    }
}

/// The view of a field parse result.
pub open spec fn field_result_view(r: Result<FieldValue, OptionError>) -> Result<
    FieldValueView,
    OptionError,
> {
    match r {
        Ok(v) => Ok(v@),
        Err(e) => Err(e),
    }
}

/// What parsing a raw value into a field of kind `kind` yields.  An absent
/// value is a `Missing` error for a required field and a successful `Absent`
/// for an optional one; a present value of the wrong tag is an `InvalidType`
/// error carrying the value's true tag; a present value of the matching tag
/// is unwrapped.
pub open spec fn spec_parse_option(
    kind: OptionType,
    required: bool,
    value: Option<WireValueView>,
) -> Result<FieldValueView, OptionError> {
    match value {
        None => if required {
            Err(OptionError::Missing)
        } else {
            Ok(FieldValueView::Absent)
        },
        Some(v) => if v.kind() == kind {
            Ok(FieldValueView::Present(v))
        } else {
            Err(OptionError::InvalidType { expected: kind, actual: v.kind() })
        },
    }
}

/// Parse a raw tagged value (or its absence) into a field of kind `kind`.
/// Total over its input space: the result is exactly what
/// [`spec_parse_option`] states, for every input.
pub fn parse_option(kind: OptionType, required: bool, value: Option<&WireValue>) -> (r: Result<
    FieldValue,
    OptionError,
>)
    ensures
        field_result_view(r) == spec_parse_option(kind, required, opt_wire_view(value)),
{
    match value {
        None => if required {
            Err(OptionError::Missing)
        } else {
            Ok(FieldValue::Absent)
        },
        Some(v) => {
            let actual = v.kind();
            if actual == kind {
                Ok(FieldValue::Present(v.clone()))
            } else {
                Err(OptionError::InvalidType { expected: kind, actual })
            }
        },
    }
}

/// Law: parsing an absent optional field succeeds with an empty result,
/// never a `Missing` error.
pub proof fn lemma_optional_absent(kind: OptionType)
    ensures
        spec_parse_option(kind, false, None) == Ok::<FieldValueView, OptionError>(
            FieldValueView::Absent,
        ),
{
}

/// Law: the optional wrapper round-trips present values.  Parsing a present
/// value into an optional field succeeds exactly when parsing it into the
/// required field of the same kind succeeds, with the same unwrapped value,
/// and fails with the same error otherwise.
pub proof fn lemma_optional_present(kind: OptionType, v: WireValueView)
    ensures
        spec_parse_option(kind, false, Some(v)) == spec_parse_option(kind, true, Some(v)),
{
}

} // verus!
