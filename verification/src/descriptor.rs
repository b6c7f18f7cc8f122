//! Wire-format descriptors: the registration payload derived from a schema.

use vstd::prelude::*;

use crate::capability::{describe_option, spec_describe_option, OptionMeta, OptionMetaView};
use crate::schema::{CommandSchema, ExplicitFieldView, FieldView, SchemaView};
use crate::wire::Bound;

verus! {

/// One option fragment of a command descriptor, tagged by option kind.  Every
/// fragment carries the option's name, description and required flag; string
/// options add the autocomplete flag; numeric options add the autocomplete
/// flag and the optional numeric bounds; reference kinds carry no bounds.
#[derive(Debug, PartialEq, Eq)]
pub enum OptionDescriptor {
    String { name: String, description: String, required: bool, autocomplete: bool },
    Integer {
        name: String,
        description: String,
        required: bool,
        autocomplete: bool,
        min_value: Option<Bound>,
        max_value: Option<Bound>,
    },
    Number {
        name: String,
        description: String,
        required: bool,
        autocomplete: bool,
        min_value: Option<Bound>,
        max_value: Option<Bound>,
    },
    User { name: String, description: String, required: bool },
    Role { name: String, description: String, required: bool },
    Channel { name: String, description: String, required: bool },
    Mentionable { name: String, description: String, required: bool },
}

/// The mathematical model of an [`OptionDescriptor`].
pub enum OptionDescriptorView {
    String { name: Seq<char>, description: Seq<char>, required: bool, autocomplete: bool },
    Integer {
        name: Seq<char>,
        description: Seq<char>,
        required: bool,
        autocomplete: bool,
        min_value: Option<Bound>,
        max_value: Option<Bound>,
    },
    Number {
        name: Seq<char>,
        description: Seq<char>,
        required: bool,
        autocomplete: bool,
        min_value: Option<Bound>,
        max_value: Option<Bound>,
    },
    User { name: Seq<char>, description: Seq<char>, required: bool },
    Role { name: Seq<char>, description: Seq<char>, required: bool },
    Channel { name: Seq<char>, description: Seq<char>, required: bool },
    Mentionable { name: Seq<char>, description: Seq<char>, required: bool },
}

impl View for OptionDescriptor {
    type V = OptionDescriptorView;

    open spec fn view(&self) -> OptionDescriptorView {
        match self {
            OptionDescriptor::String { name, description, required, autocomplete } => {
                OptionDescriptorView::String {
                    name: name@,
                    description: description@,
                    required: *required,
                    autocomplete: *autocomplete,
                }
            },
            OptionDescriptor::Integer {
                name,
                description,
                required,
                autocomplete,
                min_value,
                max_value,
            } => OptionDescriptorView::Integer {
                name: name@,
                description: description@,
                required: *required,
                autocomplete: *autocomplete,
                min_value: *min_value,
                max_value: *max_value,
            },
            OptionDescriptor::Number {
                name,
                description,
                required,
                autocomplete,
                min_value,
                max_value,
            } => OptionDescriptorView::Number {
                name: name@,
                description: description@,
                required: *required,
                autocomplete: *autocomplete,
                min_value: *min_value,
                max_value: *max_value,
            },
            OptionDescriptor::User { name, description, required } => OptionDescriptorView::User {
                name: name@,
                description: description@,
                required: *required,
            },
            OptionDescriptor::Role { name, description, required } => OptionDescriptorView::Role {
                name: name@,
                description: description@,
                required: *required,
            },
            OptionDescriptor::Channel { name, description, required } => {
                OptionDescriptorView::Channel {
                    name: name@,
                    description: description@,
                    required: *required,
                }
            },
            OptionDescriptor::Mentionable { name, description, required } => {
                OptionDescriptorView::Mentionable {
                    name: name@,
                    description: description@,
                    required: *required,
                }
            },
        }
    }
}

/// The registration payload for one command: header fields and the ordered
/// option fragments of its explicit fields.
#[derive(Debug, PartialEq, Eq)]
pub struct CommandDescriptor {
    pub name: String,
    pub description: String,
    pub version: u64,
    pub options: Vec<OptionDescriptor>,
}

/// The mathematical model of a [`CommandDescriptor`].
pub struct CommandDescriptorView {
    pub name: Seq<char>,
    pub description: Seq<char>,
    pub version: u64,
    pub options: Seq<OptionDescriptorView>,
}

impl View for CommandDescriptor {
    type V = CommandDescriptorView;

    open spec fn view(&self) -> CommandDescriptorView {
        CommandDescriptorView {
            name: self.name@,
            description: self.description@,
            version: self.version,
            options: self.options@.map_values(|o: OptionDescriptor| o@),
        }
    }
}

/// The metadata an explicit field contributes to its descriptor fragment.
pub open spec fn meta_of(ex: ExplicitFieldView) -> OptionMetaView {
    OptionMetaView {
        name: ex.name,
        description: ex.description,
        autocomplete: ex.autocomplete,
        required: ex.required,
        min_value: ex.min,
        max_value: ex.max,
    }
}

/// The option fragments of a field list, in field order: each explicit field
/// contributes its kind's fragment; implicit fields contribute nothing and
/// are never visible to the platform.
pub open spec fn explicit_descriptors(fields: Seq<FieldView>) -> Seq<OptionDescriptorView>
    decreases fields.len(),
{
    if fields.len() == 0 {
        Seq::empty()
    } else {
        explicit_descriptors(fields.drop_last()) + (match fields.last() {
            FieldView::Explicit(ex) => seq![spec_describe_option(ex.kind, meta_of(ex))],
            FieldView::Implicit(_) => Seq::<OptionDescriptorView>::empty(),
        })
    }
}

/// The descriptor a schema maps to: its header fields carried over, and the
/// option fragments of its explicit fields in field order.
pub open spec fn spec_describe(s: SchemaView) -> CommandDescriptorView {
    CommandDescriptorView {
        name: s.name,
        description: s.description,
        version: s.version,
        options: explicit_descriptors(s.fields),
    }
}

/// Law: building and describing are deterministic: the schema and the
/// descriptor are functions of the declaration's value alone, so two builds
/// of the same valid declaration yield identical descriptors.
pub proof fn lemma_build_describe_deterministic(
    d1: crate::schema::CommandDeclView,
    d2: crate::schema::CommandDeclView,
)
    requires
        d1 == d2,
    ensures
        crate::schema::violations(d1) == crate::schema::violations(d2),
        crate::schema::resolved_schema(d1) == crate::schema::resolved_schema(d2),
        spec_describe(crate::schema::resolved_schema(d1)) == spec_describe(
            crate::schema::resolved_schema(d2),
        ),
{
}

/// Produce the registration descriptor of a validated schema.  Pure and
/// total: the result is exactly what [`spec_describe`] states; a schema that
/// passed validation cannot fail description.
pub fn describe(schema: &CommandSchema) -> (r: CommandDescriptor)
    requires
        schema.wf(),
    ensures
        r@ == spec_describe(schema@),
{
    let ghost gfields = schema@.fields;
    let mut options: Vec<OptionDescriptor> = Vec::new();
    let mut i: usize = 0;
    while i < schema.fields.len()
        invariant
            0 <= i <= schema.fields.len(),
            gfields == schema@.fields,
            options@.map_values(|o: OptionDescriptor| o@) == explicit_descriptors(
                gfields.take(i as int),
            ),
        decreases schema.fields.len() - i,
    {
        proof {
            assert(gfields[i as int] == schema.fields@[i as int]@);
            assert(gfields.take(i as int + 1).drop_last() =~= gfields.take(i as int));
            assert(gfields.take(i as int + 1).last() == gfields[i as int]);
        }
        match &schema.fields[i] {
            crate::schema::Field::Explicit(ex) => {
                let meta = OptionMeta {
                    name: ex.name.clone(),
                    description: ex.description.clone(),
                    autocomplete: ex.autocomplete,
                    required: ex.required,
                    min_value: ex.min,
                    max_value: ex.max,
                };
                options.push(describe_option(ex.kind, meta));
                proof {
                    assert(options@.map_values(|o: OptionDescriptor| o@) =~= explicit_descriptors(
                        gfields.take(i as int + 1),
                    ));
                }
            },
            crate::schema::Field::Implicit(_) => {
                proof {
                    assert(options@.map_values(|o: OptionDescriptor| o@) =~= explicit_descriptors(
                        gfields.take(i as int + 1),
                    ));
                }
            },
        }
        i = i + 1;
    }
    proof {
        assert(gfields.take(gfields.len() as int) =~= gfields);
    }
    CommandDescriptor {
        name: schema.name.clone(),
        description: schema.description.clone(),
        version: schema.version,
        options,
    }
}

} // verus!
