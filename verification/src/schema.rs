//! Field descriptors and schemas: the declarative description of a
//! structured configuration type.

use vstd::prelude::*;
use crate::value::ScalarType;

verus! {

/// How a field is resolved. A field is optional or has a default, never
/// both: the variants keep the two apart.
#[derive(Debug, PartialEq, Eq)]
pub enum Resolution {
    /// The key must be present.
    Plain,
    /// An absent key gives an absent value.
    Optional,
    /// An absent key gives the parsed literal.
    Default { literal: String },
    /// The field is itself a schema, resolved under the current prefix
    /// followed by `prefix`.
    Nested { prefix: String, schema: Schema },
}

/// The resolution rule of one field.
#[derive(Debug, PartialEq, Eq)]
pub struct FieldDescriptor {
    /// The field's identifier within the owning type.
    pub target_field: String,
    /// The key, before any prefix. Not read for a nested field.
    pub key_name: String,
    /// The type to parse into. Not read for a nested field.
    pub scalar: ScalarType,
    pub resolution: Resolution,
}

/// The fields of one structured type, in declaration order.
#[derive(Debug, PartialEq, Eq)]
pub struct Schema {
    pub fields: Vec<FieldDescriptor>,
}

/// Mathematical model of a [`Resolution`].
pub enum ResolutionView {
    Plain,
    Optional,
    Default { literal: Seq<char> },
    Nested { prefix: Seq<char>, schema: Seq<FieldView> },
}

/// Mathematical model of a [`FieldDescriptor`].
pub struct FieldView {
    pub target_field: Seq<char>,
    pub key_name: Seq<char>,
    pub scalar: ScalarType,
    pub resolution: ResolutionView,
}

/// The model of a field descriptor, by recursion over nested schemas.
pub open spec fn field_view(f: FieldDescriptor) -> FieldView
    decreases f,
{
    FieldView {
        target_field: f.target_field@,
        key_name: f.key_name@,
        scalar: f.scalar,
        resolution: match f.resolution {
            Resolution::Plain => ResolutionView::Plain,
            Resolution::Optional => ResolutionView::Optional,
            Resolution::Default { literal } => ResolutionView::Default { literal: literal@ },
            Resolution::Nested { prefix, schema } => ResolutionView::Nested {
                prefix: prefix@,
                schema: Seq::new(
                    schema.fields@.len(),
                    |i: int|
                        if 0 <= i < schema.fields@.len() {
                            field_view(schema.fields[i])
                        } else {
                            arbitrary()
                        },
                ),
            },
        },
    }
}

impl View for FieldDescriptor {
    type V = FieldView;

    open spec fn view(&self) -> FieldView {
        field_view(*self)
    }
}

impl View for Schema {
    type V = Seq<FieldView>;

    open spec fn view(&self) -> Seq<FieldView> {
        Seq::new(self.fields@.len(), |i: int| self.fields[i]@)
    }
}

/// The model of a nested field is the nested schema's model.
pub proof fn nested_view(f: FieldDescriptor)
    requires
        f.resolution is Nested,
    ensures
        f@.resolution == (ResolutionView::Nested {
            prefix: f.resolution->prefix@,
            schema: f.resolution->schema@,
        }),
{
    let schema = f.resolution->schema;
    assert(f@.resolution->schema =~= schema@);
}

impl FieldDescriptor {
    /// A required field of type `scalar`, read from `key_name`.
    pub fn plain(target_field: &str, key_name: &str, scalar: ScalarType) -> (r: FieldDescriptor)
        ensures
            r@ == (FieldView {
                target_field: target_field@,
                key_name: key_name@,
                scalar,
                resolution: ResolutionView::Plain,
            }),
    {
        FieldDescriptor {
            target_field: target_field.to_owned(),
            key_name: key_name.to_owned(),
            scalar,
            resolution: Resolution::Plain,
        }
    }

    /// An optional field of type `scalar`, read from `key_name`.
    pub fn optional(target_field: &str, key_name: &str, scalar: ScalarType) -> (r: FieldDescriptor)
        ensures
            r@ == (FieldView {
                target_field: target_field@,
                key_name: key_name@,
                scalar,
                resolution: ResolutionView::Optional,
            }),
    {
        FieldDescriptor {
            target_field: target_field.to_owned(),
            key_name: key_name.to_owned(),
            scalar,
            resolution: Resolution::Optional,
        }
    }

    /// A field of type `scalar`, read from `key_name`, that falls back to
    /// `literal` where the key is absent.
    pub fn with_default(
        target_field: &str,
        key_name: &str,
        scalar: ScalarType,
        literal: &str,
    ) -> (r: FieldDescriptor)
        ensures
            r@ == (FieldView {
                target_field: target_field@,
                key_name: key_name@,
                scalar,
                resolution: ResolutionView::Default { literal: literal@ },
            }),
    {
        FieldDescriptor {
            target_field: target_field.to_owned(),
            key_name: key_name.to_owned(),
            scalar,
            resolution: Resolution::Default { literal: literal.to_owned() },
        }
    }

    /// A nested field: `schema` resolved with `prefix` appended to the
    /// prefix in force.
    pub fn nested(target_field: &str, prefix: &str, schema: Schema) -> (r: FieldDescriptor)
        ensures
            r@.target_field == target_field@,
            r@.key_name == Seq::<char>::empty(),
            r@.scalar == ScalarType::Text,
            r@.resolution == (ResolutionView::Nested { prefix: prefix@, schema: schema@ }),
    {
        let r = FieldDescriptor {
            target_field: target_field.to_owned(),
            key_name: String::new(),
            scalar: ScalarType::Text,
            resolution: Resolution::Nested { prefix: prefix.to_owned(), schema },
        };
        proof {
            nested_view(r);
        }
        r
    }
}

impl FieldDescriptor {
    /// Whether an absent key gives an absent value.
    pub fn is_optional(&self) -> (r: bool)
        ensures
            r == (self@.resolution is Optional),
    {
        matches!(self.resolution, Resolution::Optional)
    }

    /// Whether the field is itself a schema.
    pub fn is_nested(&self) -> (r: bool)
        ensures
            r == (self@.resolution is Nested),
    {
        matches!(self.resolution, Resolution::Nested { .. })
    }

    /// The literal that stands in for an absent key, if the field has one.
    pub fn default_literal(&self) -> (r: Option<&str>)
        ensures
            match r {
                Some(literal) => self@.resolution == (ResolutionView::Default {
                    literal: literal@,
                }),
                None => !(self@.resolution is Default),
            },
    {
        match &self.resolution {
            Resolution::Default { literal } => Some(literal.as_str()),
            _ => None,
        }
    }
}

impl Schema {
    /// The schema with the given fields.
    pub fn new(fields: Vec<FieldDescriptor>) -> (r: Schema)
        ensures
            r.fields == fields,
    {
        Schema { fields }
    }
}

} // verus!
