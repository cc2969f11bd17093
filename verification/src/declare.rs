//! From the declaration of a structured type to its schema: which option
//! makes a field nested, optional, defaulted or plain, and which key it is
//! read from.

use vstd::prelude::*;
use vstd::string::*;
use crate::binder::{bind, bound, record_result_view};
use crate::error::Error;
use crate::options::{
    can_find, find_item_in_list, findable, items_view, matched, matched_value, parse_meta_list,
    parsed_meta_list, MatchingItem, MatchingView, MetaItem, MetaItemView,
};
use crate::schema::{nested_view, FieldDescriptor, FieldView, Resolution, ResolutionView, Schema};
use crate::source::Source;
use crate::value::{ScalarType, Value};

verus! {

/// The upper-case form of a string, as the standard library computes it.
pub uninterp spec fn uppercased(s: Seq<char>) -> Seq<char>;

/// Calls `str::to_uppercase`, which returns the upper-case equivalent of the
/// string as a new `String`.
#[verifier::external_body]
fn to_uppercase(s: &str) -> (r: String)
    ensures
        r@ == uppercased(s@),
{
    s.to_uppercase()
}

/// A schema together with the prefix that its own declaration asks for.
#[derive(Debug, PartialEq, Eq)]
pub struct RootSchema {
    /// Stands in front of every key of the schema, nested ones included.
    pub env_prefix: String,
    pub schema: Schema,
}

/// Mathematical model of a [`RootSchema`].
pub struct RootSchemaView {
    pub env_prefix: Seq<char>,
    pub schema: Seq<FieldView>,
}

impl View for RootSchema {
    type V = RootSchemaView;

    open spec fn view(&self) -> RootSchemaView {
        RootSchemaView { env_prefix: self.env_prefix@, schema: self.schema@ }
    }
}

/// The declared type of a field.
#[derive(Debug, PartialEq, Eq)]
pub enum FieldType {
    /// A scalar that must be there.
    Scalar(ScalarType),
    /// A scalar that may be absent.
    Optional(ScalarType),
    /// A structured type, given by its schema.
    Struct(RootSchema),
}

/// Mathematical model of a [`FieldType`].
pub enum FieldTypeView {
    Scalar(ScalarType),
    Optional(ScalarType),
    Struct(RootSchemaView),
}

impl View for FieldType {
    type V = FieldTypeView;

    open spec fn view(&self) -> FieldTypeView {
        match self {
            FieldType::Scalar(t) => FieldTypeView::Scalar(*t),
            FieldType::Optional(t) => FieldTypeView::Optional(*t),
            FieldType::Struct(s) => FieldTypeView::Struct(s@),
        }
    }
}

/// Calls `str::strip_prefix`: the rest of the text behind `prefix`, or
/// `None` where the text does not start with `prefix`.
#[verifier::external_body]
fn strip_prefix<'a>(text: &'a str, prefix: &str) -> (r: Option<&'a str>)
    ensures
        match r {
            Some(rest) => text@ == prefix@ + rest@,
            None => !prefix@.is_prefix_of(text@),
        },
{
    text.strip_prefix(prefix)
}

/// Calls `str::strip_suffix`: the text in front of `suffix`, or `None` where
/// the text does not end with `suffix`.
#[verifier::external_body]
fn strip_suffix<'a>(text: &'a str, suffix: &str) -> (r: Option<&'a str>)
    ensures
        match r {
            Some(rest) => text@ == rest@ + suffix@,
            None => !suffix@.is_suffix_of(text@),
        },
{
    text.strip_suffix(suffix)
}

/// The scalar type that a type name stands for; a name that is none of the
/// scalar types stands for text, which its owner parses.
pub open spec fn scalar_or_text(name: Seq<char>) -> ScalarType {
    match ScalarType::named(name) {
        Some(t) => t,
        None => ScalarType::Text,
    }
}

/// What stands between `Option < ` and ` >` in a printed type; where the
/// text has not that form, the text itself.
pub open spec fn option_argument(text: Seq<char>) -> Seq<char> {
    let open = "Option < "@;
    let close = " >"@;
    if open.is_prefix_of(text) && close.is_suffix_of(text.skip(open.len() as int)) {
        text.subrange(open.len() as int, text.len() - close.len())
    } else {
        text
    }
}

/// The declared type that the printed tokens of a scalar field's type stand
/// for: optional where the text begins with `Option `, else required.
pub open spec fn declared_type(text: Seq<char>) -> FieldTypeView {
    if "Option "@.is_prefix_of(text) {
        FieldTypeView::Optional(scalar_or_text(option_argument(text)))
    } else {
        FieldTypeView::Scalar(scalar_or_text(text))
    }
}

impl FieldType {
    /// The declared type of a scalar field, from the tokens of its type as
    /// printed, each followed by a space.
    pub fn from_tokens(text: &str) -> (r: FieldType)
        ensures
            r@ == declared_type(text@),
    {
        match strip_prefix(text, "Option ") {
            Some(after) => {
                assert("Option "@.is_prefix_of(text@)) by {
                    assert(text@.subrange(0, "Option "@.len() as int) =~= "Option "@);
                }
                let argument = match strip_prefix(text, "Option < ") {
                    Some(rest) => {
                        let ghost open = "Option < "@;
                        assert(open.is_prefix_of(text@)) by {
                            assert(text@.subrange(0, open.len() as int) =~= open);
                        }
                        assert(text@.skip(open.len() as int) =~= rest@);
                        match strip_suffix(rest, " >") {
                            Some(name) => {
                                let ghost close = " >"@;
                                assert(close.is_suffix_of(rest@)) by {
                                    assert(rest@.subrange(
                                        rest@.len() - close.len(),
                                        rest@.len() as int,
                                    ) =~= close);
                                }
                                assert(name@ =~= text@.subrange(
                                    open.len() as int,
                                    text@.len() - close.len(),
                                ));
                                name
                            },
                            None => text,
                        }
                    },
                    None => text,
                };
                FieldType::Optional(
                    match ScalarType::from_type_name(argument) {
                        Some(t) => t,
                        None => ScalarType::Text,
                    },
                )
            },
            None => FieldType::Scalar(
                match ScalarType::from_type_name(text) {
                    Some(t) => t,
                    None => ScalarType::Text,
                },
            ),
        }
    }
}

/// An attribute on a field or on a structure: its name and its option list.
#[derive(Debug, PartialEq, Eq)]
pub struct Attribute {
    pub path: String,
    pub args: Vec<MetaItem>,
}

/// Mathematical model of an [`Attribute`].
pub struct AttributeView {
    pub path: Seq<char>,
    pub args: Seq<MetaItemView>,
}

impl View for Attribute {
    type V = AttributeView;

    open spec fn view(&self) -> AttributeView {
        AttributeView { path: self.path@, args: items_view(self.args@) }
    }
}

impl Attribute {
    /// Reads an attribute from its name and the text of its option list, in
    /// the syntax of attribute arguments. Gives `None` where the text is no
    /// option list.
    pub fn parse(path: &str, args: &str) -> (r: Option<Attribute>)
        ensures
            match parsed_meta_list(args@) {
                Some(items) => r is Some && r->Some_0@ == (AttributeView {
                    path: path@,
                    args: items,
                }),
                None => r is None,
            },
    {
        match parse_meta_list(args) {
            Some(items) => Some(Attribute { path: path.to_owned(), args: items }),
            None => None,
        }
    }
}

/// The models of a list of attributes, in order.
pub open spec fn attributes_view(attrs: Seq<Attribute>) -> Seq<AttributeView> {
    Seq::new(attrs.len(), |i: int| attrs[i]@)
}

/// The declaration of one field: its identifier, its type and the
/// attributes written on it.
#[derive(Debug, PartialEq, Eq)]
pub struct FieldDecl {
    pub ident: String,
    pub ty: FieldType,
    pub attrs: Vec<Attribute>,
}

/// Mathematical model of a [`FieldDecl`].
pub struct FieldDeclView {
    pub ident: Seq<char>,
    pub ty: FieldTypeView,
    pub attrs: Seq<AttributeView>,
}

impl View for FieldDecl {
    type V = FieldDeclView;

    open spec fn view(&self) -> FieldDeclView {
        FieldDeclView { ident: self.ident@, ty: self.ty@, attrs: attributes_view(self.attrs@) }
    }
}

/// The declaration of a structured type: its attributes and its named
/// fields, in order.
#[derive(Debug, PartialEq, Eq)]
pub struct StructDecl {
    pub name: String,
    pub attrs: Vec<Attribute>,
    pub fields: Vec<FieldDecl>,
}

/// Mathematical model of a [`StructDecl`].
pub struct StructDeclView {
    pub name: Seq<char>,
    pub attrs: Seq<AttributeView>,
    pub fields: Seq<FieldDeclView>,
}

impl View for StructDecl {
    type V = StructDeclView;

    open spec fn view(&self) -> StructDeclView {
        StructDeclView {
            name: self.name@,
            attrs: attributes_view(self.attrs@),
            fields: Seq::new(self.fields@.len(), |i: int| self.fields@[i]@),
        }
    }
}

/// The option list of the first attribute named `envconfig`.
pub open spec fn options_of(attrs: Seq<AttributeView>) -> Option<Seq<MetaItemView>>
    decreases attrs.len(),
{
    if attrs.len() == 0 {
        None
    } else {
        match options_of(attrs.drop_last()) {
            Some(list) => Some(list),
            None => if attrs.last().path == "envconfig"@ {
                Some(attrs.last().args)
            } else {
                None
            },
        }
    }
}

/// Whether an option list makes its field a nested one: it holds `nested` or
/// `prefix`.
pub open spec fn asks_nested(list: Seq<MetaItemView>) -> bool {
    matched(list, "nested"@) is Some || matched(list, "prefix"@) is Some
}

/// Whether a scalar resolution fits the declared type: a structured type
/// must be nested, and an optional type takes no default.
pub open spec fn valid_scalar(ty: FieldTypeView, default: Option<Seq<char>>) -> bool {
    match ty {
        FieldTypeView::Scalar(_) => true,
        FieldTypeView::Optional(_) => default is None,
        FieldTypeView::Struct(_) => false,
    }
}

/// Whether an option list is one that a field of type `ty` can carry.
/// `nested` stands alone and has no value; `prefix`, `default` and `from`
/// each stand at most once and have a literal value; a nested field has a
/// structured type; `default` and `from` are not looked at on a nested
/// field.
pub open spec fn valid_options(list: Seq<MetaItemView>, ty: FieldTypeView) -> bool {
    &&& findable(list, "nested"@)
    &&& matched(list, "nested"@) is Some ==> matched(list, "nested"@) == Some(
        MatchingView::NoValue,
    )
    &&& findable(list, "prefix"@)
    &&& matched(list, "prefix"@) != Some(MatchingView::NoValue)
    &&& if asks_nested(list) {
        ty is Struct
    } else {
        &&& findable(list, "default"@)
        &&& matched(list, "default"@) != Some(MatchingView::NoValue)
        &&& findable(list, "from"@)
        &&& matched(list, "from"@) != Some(MatchingView::NoValue)
        &&& valid_scalar(ty, matched_value(list, "default"@))
    }
}

/// Whether a field's declaration can be turned into a descriptor.
pub open spec fn valid_field(f: FieldDeclView) -> bool {
    match options_of(f.attrs) {
        Some(list) => valid_options(list, f.ty),
        None => valid_scalar(f.ty, None),
    }
}

/// Whether a structure's declaration can be turned into a schema: its own
/// `env_prefix`, if any, stands once with a literal value, and every field
/// is valid.
pub open spec fn valid_struct(decl: StructDeclView) -> bool {
    &&& match options_of(decl.attrs) {
        Some(list) => findable(list, "env_prefix"@) && matched(list, "env_prefix"@) != Some(
            MatchingView::NoValue,
        ),
        None => true,
    }
    &&& forall|i: int| 0 <= i < decl.fields.len() ==> valid_field(#[trigger] decl.fields[i])
}

/// The descriptor of a scalar field read from `key`.
pub open spec fn scalar_descriptor(
    ident: Seq<char>,
    ty: FieldTypeView,
    key: Seq<char>,
    default: Option<Seq<char>>,
) -> FieldView {
    match ty {
        FieldTypeView::Optional(t) => FieldView {
            target_field: ident,
            key_name: key,
            scalar: t,
            resolution: ResolutionView::Optional,
        },
        FieldTypeView::Scalar(t) => FieldView {
            target_field: ident,
            key_name: key,
            scalar: t,
            resolution: match default {
                Some(literal) => ResolutionView::Default { literal },
                None => ResolutionView::Plain,
            },
        },
        FieldTypeView::Struct(_) => arbitrary(),
    }
}

/// The descriptor of a nested field: the child's schema under the field's
/// fragment followed by the child's own prefix.
pub open spec fn nested_descriptor(
    ident: Seq<char>,
    fragment: Seq<char>,
    child: RootSchemaView,
) -> FieldView {
    FieldView {
        target_field: ident,
        key_name: Seq::empty(),
        scalar: ScalarType::Text,
        resolution: ResolutionView::Nested {
            prefix: fragment + child.env_prefix,
            schema: child.schema,
        },
    }
}

/// The descriptor that a valid field declaration stands for. A field with
/// `nested` or `prefix` is nested, with the value of `prefix` as its
/// fragment. Any other field is read from the value of `from` or, without
/// it, from its identifier in upper case; it is optional where its type is,
/// else defaulted where `default` is given, else required.
pub open spec fn described_field(f: FieldDeclView) -> FieldView {
    match options_of(f.attrs) {
        Some(list) => if asks_nested(list) {
            nested_descriptor(
                f.ident,
                match matched_value(list, "prefix"@) {
                    Some(fragment) => fragment,
                    None => Seq::empty(),
                },
                f.ty->Struct_0,
            )
        } else {
            scalar_descriptor(
                f.ident,
                f.ty,
                match matched_value(list, "from"@) {
                    Some(key) => key,
                    None => uppercased(f.ident),
                },
                matched_value(list, "default"@),
            )
        },
        None => scalar_descriptor(f.ident, f.ty, uppercased(f.ident), None),
    }
}

/// The schema that a valid structure declaration stands for.
pub open spec fn described_struct(decl: StructDeclView) -> RootSchemaView {
    RootSchemaView {
        env_prefix: match options_of(decl.attrs) {
            Some(list) => match matched_value(list, "env_prefix"@) {
                Some(prefix) => prefix,
                None => Seq::empty(),
            },
            None => Seq::empty(),
        },
        schema: Seq::new(decl.fields.len(), |i: int| described_field(decl.fields[i])),
    }
}

/// The key that a field is read from when its declaration names none: the
/// identifier in upper case.
pub fn field_to_env_var_name(ident: &str) -> (r: String)
    ensures
        r@ == uppercased(ident@),
{
    to_uppercase(ident)
}

/// The option list of the first attribute named `envconfig`, if there is
/// one.
pub fn fetch_envconfig_attr(attrs: &Vec<Attribute>) -> (r: Option<&Vec<MetaItem>>)
    ensures
        match r {
            Some(list) => options_of(attributes_view(attrs@)) == Some(items_view(list@)),
            None => options_of(attributes_view(attrs@)) is None,
        },
{
    let ghost all = attributes_view(attrs@);
    let wanted = "envconfig".to_owned();
    let mut i: usize = 0;
    while i < attrs.len()
        invariant
            i <= attrs.len(),
            all == attributes_view(attrs@),
            wanted@ == "envconfig"@,
            options_of(all.take(i as int)) is None,
        decreases attrs.len() - i,
    {
        assert(all.take(i + 1).drop_last() =~= all.take(i as int));
        assert(all.take(i + 1).last() == attrs@[i as int]@);
        if attrs[i].path == wanted {
            proof {
                options_stay(all, (i + 1) as nat);
            }
            return Some(&attrs[i].args);
        }
        i += 1;
    }
    assert(all.take(attrs.len() as int) =~= all);
    None
}

/// Once an attribute named `envconfig` has been met among the first `k`,
/// its option list is that of the whole list of attributes.
pub proof fn options_stay(attrs: Seq<AttributeView>, k: nat)
    requires
        k <= attrs.len(),
        options_of(attrs.take(k as int)) is Some,
    ensures
        options_of(attrs) == options_of(attrs.take(k as int)),
    decreases attrs.len(),
{
    if k < attrs.len() {
        assert(attrs.drop_last().take(k as int) =~= attrs.take(k as int));
        options_stay(attrs.drop_last(), k);
    } else {
        assert(attrs.take(k as int) =~= attrs);
    }
}

/// Whether a scalar resolution fits the declared type.
fn fits_scalar(ty: &FieldType, has_default: bool) -> (r: bool)
    ensures
        forall|default: Option<Seq<char>>|
            default is Some == has_default ==> r == #[trigger] valid_scalar(ty@, default),
{
    match ty {
        FieldType::Scalar(_) => true,
        FieldType::Optional(_) => !has_default,
        FieldType::Struct(_) => false,
    }
}

/// Whether `item_name` stands at most once in `list`, and then with a
/// literal value.
fn has_literal_or_nothing(list: &Vec<MetaItem>, item_name: &str) -> (r: bool)
    ensures
        r == (findable(items_view(list@), item_name@) && matched(items_view(list@), item_name@)
            != Some(MatchingView::NoValue)),
{
    if !can_find(list, item_name) {
        return false;
    }
    match find_item_in_list(list, item_name) {
        Some(MatchingItem::NoValue) => false,
        _ => true,
    }
}

/// Whether a field's declaration can be turned into a descriptor.
pub fn check_field(field: &FieldDecl) -> (r: bool)
    ensures
        r == valid_field(field@),
{
    match fetch_envconfig_attr(&field.attrs) {
        None => fits_scalar(&field.ty, false),
        Some(list) => {
            if !can_find(list, "nested") {
                return false;
            }
            let nested = find_item_in_list(list, "nested");
            if let Some(MatchingItem::WithValue(_)) = nested {
                return false;
            }
            if !has_literal_or_nothing(list, "prefix") {
                return false;
            }
            let prefix = find_item_in_list(list, "prefix");
            if nested.is_some() || prefix.is_some() {
                matches!(field.ty, FieldType::Struct(_))
            } else {
                if !has_literal_or_nothing(list, "default") {
                    return false;
                }
                if !has_literal_or_nothing(list, "from") {
                    return false;
                }
                let default = find_item_in_list(list, "default");
                fits_scalar(&field.ty, default.is_some())
            }
        },
    }
}

/// The descriptor of a scalar field that is read from `key`: optional
/// where its type is, else defaulted where a default is given, else
/// required.
pub fn describe_scalar(
    ident: String,
    ty: FieldType,
    key: String,
    default: Option<&str>,
) -> (r: FieldDescriptor)
    requires
        !(ty@ is Struct),
        ty@ is Optional ==> default is None,
    ensures
        r@ == scalar_descriptor(
            ident@,
            ty@,
            key@,
            match default {
                Some(literal) => Some(literal@),
                None => None,
            },
        ),
{
    match ty {
        FieldType::Optional(t) => FieldDescriptor {
            target_field: ident,
            key_name: key,
            scalar: t,
            resolution: Resolution::Optional,
        },
        FieldType::Scalar(t) => FieldDescriptor {
            target_field: ident,
            key_name: key,
            scalar: t,
            resolution: match default {
                Some(literal) => Resolution::Default { literal: literal.to_owned() },
                None => Resolution::Plain,
            },
        },
        FieldType::Struct(_) => vstd::pervasive::unreached(),
    }
}

/// Turns the declaration of a field into its descriptor.
pub fn describe_field(field: FieldDecl) -> (r: FieldDescriptor)
    requires
        valid_field(field@),
    ensures
        r@ == described_field(field@),
{
    let FieldDecl { ident, ty, attrs } = field;
    match fetch_envconfig_attr(&attrs) {
        Some(list) => {
            let nested = find_item_in_list(list, "nested");
            let prefix = find_item_in_list(list, "prefix");
            if nested.is_some() || prefix.is_some() {
                let mut fragment = match prefix {
                    Some(MatchingItem::WithValue(value)) => value.to_owned(),
                    _ => String::new(),
                };
                match ty {
                    FieldType::Struct(child) => {
                        let RootSchema { env_prefix, schema } = child;
                        fragment.append(env_prefix.as_str());
                        let r = FieldDescriptor {
                            target_field: ident,
                            key_name: String::new(),
                            scalar: ScalarType::Text,
                            resolution: Resolution::Nested { prefix: fragment, schema },
                        };
                        proof {
                            nested_view(r);
                        }
                        r
                    },
                    _ => vstd::pervasive::unreached(),
                }
            } else {
                let default = match find_item_in_list(list, "default") {
                    Some(MatchingItem::WithValue(value)) => Some(value),
                    _ => None,
                };
                let key = match find_item_in_list(list, "from") {
                    Some(MatchingItem::WithValue(value)) => value.to_owned(),
                    _ => field_to_env_var_name(ident.as_str()),
                };
                describe_scalar(ident, ty, key, default)
            }
        },
        None => {
            let key = field_to_env_var_name(ident.as_str());
            describe_scalar(ident, ty, key, None)
        },
    }
}

/// Whether a structure's declaration can be turned into a schema.
pub fn check_struct(decl: &StructDecl) -> (r: bool)
    ensures
        r == valid_struct(decl@),
{
    let own = match fetch_envconfig_attr(&decl.attrs) {
        Some(list) => has_literal_or_nothing(list, "env_prefix"),
        None => true,
    };
    if !own {
        return false;
    }
    let mut i: usize = 0;
    while i < decl.fields.len()
        invariant
            i <= decl.fields.len(),
            forall|j: int| 0 <= j < i ==> valid_field(#[trigger] decl@.fields[j]),
        decreases decl.fields.len() - i,
    {
        if !check_field(&decl.fields[i]) {
            assert(decl@.fields[i as int] == decl.fields@[i as int]@);
            return false;
        }
        assert(decl@.fields[i as int] == decl.fields@[i as int]@);
        i += 1;
    }
    true
}

/// Turns the declaration of a structure into its schema, field by field in
/// declaration order.
pub fn describe_struct(decl: StructDecl) -> (r: RootSchema)
    requires
        valid_struct(decl@),
    ensures
        r@ == described_struct(decl@),
{
    let ghost model = decl@;
    let StructDecl { name, attrs, fields } = decl;
    let env_prefix = match fetch_envconfig_attr(&attrs) {
        Some(list) => match find_item_in_list(list, "env_prefix") {
            Some(MatchingItem::WithValue(value)) => value.to_owned(),
            _ => String::new(),
        },
        None => String::new(),
    };
    let mut rest = fields;
    let mut done: Vec<FieldDescriptor> = Vec::new();
    while rest.len() > 0
        invariant
            done@.len() + rest@.len() == model.fields.len(),
            forall|j: int|
                0 <= j < done@.len() ==> (#[trigger] done@[j])@ == described_field(
                    model.fields[j],
                ),
            forall|j: int|
                0 <= j < rest@.len() ==> (#[trigger] rest@[j])@ == model.fields[done@.len() + j],
            forall|j: int|
                0 <= j < model.fields.len() ==> valid_field(#[trigger] model.fields[j]),
        decreases rest@.len(),
    {
        let ghost n = done@.len() as int;
        let ghost before = rest@;
        assert(rest@[0]@ == model.fields[n]);
        let field = rest.remove(0);
        let descriptor = describe_field(field);
        done.push(descriptor);
        assert forall|j: int| 0 <= j < rest@.len() implies (#[trigger] rest@[j])@
            == model.fields[done@.len() + j] by {
            assert(rest@[j] == before[j + 1]);
        }
    }
    let r = RootSchema { env_prefix, schema: Schema::new(done) };
    assert(r@.schema =~= described_struct(model).schema);
    r
}

impl RootSchema {
    /// Resolves the schema against `source` under its own prefix.
    pub fn bind(&self, source: &Source) -> (r: Result<Vec<Value>, Error>)
        ensures
            record_result_view(r) == bound(self@.schema, source@, self@.env_prefix),
    {
        bind(&self.schema, source, self.env_prefix.as_str())
    }
}

} // verus!
