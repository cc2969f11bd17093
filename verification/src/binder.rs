//! The binding engine: resolves every field of a schema against a source,
//! in declaration order and depth first, and stops at the first failure.

use vstd::prelude::*;
use vstd::string::*;
use crate::error::{Error, ErrorView};
use crate::parse::{option_view, parse_scalar, parse_value};
use crate::schema::{nested_view, FieldDescriptor, FieldView, Resolution, ResolutionView, Schema};
use crate::source::Source;
use crate::value::{record_view, ScalarType, Value, ValueView};

verus! {

/// The key that is looked up: the prefix in force, then the field's own key
/// name, with nothing in between.
pub open spec fn full_key(prefix: Seq<char>, key_name: Seq<char>) -> Seq<char> {
    prefix + key_name
}

/// The parsed value of `raw`, or the parse error that names `key`.
pub open spec fn parsed_or_error(ty: ScalarType, raw: Seq<char>, key: Seq<char>) -> Result<
    ValueView,
    ErrorView,
> {
    match parse_scalar(ty, raw) {
        Some(v) => Ok(v),
        None => Err(ErrorView::ParseError { name: key }),
    }
}

/// Outcome of a required key: it must be present and parse.
pub open spec fn required_value(
    ty: ScalarType,
    key: Seq<char>,
    src: Map<Seq<char>, Seq<char>>,
) -> Result<ValueView, ErrorView> {
    if src.contains_key(key) {
        parsed_or_error(ty, src[key], key)
    } else {
        Err(ErrorView::EnvVarMissing { name: key })
    }
}

/// Outcome of a key with a default: the source's value where the key is
/// present, the literal where it is not; either must parse.
pub open spec fn defaulted_value(
    ty: ScalarType,
    key: Seq<char>,
    src: Map<Seq<char>, Seq<char>>,
    literal: Seq<char>,
) -> Result<ValueView, ErrorView> {
    if src.contains_key(key) {
        parsed_or_error(ty, src[key], key)
    } else {
        parsed_or_error(ty, literal, key)
    }
}

/// Outcome of an optional key: nothing where the key is absent; where it is
/// present, its value must parse.
pub open spec fn optional_value(
    ty: ScalarType,
    key: Seq<char>,
    src: Map<Seq<char>, Seq<char>>,
) -> Result<Option<ValueView>, ErrorView> {
    if src.contains_key(key) {
        match parse_scalar(ty, src[key]) {
            Some(v) => Ok(Some(v)),
            None => Err(ErrorView::ParseError { name: key }),
        }
    } else {
        Ok(None)
    }
}

/// Outcome of one field under `prefix`.
pub open spec fn bound_field(
    f: FieldView,
    src: Map<Seq<char>, Seq<char>>,
    prefix: Seq<char>,
) -> Result<ValueView, ErrorView>
    decreases f, 0nat,
{
    match f.resolution {
        ResolutionView::Plain => required_value(f.scalar, full_key(prefix, f.key_name), src),
        ResolutionView::Optional => match optional_value(
            f.scalar,
            full_key(prefix, f.key_name),
            src,
        ) {
            Ok(Some(v)) => Ok(v),
            Ok(None) => Ok(ValueView::Absent),
            Err(e) => Err(e),
        },
        ResolutionView::Default { literal } => defaulted_value(
            f.scalar,
            full_key(prefix, f.key_name),
            src,
            literal,
        ),
        ResolutionView::Nested { prefix: fragment, schema } => match bound_first(
            schema,
            schema.len(),
            src,
            prefix + fragment,
        ) {
            Ok(values) => Ok(ValueView::Record(values)),
            Err(e) => Err(e),
        },
    }
}

/// Outcome of the first `n` fields of `fields` under `prefix`: their values
/// in order, or the error of the first field that fails.
pub open spec fn bound_first(
    fields: Seq<FieldView>,
    n: nat,
    src: Map<Seq<char>, Seq<char>>,
    prefix: Seq<char>,
) -> Result<Seq<ValueView>, ErrorView>
    decreases fields, n,
{
    if n == 0 || n > fields.len() {
        Ok(Seq::empty())
    } else {
        match bound_first(fields, (n - 1) as nat, src, prefix) {
            Err(e) => Err(e),
            Ok(values) => match bound_field(fields[n - 1], src, prefix) {
                Err(e) => Err(e),
                Ok(v) => Ok(values.push(v)),
            },
        }
    }
}

/// Outcome of a whole schema under `prefix`.
pub open spec fn bound(
    schema: Seq<FieldView>,
    src: Map<Seq<char>, Seq<char>>,
    prefix: Seq<char>,
) -> Result<Seq<ValueView>, ErrorView> {
    bound_first(schema, schema.len(), src, prefix)
}

/// The model of a single field's outcome.
pub open spec fn value_result_view(r: Result<Value, Error>) -> Result<ValueView, ErrorView> {
    match r {
        Ok(v) => Ok(v@),
        Err(e) => Err(e@),
    }
}

/// The model of a schema's outcome.
pub open spec fn record_result_view(r: Result<Vec<Value>, Error>) -> Result<
    Seq<ValueView>,
    ErrorView,
> {
    match r {
        Ok(values) => Ok(record_view(values@)),
        Err(e) => Err(e@),
    }
}

/// The model of a record value is the list of its fields' models.
pub proof fn record_value_view(values: Vec<Value>)
    ensures
        Value::Record(values)@ == ValueView::Record(record_view(values@)),
{
    assert(Value::Record(values)@->Record_0 =~= record_view(values@));
}

/// Once one of the first `k` fields has failed, its error is the outcome of
/// every longer run of fields.
pub proof fn first_error_stays(
    fields: Seq<FieldView>,
    k: nat,
    n: nat,
    src: Map<Seq<char>, Seq<char>>,
    prefix: Seq<char>,
)
    requires
        k <= n <= fields.len(),
        bound_first(fields, k, src, prefix) is Err,
    ensures
        bound_first(fields, n, src, prefix) == bound_first(fields, k, src, prefix),
    decreases n,
{
    if k < n {
        first_error_stays(fields, k, (n - 1) as nat, src, prefix);
    }
}

/// `prefix` followed by `rest`.
pub fn join_key(prefix: &str, rest: &str) -> (r: String)
    ensures
        r@ == full_key(prefix@, rest@),
{
    let mut key = prefix.to_owned();
    key.append(rest);
    key
}

/// Reads the required key `var_name` from `source` and parses it as `ty`.
pub fn load_var(ty: ScalarType, var_name: &str, source: &Source) -> (r: Result<Value, Error>)
    ensures
        value_result_view(r) == required_value(ty, var_name@, source@),
{
    match source.lookup(var_name) {
        None => Err(Error::EnvVarMissing { name: var_name.to_owned() }),
        Some(raw) => match parse_value(ty, raw) {
            Some(v) => Ok(v),
            None => Err(Error::ParseError { name: var_name.to_owned() }),
        },
    }
}

/// Reads the key `var_name` from `source`, or takes `default` where the key
/// is absent, and parses the string as `ty`.
pub fn load_var_with_default(
    ty: ScalarType,
    var_name: &str,
    source: &Source,
    default: &str,
) -> (r: Result<Value, Error>)
    ensures
        value_result_view(r) == defaulted_value(ty, var_name@, source@, default@),
{
    let raw = match source.lookup(var_name) {
        None => default,
        Some(value) => value,
    };
    match parse_value(ty, raw) {
        Some(v) => Ok(v),
        None => Err(Error::ParseError { name: var_name.to_owned() }),
    }
}

/// Reads the key `var_name` from `source` and parses it as `ty`; an absent
/// key gives `None`.
pub fn load_optional_var(ty: ScalarType, var_name: &str, source: &Source) -> (r: Result<
    Option<Value>,
    Error,
>)
    ensures
        match r {
            Ok(v) => Ok::<Option<ValueView>, ErrorView>(option_view(v)),
            Err(e) => Err(e@),
        } == optional_value(ty, var_name@, source@),
{
    match source.lookup(var_name) {
        None => Ok(None),
        Some(raw) => match parse_value(ty, raw) {
            Some(v) => Ok(Some(v)),
            None => Err(Error::ParseError { name: var_name.to_owned() }),
        },
    }
}

/// Resolves one field under `prefix`.
pub fn bind_field(field: &FieldDescriptor, source: &Source, prefix: &str) -> (r: Result<
    Value,
    Error,
>)
    ensures
        value_result_view(r) == bound_field(field@, source@, prefix@),
    decreases field,
{
    match &field.resolution {
        Resolution::Plain => {
            let key = join_key(prefix, field.key_name.as_str());
            load_var(field.scalar, key.as_str(), source)
        },
        Resolution::Optional => {
            let key = join_key(prefix, field.key_name.as_str());
            match load_optional_var(field.scalar, key.as_str(), source) {
                Ok(Some(v)) => Ok(v),
                Ok(None) => Ok(Value::Absent),
                Err(e) => Err(e),
            }
        },
        Resolution::Default { literal } => {
            let key = join_key(prefix, field.key_name.as_str());
            load_var_with_default(field.scalar, key.as_str(), source, literal.as_str())
        },
        Resolution::Nested { prefix: fragment, schema } => {
            proof {
                nested_view(*field);
            }
            let inner = join_key(prefix, fragment.as_str());
            match bind(schema, source, inner.as_str()) {
                Ok(values) => {
                    proof {
                        record_value_view(values);
                    }
                    Ok(Value::Record(values))
                },
                Err(e) => Err(e),
            }
        },
    }
}

/// Resolves every field of `schema` against `source`, each key behind
/// `prefix`. Gives the fields' values in declaration order, or the error of
/// the first field, depth first, that cannot be resolved.
pub fn bind(schema: &Schema, source: &Source, prefix: &str) -> (r: Result<Vec<Value>, Error>)
    ensures
        record_result_view(r) == bound(schema@, source@, prefix@),
    decreases schema,
{
    let mut values: Vec<Value> = Vec::new();
    let mut i: usize = 0;
    assert(record_view(values@) =~= Seq::<ValueView>::empty());
    while i < schema.fields.len()
        invariant
            i <= schema.fields.len(),
            bound_first(schema@, i as nat, source@, prefix@) == Ok::<Seq<ValueView>, ErrorView>(
                record_view(values@),
            ),
        decreases schema.fields.len() - i,
    {
        let ghost before = values@;
        match bind_field(&schema.fields[i], source, prefix) {
            Ok(v) => {
                values.push(v);
                assert(record_view(values@) =~= record_view(before).push(v@));
            },
            Err(e) => {
                proof {
                    first_error_stays(
                        schema@,
                        (i + 1) as nat,
                        schema@.len(),
                        source@,
                        prefix@,
                    );
                }
                return Err(e);
            },
        }
        i += 1;
    }
    Ok(values)
}

} // verus!
