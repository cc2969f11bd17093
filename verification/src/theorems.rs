//! What holds of every bind call, proved from the definition of the
//! outcome.

use vstd::prelude::*;
use crate::binder::{
    bound, bound_field, bound_first, first_error_stays, full_key, record_result_view,
};
use crate::error::{Error, ErrorView};
use crate::parse::{has_type, parse_scalar};
use crate::schema::{FieldView, ResolutionView};
use crate::value::{Value, ValueView};

verus! {

/// Whether a field can be resolved: a required key is present and parses,
/// an optional key parses where it is present, a defaulted key parses where
/// it is present and its literal parses where it is not, and every field of
/// a nested schema can be resolved under the longer prefix.
pub open spec fn resolvable_field(
    f: FieldView,
    src: Map<Seq<char>, Seq<char>>,
    prefix: Seq<char>,
) -> bool
    decreases f,
{
    let key = full_key(prefix, f.key_name);
    match f.resolution {
        ResolutionView::Plain => src.contains_key(key) && parse_scalar(f.scalar, src[key]) is Some,
        ResolutionView::Optional => src.contains_key(key) ==> parse_scalar(
            f.scalar,
            src[key],
        ) is Some,
        ResolutionView::Default { literal } => if src.contains_key(key) {
            parse_scalar(f.scalar, src[key]) is Some
        } else {
            parse_scalar(f.scalar, literal) is Some
        },
        ResolutionView::Nested { prefix: fragment, schema } => forall|i: int|
            0 <= i < schema.len() ==> resolvable_field(
                #[trigger] schema[i],
                src,
                prefix + fragment,
            ),
    }
}

/// Whether every field of a schema can be resolved.
pub open spec fn resolvable(
    schema: Seq<FieldView>,
    src: Map<Seq<char>, Seq<char>>,
    prefix: Seq<char>,
) -> bool {
    forall|i: int| 0 <= i < schema.len() ==> resolvable_field(#[trigger] schema[i], src, prefix)
}

/// The value that a resolvable field is expected to get: the parsed value of
/// its key, the parsed default, nothing for an unset optional field, and for
/// a nested field the record of its fields' expected values.
pub open spec fn expected_field(
    f: FieldView,
    src: Map<Seq<char>, Seq<char>>,
    prefix: Seq<char>,
) -> ValueView
    decreases f,
{
    let key = full_key(prefix, f.key_name);
    match f.resolution {
        ResolutionView::Plain => parse_scalar(f.scalar, src[key]).unwrap(),
        ResolutionView::Optional => if src.contains_key(key) {
            parse_scalar(f.scalar, src[key]).unwrap()
        } else {
            ValueView::Absent
        },
        ResolutionView::Default { literal } => if src.contains_key(key) {
            parse_scalar(f.scalar, src[key]).unwrap()
        } else {
            parse_scalar(f.scalar, literal).unwrap()
        },
        ResolutionView::Nested { prefix: fragment, schema } => ValueView::Record(
            Seq::new(
                schema.len(),
                |i: int|
                    if 0 <= i < schema.len() {
                        expected_field(schema[i], src, prefix + fragment)
                    } else {
                        ValueView::Absent
                    },
            ),
        ),
    }
}

/// The expected values of a schema's fields, in declaration order.
pub open spec fn expected(
    schema: Seq<FieldView>,
    src: Map<Seq<char>, Seq<char>>,
    prefix: Seq<char>,
) -> Seq<ValueView> {
    Seq::new(schema.len(), |i: int| expected_field(schema[i], src, prefix))
}

/// A successful run over the first `n` fields holds one value per field,
/// each the outcome of its own field.
pub proof fn success_is_fieldwise(
    fields: Seq<FieldView>,
    n: nat,
    src: Map<Seq<char>, Seq<char>>,
    prefix: Seq<char>,
)
    requires
        n <= fields.len(),
        bound_first(fields, n, src, prefix) is Ok,
    ensures
        bound_first(fields, n, src, prefix)->Ok_0.len() == n,
        forall|i: int|
            0 <= i < n ==> bound_field(#[trigger] fields[i], src, prefix) == Ok::<
                ValueView,
                ErrorView,
            >(bound_first(fields, n, src, prefix)->Ok_0[i]),
    decreases n,
{
    if n > 0 {
        success_is_fieldwise(fields, (n - 1) as nat, src, prefix);
    }
}

/// Where each of the first `n` fields resolves, so does the run of them.
pub proof fn fieldwise_success(
    fields: Seq<FieldView>,
    n: nat,
    src: Map<Seq<char>, Seq<char>>,
    prefix: Seq<char>,
)
    requires
        n <= fields.len(),
        forall|i: int| 0 <= i < n ==> bound_field(#[trigger] fields[i], src, prefix) is Ok,
    ensures
        bound_first(fields, n, src, prefix) is Ok,
    decreases n,
{
    if n > 0 {
        fieldwise_success(fields, (n - 1) as nat, src, prefix);
    }
}

/// Fail fast: where every field before field `k` resolves and field `k`
/// fails, the schema fails with the error of field `k`, whatever the fields
/// after it would do.
pub proof fn first_failure_is_reported(
    schema: Seq<FieldView>,
    k: int,
    src: Map<Seq<char>, Seq<char>>,
    prefix: Seq<char>,
)
    requires
        0 <= k < schema.len(),
        forall|j: int| 0 <= j < k ==> bound_field(#[trigger] schema[j], src, prefix) is Ok,
        bound_field(schema[k], src, prefix) is Err,
    ensures
        bound(schema, src, prefix) == Err::<Seq<ValueView>, ErrorView>(
            bound_field(schema[k], src, prefix)->Err_0,
        ),
{
    fieldwise_success(schema, k as nat, src, prefix);
    assert(bound_first(schema, (k + 1) as nat, src, prefix) is Err);
    first_error_stays(schema, (k + 1) as nat, schema.len(), src, prefix);
}

/// A resolvable field resolves to its expected value.
pub proof fn resolvable_field_binds(
    f: FieldView,
    src: Map<Seq<char>, Seq<char>>,
    prefix: Seq<char>,
)
    requires
        resolvable_field(f, src, prefix),
    ensures
        bound_field(f, src, prefix) == Ok::<ValueView, ErrorView>(expected_field(f, src, prefix)),
    decreases f, 0nat,
{
    match f.resolution {
        ResolutionView::Nested { prefix: fragment, schema } => {
            resolvable_first_binds(schema, schema.len(), src, prefix + fragment);
            assert(expected_field(f, src, prefix)->Record_0 =~= expected(
                schema,
                src,
                prefix + fragment,
            ));
            assert(expected(schema, src, prefix + fragment).take(schema.len() as int)
                =~= expected(schema, src, prefix + fragment));
        },
        _ => {},
    }
}

/// The first `n` fields of a resolvable schema resolve to their expected
/// values.
pub proof fn resolvable_first_binds(
    fields: Seq<FieldView>,
    n: nat,
    src: Map<Seq<char>, Seq<char>>,
    prefix: Seq<char>,
)
    requires
        n <= fields.len(),
        resolvable(fields, src, prefix),
    ensures
        bound_first(fields, n, src, prefix) == Ok::<Seq<ValueView>, ErrorView>(
            expected(fields, src, prefix).take(n as int),
        ),
    decreases fields, n,
{
    let all = expected(fields, src, prefix);
    if n == 0 {
        assert(all.take(0) =~= Seq::<ValueView>::empty());
    } else {
        resolvable_first_binds(fields, (n - 1) as nat, src, prefix);
        resolvable_field_binds(fields[n - 1], src, prefix);
        assert(all.take(n as int) =~= all.take(n - 1).push(all[n - 1]));
    }
}

/// Where every required key is present and everything that is read parses,
/// binding succeeds, and every field holds the parsed value of its key, or
/// the parsed default, or nothing for an unset optional field.
pub proof fn resolvable_schema_binds(
    schema: Seq<FieldView>,
    src: Map<Seq<char>, Seq<char>>,
    prefix: Seq<char>,
)
    requires
        resolvable(schema, src, prefix),
    ensures
        bound(schema, src, prefix) == Ok::<Seq<ValueView>, ErrorView>(
            expected(schema, src, prefix),
        ),
{
    resolvable_first_binds(schema, schema.len(), src, prefix);
    assert(expected(schema, src, prefix).take(schema.len() as int) =~= expected(
        schema,
        src,
        prefix,
    ));
}

/// Where a required field without a default is the first whose key is
/// absent, binding fails with the missing-key error that names exactly that
/// key, prefix included.
pub proof fn missing_required_key_is_named(
    schema: Seq<FieldView>,
    k: int,
    src: Map<Seq<char>, Seq<char>>,
    prefix: Seq<char>,
)
    requires
        0 <= k < schema.len(),
        schema[k].resolution is Plain,
        !src.contains_key(full_key(prefix, schema[k].key_name)),
        forall|j: int| 0 <= j < k ==> bound_field(#[trigger] schema[j], src, prefix) is Ok,
    ensures
        bound(schema, src, prefix) == Err::<Seq<ValueView>, ErrorView>(
            ErrorView::EnvVarMissing { name: full_key(prefix, schema[k].key_name) },
        ),
{
    first_failure_is_reported(schema, k, src, prefix);
}

/// Where a scalar field's key is present with a value that its type does
/// not accept, and every field before it resolves, binding fails with the
/// parse error that names that key, even if later fields would fail too.
pub proof fn unparseable_value_is_named(
    schema: Seq<FieldView>,
    k: int,
    src: Map<Seq<char>, Seq<char>>,
    prefix: Seq<char>,
)
    requires
        0 <= k < schema.len(),
        !(schema[k].resolution is Nested),
        src.contains_key(full_key(prefix, schema[k].key_name)),
        parse_scalar(schema[k].scalar, src[full_key(prefix, schema[k].key_name)]) is None,
        forall|j: int| 0 <= j < k ==> bound_field(#[trigger] schema[j], src, prefix) is Ok,
    ensures
        bound(schema, src, prefix) == Err::<Seq<ValueView>, ErrorView>(
            ErrorView::ParseError { name: full_key(prefix, schema[k].key_name) },
        ),
{
    first_failure_is_reported(schema, k, src, prefix);
}

/// An optional field whose key is absent resolves to the absent value and
/// never fails; where the schema binds, the field's place holds the absent
/// value, and whether the schema binds is decided by the other fields alone.
pub proof fn absent_optional_is_absent(
    schema: Seq<FieldView>,
    k: int,
    src: Map<Seq<char>, Seq<char>>,
    prefix: Seq<char>,
)
    requires
        0 <= k < schema.len(),
        schema[k].resolution is Optional,
        !src.contains_key(full_key(prefix, schema[k].key_name)),
    ensures
        bound_field(schema[k], src, prefix) == Ok::<ValueView, ErrorView>(ValueView::Absent),
        bound(schema, src, prefix) is Ok ==> bound(schema, src, prefix)->Ok_0[k]
            == ValueView::Absent,
        bound(schema, src, prefix) is Ok <==> forall|j: int|
            0 <= j < schema.len() && j != k ==> bound_field(
                #[trigger] schema[j],
                src,
                prefix,
            ) is Ok,
{
    if bound(schema, src, prefix) is Ok {
        success_is_fieldwise(schema, schema.len(), src, prefix);
    }
    if forall|j: int|
        0 <= j < schema.len() && j != k ==> bound_field(#[trigger] schema[j], src, prefix) is Ok {
        fieldwise_success(schema, schema.len(), src, prefix);
    }
}

/// A field with a default whose key is absent resolves to the parsed
/// literal; where the key is present, the source's value decides and the
/// literal is not read.
pub proof fn default_applies_only_when_absent(
    f: FieldView,
    src: Map<Seq<char>, Seq<char>>,
    prefix: Seq<char>,
    other_literal: Seq<char>,
)
    requires
        f.resolution is Default,
    ensures
        !src.contains_key(full_key(prefix, f.key_name)) ==> bound_field(f, src, prefix) == (
        match parse_scalar(f.scalar, f.resolution->literal) {
            Some(v) => Ok::<ValueView, ErrorView>(v),
            None => Err(ErrorView::ParseError { name: full_key(prefix, f.key_name) }),
        }),
        src.contains_key(full_key(prefix, f.key_name)) ==> bound_field(f, src, prefix)
            == bound_field(
            FieldView { resolution: ResolutionView::Plain, ..f },
            src,
            prefix,
        ),
        src.contains_key(full_key(prefix, f.key_name)) ==> bound_field(f, src, prefix)
            == bound_field(
            FieldView { resolution: ResolutionView::Default { literal: other_literal }, ..f },
            src,
            prefix,
        ),
{
}

/// A nested field under prefix `p` with fragment `f` resolves its schema
/// under `p + f`: a child with key name `k` reads the key `p + f + k`, and a
/// required child whose key `p + f + k` is absent, with its elder siblings
/// resolved, fails the nested field with exactly that key.
pub proof fn nested_prefix_composes(
    field: FieldView,
    c: int,
    src: Map<Seq<char>, Seq<char>>,
    p: Seq<char>,
)
    requires
        field.resolution is Nested,
        0 <= c < field.resolution->schema.len(),
    ensures
        bound_field(field, src, p) == (match bound(
            field.resolution->schema,
            src,
            p + field.resolution->prefix,
        ) {
            Ok(values) => Ok::<ValueView, ErrorView>(ValueView::Record(values)),
            Err(e) => Err(e),
        }),
        full_key(p + field.resolution->prefix, field.resolution->schema[c].key_name) == p
            + field.resolution->prefix + field.resolution->schema[c].key_name,
        ({
            let child = field.resolution->schema[c];
            let key = p + field.resolution->prefix + child.key_name;
            &&& child.resolution is Plain ==> bound_field(
                child,
                src,
                p + field.resolution->prefix,
            ) == crate::binder::required_value(child.scalar, key, src)
            &&& (child.resolution is Plain && !src.contains_key(key) && forall|j: int|
                0 <= j < c ==> bound_field(
                    #[trigger] field.resolution->schema[j],
                    src,
                    p + field.resolution->prefix,
                ) is Ok) ==> bound_field(field, src, p) == Err::<ValueView, ErrorView>(
                ErrorView::EnvVarMissing { name: key },
            )
        }),
{
    let child = field.resolution->schema[c];
    let inner = p + field.resolution->prefix;
    let key = inner + child.key_name;
    if child.resolution is Plain && !src.contains_key(key) && forall|j: int|
        0 <= j < c ==> bound_field(#[trigger] field.resolution->schema[j], src, inner) is Ok {
        missing_required_key_is_named(field.resolution->schema, c, src, inner);
    }
}

/// Two nested siblings with different fragments read a child key name from
/// different keys.
pub proof fn sibling_fragments_keep_keys_apart(
    p: Seq<char>,
    f1: Seq<char>,
    f2: Seq<char>,
    k: Seq<char>,
)
    requires
        f1 != f2,
    ensures
        full_key(p + f1, k) != full_key(p + f2, k),
{
    let a = p + f1 + k;
    let b = p + f2 + k;
    if a == b {
        assert(a.len() == b.len());
        assert(f1.len() == f2.len());
        assert forall|i: int| 0 <= i < f1.len() implies f1[i] == f2[i] by {
            assert(a[p.len() + i] == f1[i]);
            assert(b[p.len() + i] == f2[i]);
        }
        assert(f1 =~= f2);
    }
}

/// Two nested siblings whose fragments differ at some position, so that
/// neither fragment begins with the other, never read the same key,
/// whatever the key names of their children.
pub proof fn diverging_fragments_never_collide(
    p: Seq<char>,
    f1: Seq<char>,
    f2: Seq<char>,
    k1: Seq<char>,
    k2: Seq<char>,
    at: int,
)
    requires
        0 <= at < f1.len(),
        at < f2.len(),
        f1[at] != f2[at],
    ensures
        full_key(p + f1, k1) != full_key(p + f2, k2),
{
    let a = p + f1 + k1;
    let b = p + f2 + k2;
    assert(a[p.len() + at] == f1[at]);
    assert(b[p.len() + at] == f2[at]);
}

/// Whether a value has the shape that a field asks for: a value of the
/// field's type, nothing for an optional field, or a record that matches
/// the nested schema field by field.
pub open spec fn conforms_field(v: ValueView, f: FieldView) -> bool
    decreases f,
{
    match f.resolution {
        ResolutionView::Plain => has_type(v, f.scalar),
        ResolutionView::Default { literal } => has_type(v, f.scalar),
        ResolutionView::Optional => v is Absent || has_type(v, f.scalar),
        ResolutionView::Nested { prefix, schema } => {
            &&& v is Record
            &&& v->Record_0.len() == schema.len()
            &&& forall|i: int|
                0 <= i < schema.len() ==> conforms_field(v->Record_0[i], #[trigger] schema[i])
        },
    }
}

/// Whether a record has the shape of a schema.
pub open spec fn conforms(values: Seq<ValueView>, schema: Seq<FieldView>) -> bool {
    &&& values.len() == schema.len()
    &&& forall|i: int| 0 <= i < schema.len() ==> conforms_field(values[i], #[trigger] schema[i])
}

/// The value of a field that resolves has the shape that the field asks
/// for.
pub proof fn bound_field_conforms(f: FieldView, src: Map<Seq<char>, Seq<char>>, prefix: Seq<char>)
    requires
        bound_field(f, src, prefix) is Ok,
    ensures
        conforms_field(bound_field(f, src, prefix)->Ok_0, f),
    decreases f,
{
    match f.resolution {
        ResolutionView::Nested { prefix: fragment, schema } => {
            let inner = prefix + fragment;
            let values = bound_first(schema, schema.len(), src, inner)->Ok_0;
            success_is_fieldwise(schema, schema.len(), src, inner);
            assert forall|i: int| 0 <= i < schema.len() implies conforms_field(
                values[i],
                #[trigger] schema[i],
            ) by {
                bound_field_conforms(schema[i], src, inner);
            }
        },
        _ => {},
    }
}

/// The record of a schema that binds has the shape of the schema.
pub proof fn bound_conforms(
    schema: Seq<FieldView>,
    src: Map<Seq<char>, Seq<char>>,
    prefix: Seq<char>,
)
    requires
        bound(schema, src, prefix) is Ok,
    ensures
        conforms(bound(schema, src, prefix)->Ok_0, schema),
{
    let values = bound(schema, src, prefix)->Ok_0;
    success_is_fieldwise(schema, schema.len(), src, prefix);
    assert forall|i: int| 0 <= i < schema.len() implies conforms_field(
        values[i],
        #[trigger] schema[i],
    ) by {
        bound_field_conforms(schema[i], src, prefix);
    }
}

/// Binding is a function of schema, source and prefix: two outcomes of
/// binding the same schema from the same source under the same prefix are
/// equal, as long as the source is unchanged.
pub proof fn bind_is_repeatable(
    first: Result<Vec<Value>, Error>,
    second: Result<Vec<Value>, Error>,
    schema: Seq<FieldView>,
    src: Map<Seq<char>, Seq<char>>,
    prefix: Seq<char>,
)
    requires
        record_result_view(first) == bound(schema, src, prefix),
        record_result_view(second) == bound(schema, src, prefix),
    ensures
        record_result_view(first) == record_result_view(second),
        first is Ok <==> second is Ok,
{
}

} // verus!
