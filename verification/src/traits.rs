//! The capability of a structured type to be initialised from a source.

use vstd::prelude::*;
use crate::binder::{bind, bound};
use crate::error::{Error, ErrorView};
use crate::schema::{FieldView, Schema};
use crate::source::Source;
use crate::theorems::{bound_conforms, conforms};
use crate::value::{record_view, Value, ValueView};

verus! {

/// Indicates that a structure can be initialised from a key-value source.
///
/// An initialisation gives the error of binding the structure's schema
/// where that fails, and else a structure that holds the bound record.
pub trait Envconfig: Sized {
    /// The schema that describes the structure's fields.
    spec fn schema_model() -> Seq<FieldView>;

    /// Whether the structure's fields hold the values of `record`.
    spec fn holds(&self, record: Seq<ValueView>) -> bool;

    /// Builds the schema that describes the structure's fields.
    fn schema() -> (r: Schema)
        ensures
            r@ == Self::schema_model(),
    ;

    /// Builds the structure from the record of a successful bind.
    fn from_record(values: Vec<Value>) -> (r: Self)
        requires
            conforms(record_view(values@), Self::schema_model()),
        ensures
            r.holds(record_view(values@)),
    ;

    /// Initialises the structure from a source, every key behind `prefix`.
    fn init_from_hashmap_with_prefix(prefix: &str, hashmap: &Source) -> (r: Result<Self, Error>)
        ensures
            match bound(Self::schema_model(), hashmap@, prefix@) {
                Ok(record) => r is Ok && r->Ok_0.holds(record),
                Err(e) => r is Err && r->Err_0@ == e,
            },
    {
        let schema = Self::schema();
        match bind(&schema, hashmap, prefix) {
            Ok(values) => {
                proof {
                    bound_conforms(Self::schema_model(), hashmap@, prefix@);
                }
                Ok(Self::from_record(values))
            },
            Err(e) => Err(e),
        }
    }

    /// Initialises the structure from a source, without a prefix.
    fn init_from_hashmap(hashmap: &Source) -> (r: Result<Self, Error>)
        ensures
            match bound(Self::schema_model(), hashmap@, Seq::<char>::empty()) {
                Ok(record) => r is Ok && r->Ok_0.holds(record),
                Err(e) => r is Err && r->Err_0@ == e,
            },
    {
        let prefix = String::new();
        Self::init_from_hashmap_with_prefix(prefix.as_str(), hashmap)
    }
}

} // verus!
