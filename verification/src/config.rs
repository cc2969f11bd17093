//! A small configuration: a port and a host.

use vstd::prelude::*;
use crate::schema::{FieldDescriptor, FieldView, ResolutionView, Schema};
use crate::traits::Envconfig;
use crate::value::{record_view, ScalarType, Value, ValueView};

verus! {

/// The port and the host of a service, read from the keys `PORT` and
/// `HOST`. Both are required.
#[derive(Debug, PartialEq, Eq)]
pub struct Config {
    pub port: u16,
    pub host: String,
}

impl Envconfig for Config {
    open spec fn schema_model() -> Seq<FieldView> {
        seq![
            FieldView {
                target_field: "port"@,
                key_name: "PORT"@,
                scalar: ScalarType::U16,
                resolution: ResolutionView::Plain,
            },
            FieldView {
                target_field: "host"@,
                key_name: "HOST"@,
                scalar: ScalarType::Text,
                resolution: ResolutionView::Plain,
            },
        ]
    }

    open spec fn holds(&self, record: Seq<ValueView>) -> bool {
        record == seq![ValueView::U16(self.port), ValueView::Text(self.host@)]
    }

    fn schema() -> (r: Schema) {
        let mut fields: Vec<FieldDescriptor> = Vec::new();
        fields.push(FieldDescriptor::plain("port", "PORT", ScalarType::U16));
        fields.push(FieldDescriptor::plain("host", "HOST", ScalarType::Text));
        let r = Schema::new(fields);
        assert(r@ =~= Self::schema_model());
        r
    }

    fn from_record(values: Vec<Value>) -> (r: Self) {
        let ghost record = record_view(values@);
        assert(record[0] == values@[0]@);
        assert(record[1] == values@[1]@);
        let port = match &values[0] {
            Value::U16(n) => *n,
            _ => vstd::pervasive::unreached(),
        };
        let host = match &values[1] {
            Value::Text(s) => s.clone(),
            _ => vstd::pervasive::unreached(),
        };
        let r = Config { port, host };
        assert(record =~= seq![ValueView::U16(r.port), ValueView::Text(r.host@)]);
        r
    }
}

} // verus!
