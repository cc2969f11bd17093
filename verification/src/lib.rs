//! Binds a declarative configuration schema to values read from a
//! key-value source, with defaults, optional fields, key prefixes and
//! nested schemas.
//!
//! A [`schema::Schema`] lists the fields of a structured type in declaration
//! order. [`bind`] resolves each of them against a [`Source`]: it looks up
//! the prefix followed by the field's key name, falls back to the default
//! literal or to an absent value where the field allows it, parses the
//! string into the field's type, and descends into nested schemas with a
//! longer prefix. The first field that cannot be resolved ends the call, and
//! its fully qualified key is reported in the [`Error`].
//!
//! * `source`: the key to string table that is read.
//! * `value`, `parse`: bound values, and what each scalar type accepts.
//! * `schema`: field descriptors and schemas.
//! * `binder`: the outcome of a bind as a mathematical function, and the
//!   code that computes it.
//! * `theorems`: what holds of every bind call.
//! * `options`, `declare`: from a structure's declaration, with its option
//!   lists, to its schema.
//! * `traits`, `config`: structures that initialise themselves from a
//!   source.

pub mod binder;
pub mod config;
pub mod declare;
pub mod error;
pub mod options;
pub mod parse;
pub mod schema;
pub mod source;
pub mod theorems;
pub mod traits;
pub mod value;

pub use binder::{bind, load_optional_var, load_var, load_var_with_default};
pub use config::Config;
pub use error::Error;
pub use source::Source;
pub use traits::Envconfig;
