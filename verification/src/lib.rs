//! A typed model of a resmoke test-suite document, with the rules for
//! deriving a suite that targets another set of tests.
//!
//! * `suite` holds the model and `ResmokeSuiteConfig::with_new_tests`.
//! * `decode` reads a suite from a YAML document, `encode` writes one; both
//!   work on the document tree of `serde_yaml`, which `yaml` declares.
//! * `fields` reads single entries of a mapping, `names` copies lists of
//!   test names.
//! * `laws` states what holds of all of these together.
//!
//! Every contract speaks of a value through its view: a text is the
//! sequence of its characters, a list the sequence of its items' views.

pub mod yaml;
pub mod names;
pub mod fields;
pub mod suite;
pub mod decode;
pub mod encode;
pub mod laws;

pub use decode::{ParseError, ParseErrorKind};
pub use encode::EmitError;
pub use suite::{ResmokeExecutor, ResmokeSelector, ResmokeSuiteConfig, TagExpression, TestRoot};
