//! Generation of a typed metrics API from a declarative schema of counters
//! and histograms: validation of the schema, then the source text of one
//! label-set type per instrument, a constructor that builds and registers
//! every instrument, and one typed accessor per instrument.
pub mod emit;
pub mod generator;
pub mod schema;

pub use generator::generate;
pub use schema::{validate, ContainerSchema, MetricDescriptor, MetricKind, SchemaError};
