//! The logic of a database session that serves clients through a plain interface on top of an
//! asynchronous driver: which requests go to the driver and what is answered, how the rows
//! and values of a result are typed, and how the schema of the cluster is looked up.
//!
//! - [`session`]: the calls on a session, step by step;
//! - [`driver`]: the driver's queries and prepared statements;
//! - [`query_result`]: rows and values, from the form that the driver delivers to the form
//!   that a client reads;
//! - [`cass_types`]: data types, and those of result columns;
//! - [`udt`]: user defined types, and the data types of table columns;
//! - [`schema`]: the metadata of keyspaces, tables and columns;
//! - [`text`]: text that is handed over as bytes in memory;
//! - [`session_laws`], [`value_laws`], [`type_laws`] and [`schema_laws`]: what holds throughout.

pub mod cass_types;
pub mod driver;
pub mod query_result;
pub mod schema;
pub mod schema_laws;
pub mod session;
pub mod session_laws;
pub mod text;
pub mod type_laws;
pub mod udt;
pub mod value_laws;
