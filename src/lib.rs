//! Client-side access layer for a remote vehicle signal store: typed value
//! conversion, response error aggregation, connection state and the
//! decisions behind every path-oriented operation.
pub mod client;
pub mod common;
pub mod error;
pub mod laws;
pub mod path_map;
pub mod response;
pub mod session;
pub mod text;
pub mod types;

pub use client::EntriesBatch;
pub use common::{
    datatype_from_metadata, entrytype_from_metadata, str_to_value, value_from_datapoint,
    RealReadings,
};
pub use error::{ClientError, ConnectionFault, TransportStatus};
pub use path_map::PathMap;
pub use session::Session;
pub use types::{DataType, Datapoint, EntryType, Value};
