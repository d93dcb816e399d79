use vstd::prelude::*;

verus! {

/// The wire type of a signal's value, as the store's metadata reports it.
#[derive(Clone, Copy, Debug, PartialEq, Eq, Structural)]
pub enum DataType {
    Unspecified,
    String,
    Boolean,
    Int8,
    Int16,
    Int32,
    Int64,
    Uint8,
    Uint16,
    Uint32,
    Uint64,
    Float,
    Double,
    Timestamp,
    StringArray,
    BooleanArray,
    Int8Array,
    Int16Array,
    Int32Array,
    Int64Array,
    Uint8Array,
    Uint16Array,
    Uint32Array,
    Uint64Array,
    FloatArray,
    DoubleArray,
    TimestampArray,
}

/// The data type that a raw metadata code stands for, if the code is known.
pub open spec fn data_type_of_code(code: i32) -> Option<DataType> {
    match code {
        0 => Some(DataType::Unspecified),
        1 => Some(DataType::String),
        2 => Some(DataType::Boolean),
        3 => Some(DataType::Int8),
        4 => Some(DataType::Int16),
        5 => Some(DataType::Int32),
        6 => Some(DataType::Int64),
        7 => Some(DataType::Uint8),
        8 => Some(DataType::Uint16),
        9 => Some(DataType::Uint32),
        10 => Some(DataType::Uint64),
        11 => Some(DataType::Float),
        12 => Some(DataType::Double),
        13 => Some(DataType::Timestamp),
        20 => Some(DataType::StringArray),
        21 => Some(DataType::BooleanArray),
        22 => Some(DataType::Int8Array),
        23 => Some(DataType::Int16Array),
        24 => Some(DataType::Int32Array),
        25 => Some(DataType::Int64Array),
        26 => Some(DataType::Uint8Array),
        27 => Some(DataType::Uint16Array),
        28 => Some(DataType::Uint32Array),
        29 => Some(DataType::Uint64Array),
        30 => Some(DataType::FloatArray),
        31 => Some(DataType::DoubleArray),
        32 => Some(DataType::TimestampArray),
        _ => None,
    }
}

impl DataType {
    /// Decodes a raw metadata code.
    pub fn from_code(code: i32) -> (r: Option<DataType>)
        ensures
            r == data_type_of_code(code),
    {
        match code {
            0 => Some(DataType::Unspecified),
            1 => Some(DataType::String),
            2 => Some(DataType::Boolean),
            3 => Some(DataType::Int8),
            4 => Some(DataType::Int16),
            5 => Some(DataType::Int32),
            6 => Some(DataType::Int64),
            7 => Some(DataType::Uint8),
            8 => Some(DataType::Uint16),
            9 => Some(DataType::Uint32),
            10 => Some(DataType::Uint64),
            11 => Some(DataType::Float),
            12 => Some(DataType::Double),
            13 => Some(DataType::Timestamp),
            20 => Some(DataType::StringArray),
            21 => Some(DataType::BooleanArray),
            22 => Some(DataType::Int8Array),
            23 => Some(DataType::Int16Array),
            24 => Some(DataType::Int32Array),
            25 => Some(DataType::Int64Array),
            26 => Some(DataType::Uint8Array),
            27 => Some(DataType::Uint16Array),
            28 => Some(DataType::Uint32Array),
            29 => Some(DataType::Uint64Array),
            30 => Some(DataType::FloatArray),
            31 => Some(DataType::DoubleArray),
            32 => Some(DataType::TimestampArray),
            _ => None,
        }
    }
}

/// Whether a path is a sensor, an actuator or an attribute.
#[derive(Clone, Copy, Debug, PartialEq, Eq, Structural)]
pub enum EntryType {
    Unspecified,
    Attribute,
    Sensor,
    Actuator,
}

/// The entry type that a raw metadata code stands for, if the code is known.
pub open spec fn entry_type_of_code(code: i32) -> Option<EntryType> {
    match code {
        0 => Some(EntryType::Unspecified),
        1 => Some(EntryType::Attribute),
        2 => Some(EntryType::Sensor),
        3 => Some(EntryType::Actuator),
        _ => None,
    }
}

impl EntryType {
    /// Decodes a raw metadata code.
    pub fn from_code(code: i32) -> (r: Option<EntryType>)
        ensures
            r == entry_type_of_code(code),
    {
        match code {
            0 => Some(EntryType::Unspecified),
            1 => Some(EntryType::Attribute),
            2 => Some(EntryType::Sensor),
            3 => Some(EntryType::Actuator),
            _ => None,
        }
    }
}

/// Which facet of an entry a read or a subscription targets.
#[derive(Clone, Copy, Debug, PartialEq, Eq, Structural)]
pub enum EntryView {
    CurrentValue,
    TargetValue,
    Metadata,
}

/// Which parts of an entry a response fills in, or a write sets.
#[derive(Clone, Copy, Debug, PartialEq, Eq, Structural)]
pub enum Field {
    Path,
    Value,
    ActuatorTarget,
    Metadata,
}

/// A typed value. Single and double precision numbers are held as their
/// IEEE-754 bit patterns.
#[derive(Clone, Debug, PartialEq, Eq)]
pub enum Value {
    String(String),
    Bool(bool),
    Int32(i32),
    Int64(i64),
    Uint32(u32),
    Uint64(u64),
    Float(u32),
    Double(u64),
    StringArray(Vec<String>),
    BoolArray(Vec<bool>),
    Int32Array(Vec<i32>),
    Int64Array(Vec<i64>),
    Uint32Array(Vec<u32>),
    Uint64Array(Vec<u64>),
    FloatArray(Vec<u32>),
    DoubleArray(Vec<u64>),
}

/// A point in time: seconds and nanoseconds since the Unix epoch.
#[derive(Clone, Copy, Debug, PartialEq, Eq, Structural)]
pub struct Timestamp {
    pub seconds: i64,
    pub nanos: i32,
}

/// One observation of a value.
#[derive(Clone, Debug, PartialEq, Eq)]
pub struct Datapoint {
    pub timestamp: Option<Timestamp>,
    pub value: Option<Value>,
}

/// An error that the store reports.
#[derive(Clone, Debug, PartialEq, Eq)]
pub struct ErrorEntry {
    pub code: u32,
    pub reason: String,
    pub message: String,
}

/// A path's metadata, with its type and kind as the raw codes that the store sent.
#[derive(Clone, Copy, Debug, PartialEq, Eq, Structural)]
pub struct Metadata {
    pub data_type: i32,
    pub entry_type: i32,
}

/// The store's record for a path.
#[derive(Clone, Debug, PartialEq, Eq)]
pub struct DataEntry {
    pub path: String,
    pub value: Option<Datapoint>,
    pub actuator_target: Option<Datapoint>,
    pub metadata: Option<Metadata>,
}

/// A read of one path, scoped by a view and the fields wanted.
#[derive(Clone, Debug, PartialEq, Eq)]
pub struct EntryRequest {
    pub path: String,
    pub view: EntryView,
    pub fields: Vec<Field>,
}

/// A write of the given fields of an entry.
#[derive(Clone, Debug, PartialEq, Eq)]
pub struct EntryUpdate {
    pub entry: DataEntry,
    pub fields: Vec<Field>,
}

/// One selection of a subscription.
#[derive(Clone, Debug, PartialEq, Eq)]
pub struct SubscribeEntry {
    pub path: String,
    pub view: EntryView,
    pub fields: Vec<Field>,
}

/// An error that the store reports for one entry of a request.
#[derive(Clone, Debug, PartialEq, Eq)]
pub struct DataEntryError {
    pub path: String,
    pub error: Option<ErrorEntry>,
}

/// The store's reply to a read.
#[derive(Clone, Debug, PartialEq, Eq)]
pub struct GetResponse {
    pub entries: Vec<DataEntry>,
    pub errors: Vec<DataEntryError>,
    pub error: Option<ErrorEntry>,
}

/// The store's reply to a write.
#[derive(Clone, Debug, PartialEq, Eq)]
pub struct SetResponse {
    pub errors: Vec<DataEntryError>,
    pub error: Option<ErrorEntry>,
}

} // verus!
