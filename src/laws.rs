use vstd::prelude::*;

use crate::client::target_update_outcome;
use crate::common::{
    all_entry_types_known, datapoint_value, finite_double, finite_single, text_converts,
    RealReadings,
};
use crate::error::ClientError;
use crate::response::{aggregated, collected_errors, present_errors};
use crate::text::integer_text;
use crate::types::{
    entry_type_of_code, DataEntryError, DataType, Datapoint, EntryType, EntryUpdate, ErrorEntry,
    Metadata, Timestamp, Value,
};

verus! {

/// The integer data types.
pub open spec fn is_integer_type(t: DataType) -> bool {
    t == DataType::Int8 || t == DataType::Int16 || t == DataType::Int32 || t == DataType::Int64
        || t == DataType::Uint8 || t == DataType::Uint16 || t == DataType::Uint32 || t
        == DataType::Uint64
}

/// The range of an integer data type.
pub open spec fn integer_bounds(t: DataType) -> (int, int) {
    match t {
        DataType::Int8 => (-0x80, 0x7f),
        DataType::Int16 => (-0x8000, 0x7fff),
        DataType::Int32 => (i32::MIN as int, i32::MAX as int),
        DataType::Int64 => (i64::MIN as int, i64::MAX as int),
        DataType::Uint8 => (0, 0xff),
        DataType::Uint16 => (0, 0xffff),
        DataType::Uint32 => (0, u32::MAX as int),
        _ => (0, u64::MAX as int),
    }
}

/// The data types that text converts to.
pub open spec fn is_scalar_type(t: DataType) -> bool {
    is_integer_type(t) || t == DataType::String || t == DataType::Boolean || t == DataType::Float
        || t == DataType::Double
}

/// A value converted from text and put into an observation is what the
/// observation's value projection gives back.
pub proof fn lemma_value_round_trip(
    s: Seq<char>,
    t: DataType,
    reals: RealReadings,
    v: Value,
    timestamp: Option<Timestamp>,
)
    requires
        text_converts(s, t, reals, Ok(v)),
    ensures
        datapoint_value(Some(Datapoint { timestamp, value: Some(v) })) == Some(v),
{
}

/// Integer text that is malformed or out of the type's range converts to a
/// parse error, and a conversion succeeds only where the text denotes a
/// number within the range.
pub proof fn lemma_bad_integer_text_fails(
    s: Seq<char>,
    t: DataType,
    reals: RealReadings,
    r: Result<Value, ClientError>,
)
    requires
        is_integer_type(t),
        text_converts(s, t, reals, r),
    ensures
        integer_text(s, integer_bounds(t).0, integer_bounds(t).1) is None ==> r == Err::<
            Value,
            ClientError,
        >(ClientError::Parse(t)),
        r is Ok ==> integer_text(s, integer_bounds(t).0, integer_bounds(t).1) is Some,
        r is Err ==> r == Err::<Value, ClientError>(ClientError::Parse(t)),
{
}

/// For the two floating-point types, text that is no number, or whose
/// number overflows the type (its reading is not finite), converts to a
/// parse error; a conversion succeeds only with a finite value.
pub proof fn lemma_bad_real_text_fails(
    s: Seq<char>,
    t: DataType,
    reals: RealReadings,
    r: Result<Value, ClientError>,
)
    requires
        t == DataType::Float || t == DataType::Double,
        text_converts(s, t, reals, r),
    ensures
        t == DataType::Float && !(reals.single matches Some(b) && finite_single(b)) ==> r
            == Err::<Value, ClientError>(ClientError::Parse(t)),
        t == DataType::Double && !(reals.double matches Some(b) && finite_double(b)) ==> r
            == Err::<Value, ClientError>(ClientError::Parse(t)),
        r matches Ok(Value::Float(b)) ==> finite_single(b),
        r matches Ok(Value::Double(b)) ==> finite_double(b),
        r is Err ==> r == Err::<Value, ClientError>(ClientError::Parse(t)),
{
}

/// Array, timestamp and unspecified types never convert from text, whatever
/// the text.
pub proof fn lemma_non_scalar_unsupported(
    s: Seq<char>,
    t: DataType,
    reals: RealReadings,
    r: Result<Value, ClientError>,
)
    requires
        !is_scalar_type(t),
        text_converts(s, t, reals, r),
    ensures
        r == Err::<Value, ClientError>(ClientError::UnsupportedType(t)),
{
}

/// A response with a top-level error fails with every error that it
/// carries: the top-level one first, then each per-entry one in order.
pub proof fn lemma_top_level_error_first<T>(
    payload: T,
    e: ErrorEntry,
    errors: Seq<DataEntryError>,
    r: Result<T, ClientError>,
)
    requires
        aggregated(payload, Some(e), errors, r),
    ensures
        r matches Err(ClientError::Function(v)) && v@.len() == 1 + present_errors(errors).len()
            && v@[0] == e && v@.subrange(1, v@.len() as int) == present_errors(errors),
{
    let all = collected_errors(Some(e), errors);
    assert(all.len() > 0);
    assert(all.subrange(1, all.len() as int) =~= present_errors(errors));
}

proof fn lemma_no_present_errors(errors: Seq<DataEntryError>)
    requires
        forall|i: int| 0 <= i < errors.len() ==> (#[trigger] errors[i]).error is None,
    ensures
        present_errors(errors).len() == 0,
    decreases errors.len(),
{
    if errors.len() > 0 {
        let t = errors.drop_last();
        assert forall|i: int| 0 <= i < t.len() implies (#[trigger] t[i]).error is None by {
            assert(t[i] == errors[i]);
        }
        lemma_no_present_errors(t);
        assert(errors[errors.len() - 1].error is None);
    }
}

/// A response that carries no error yields its payload unchanged.
pub proof fn lemma_no_errors_keeps_payload<T>(
    payload: T,
    errors: Seq<DataEntryError>,
    r: Result<T, ClientError>,
)
    requires
        forall|i: int| 0 <= i < errors.len() ==> (#[trigger] errors[i]).error is None,
        aggregated(payload, None, errors, r),
    ensures
        r == Ok::<T, ClientError>(payload),
{
    lemma_no_present_errors(errors);
}

/// Where the metadata reports a path as a sensor, preparing a target-value
/// write for it fails with `NotAnActuator`, so no write request is made.
pub proof fn lemma_sensor_target_write_refused(
    m: Map<Seq<char>, Metadata>,
    path: Seq<char>,
    text: Seq<char>,
    reals: RealReadings,
    timestamp: Option<Timestamp>,
    r: Result<EntryUpdate, ClientError>,
)
    requires
        all_entry_types_known(m),
        m.contains_key(path),
        entry_type_of_code(m[path].entry_type) == Some(EntryType::Sensor),
        target_update_outcome(m, path, text, reals, timestamp, r),
    ensures
        r == Err::<EntryUpdate, ClientError>(ClientError::NotAnActuator),
{
}

} // verus!
