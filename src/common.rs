use vstd::prelude::*;

use crate::error::ClientError;
use crate::path_map::{pairs_map, PathMap};
use crate::text::{bool_text, integer_text, parse_bool, parse_integer};
use crate::types::{
    data_type_of_code, entry_type_of_code, DataType, Datapoint, EntryType, Metadata, Value,
};

verus! {

/// What a text reads as in the two floating-point widths, each as the bit
/// pattern of the number, or `None` where the text is no such number.
#[derive(Clone, Copy, Debug, PartialEq, Eq, Structural)]
pub struct RealReadings {
    pub single: Option<u32>,
    pub double: Option<u64>,
}

/// A single-precision bit pattern of a finite number: its exponent bits are
/// not all ones, as they are for infinities and NaNs.
pub open spec fn finite_single(b: u32) -> bool {
    b & 0x7f80_0000u32 != 0x7f80_0000u32
}

/// A double-precision bit pattern of a finite number.
pub open spec fn finite_double(b: u64) -> bool {
    b & 0x7ff0_0000_0000_0000u64 != 0x7ff0_0000_0000_0000u64
}

/// The outcome of reading integer text for a target whose range is `lo..=hi`.
pub open spec fn integer_outcome(
    s: Seq<char>,
    lo: int,
    hi: int,
    t: DataType,
    wrap: spec_fn(int) -> Value,
) -> Result<Value, ClientError> {
    match integer_text(s, lo, hi) {
        Some(v) => Ok(wrap(v)),
        None => Err(ClientError::Parse(t)),
    }
}

/// Whether `r` is what converting the text `s` to data type `t` gives.
/// Integers are read at the type's own width and widened to the 32-bit slot
/// where the type is narrower; floating-point text goes by `reals`, and a
/// reading that is not finite (text out of range, or spelling an infinity or
/// a NaN) is a parse error.
pub open spec fn text_converts(
    s: Seq<char>,
    t: DataType,
    reals: RealReadings,
    r: Result<Value, ClientError>,
) -> bool {
    match t {
        DataType::String => match r {
            Ok(Value::String(x)) => x@ == s,
            _ => false,
        },
        DataType::Boolean => r == match bool_text(s) {
            Some(b) => Ok(Value::Bool(b)),
            None => Err(ClientError::Parse(t)),
        },
        DataType::Int8 => r == integer_outcome(s, -0x80, 0x7f, t, |v: int| Value::Int32(v as i32)),
        DataType::Int16 => r == integer_outcome(
            s,
            -0x8000,
            0x7fff,
            t,
            |v: int| Value::Int32(v as i32),
        ),
        DataType::Int32 => r == integer_outcome(
            s,
            i32::MIN as int,
            i32::MAX as int,
            t,
            |v: int| Value::Int32(v as i32),
        ),
        DataType::Int64 => r == integer_outcome(
            s,
            i64::MIN as int,
            i64::MAX as int,
            t,
            |v: int| Value::Int64(v as i64),
        ),
        DataType::Uint8 => r == integer_outcome(s, 0, 0xff, t, |v: int| Value::Uint32(v as u32)),
        DataType::Uint16 => r == integer_outcome(
            s,
            0,
            0xffff,
            t,
            |v: int| Value::Uint32(v as u32),
        ),
        DataType::Uint32 => r == integer_outcome(
            s,
            0,
            u32::MAX as int,
            t,
            |v: int| Value::Uint32(v as u32),
        ),
        DataType::Uint64 => r == integer_outcome(
            s,
            0,
            u64::MAX as int,
            t,
            |v: int| Value::Uint64(v as u64),
        ),
        DataType::Float => r == match reals.single {
            Some(b) => if finite_single(b) {
                Ok(Value::Float(b))
            } else {
                Err(ClientError::Parse(t))
            },
            None => Err(ClientError::Parse(t)),
        },
        DataType::Double => r == match reals.double {
            Some(b) => if finite_double(b) {
                Ok(Value::Double(b))
            } else {
                Err(ClientError::Parse(t))
            },
            None => Err(ClientError::Parse(t)),
        },
        _ => r == Err::<Value, ClientError>(ClientError::UnsupportedType(t)),
    }
}

/// Converts text to a typed value of the given data type.
pub fn str_to_value(input: &str, datatype: DataType, reals: RealReadings) -> (r: Result<
    Value,
    ClientError,
>)
    ensures
        text_converts(input@, datatype, reals, r),
{
    match datatype {
        DataType::String => Ok(Value::String(input.to_owned())),
        DataType::Boolean => match parse_bool(input) {
            Some(b) => Ok(Value::Bool(b)),
            None => Err(ClientError::Parse(datatype)),
        },
        DataType::Int8 => match parse_integer(input, -0x80, 0x7f) {
            Some(v) => Ok(Value::Int32(v as i32)),
            None => Err(ClientError::Parse(datatype)),
        },
        DataType::Int16 => match parse_integer(input, -0x8000, 0x7fff) {
            Some(v) => Ok(Value::Int32(v as i32)),
            None => Err(ClientError::Parse(datatype)),
        },
        DataType::Int32 => match parse_integer(input, i32::MIN as i128, i32::MAX as i128) {
            Some(v) => Ok(Value::Int32(v as i32)),
            None => Err(ClientError::Parse(datatype)),
        },
        DataType::Int64 => match parse_integer(input, i64::MIN as i128, i64::MAX as i128) {
            Some(v) => Ok(Value::Int64(v as i64)),
            None => Err(ClientError::Parse(datatype)),
        },
        DataType::Uint8 => match parse_integer(input, 0, 0xff) {
            Some(v) => Ok(Value::Uint32(v as u32)),
            None => Err(ClientError::Parse(datatype)),
        },
        DataType::Uint16 => match parse_integer(input, 0, 0xffff) {
            Some(v) => Ok(Value::Uint32(v as u32)),
            None => Err(ClientError::Parse(datatype)),
        },
        DataType::Uint32 => match parse_integer(input, 0, u32::MAX as i128) {
            Some(v) => Ok(Value::Uint32(v as u32)),
            None => Err(ClientError::Parse(datatype)),
        },
        DataType::Uint64 => match parse_integer(input, 0, u64::MAX as i128) {
            Some(v) => Ok(Value::Uint64(v as u64)),
            None => Err(ClientError::Parse(datatype)),
        },
        DataType::Float => match reals.single {
            Some(b) if b & 0x7f80_0000u32 != 0x7f80_0000u32 => Ok(Value::Float(b)),
            _ => Err(ClientError::Parse(datatype)),
        },
        DataType::Double => match reals.double {
            Some(b) if b & 0x7ff0_0000_0000_0000u64 != 0x7ff0_0000_0000_0000u64 => Ok(
                Value::Double(b),
            ),
            _ => Err(ClientError::Parse(datatype)),
        },
        _ => Err(ClientError::UnsupportedType(datatype)),
    }
}

/// The value that an observation carries, if any.
pub open spec fn datapoint_value(datapoint: Option<Datapoint>) -> Option<Value> {
    match datapoint {
        Some(d) => d.value,
        None => None,
    }
}

/// Projects the value out of an observation.
pub fn value_from_datapoint(datapoint: Option<Datapoint>) -> (r: Option<Value>)
    ensures
        r == datapoint_value(datapoint),
{
    match datapoint {
        Some(data) => data.value,
        None => None,
    }
}

/// Every path's data type code is one this library knows.
pub open spec fn all_data_types_known(m: Map<Seq<char>, Metadata>) -> bool {
    forall|k: Seq<char>| #[trigger]
        m.contains_key(k) ==> data_type_of_code(m[k].data_type) is Some
}

/// Every path's entry type code is one this library knows.
pub open spec fn all_entry_types_known(m: Map<Seq<char>, Metadata>) -> bool {
    forall|k: Seq<char>| #[trigger]
        m.contains_key(k) ==> entry_type_of_code(m[k].entry_type) is Some
}

pub open spec fn decoded_data_type(md: Metadata) -> DataType {
    data_type_of_code(md.data_type)->0
}

pub open spec fn decoded_entry_type(md: Metadata) -> EntryType {
    entry_type_of_code(md.entry_type)->0
}

/// Decodes the data type of every path of a metadata map; fails if any code is unknown.
pub fn datatype_from_metadata(metadatas: &PathMap<Metadata>) -> (r: Result<
    PathMap<DataType>,
    ClientError,
>)
    requires
        metadatas.wf(),
    ensures
        match r {
            Ok(types) => all_data_types_known(metadatas@) && types.wf() && types@
                == metadatas@.map_values(|md: Metadata| decoded_data_type(md)),
            Err(e) => !all_data_types_known(metadatas@) && e == ClientError::MetadataDecode,
        },
{
    let mut result: PathMap<DataType> = PathMap::new();
    let n = metadatas.pair_count();
    let ghost pairs = metadatas.pairs_seq();
    proof {
        metadatas.lemma_pairs();
    }
    let mut i: usize = 0;
    while i < n
        invariant
            n == pairs.len(),
            pairs == metadatas.pairs_seq(),
            metadatas.wf(),
            i <= n,
            result.wf(),
            result@ == pairs_map(pairs.take(i as int)).map_values(
                |md: Metadata| decoded_data_type(md),
            ),
            forall|j: int| 0 <= j < i ==> data_type_of_code(#[trigger] pairs[j].1.data_type) is Some,
        decreases n - i,
    {
        let pair = metadatas.pair_at(i);
        match DataType::from_code(pair.1.data_type) {
            Some(t) => {
                result.insert(pair.0.clone(), t);
                proof {
                    assert(pairs.take(i + 1).drop_last() =~= pairs.take(i as int));
                    assert(result@ =~= pairs_map(pairs.take(i + 1)).map_values(
                        |md: Metadata| decoded_data_type(md),
                    ));
                }
            },
            None => {
                return Err(ClientError::MetadataDecode);
            },
        }
        i = i + 1;
    }
    proof {
        assert(pairs.take(n as int) =~= pairs);
        assert(result@ =~= metadatas@.map_values(|md: Metadata| decoded_data_type(md)));
        assert forall|k: Seq<char>| #[trigger]
            metadatas@.contains_key(k) implies data_type_of_code(metadatas@[k].data_type) is Some by {
            metadatas.lemma_key_has_pair(k);
            let j = choose|j: int| 0 <= j < pairs.len() && #[trigger] pairs[j].0@ == k;
            crate::path_map::lemma_pairs_map_index(pairs, j);
        }
    }
    Ok(result)
}

/// Decodes the entry type of every path of a metadata map; fails if any code is unknown.
pub fn entrytype_from_metadata(metadatas: &PathMap<Metadata>) -> (r: Result<
    PathMap<EntryType>,
    ClientError,
>)
    requires
        metadatas.wf(),
    ensures
        match r {
            Ok(types) => all_entry_types_known(metadatas@) && types.wf() && types@
                == metadatas@.map_values(|md: Metadata| decoded_entry_type(md)),
            Err(e) => !all_entry_types_known(metadatas@) && e == ClientError::MetadataDecode,
        },
{
    let mut result: PathMap<EntryType> = PathMap::new();
    let n = metadatas.pair_count();
    let ghost pairs = metadatas.pairs_seq();
    proof {
        metadatas.lemma_pairs();
    }
    let mut i: usize = 0;
    while i < n
        invariant
            n == pairs.len(),
            pairs == metadatas.pairs_seq(),
            metadatas.wf(),
            i <= n,
            result.wf(),
            result@ == pairs_map(pairs.take(i as int)).map_values(
                |md: Metadata| decoded_entry_type(md),
            ),
            forall|j: int| 0 <= j < i ==> entry_type_of_code(#[trigger] pairs[j].1.entry_type) is Some,
        decreases n - i,
    {
        let pair = metadatas.pair_at(i);
        match EntryType::from_code(pair.1.entry_type) {
            Some(t) => {
                result.insert(pair.0.clone(), t);
                proof {
                    assert(pairs.take(i + 1).drop_last() =~= pairs.take(i as int));
                    assert(result@ =~= pairs_map(pairs.take(i + 1)).map_values(
                        |md: Metadata| decoded_entry_type(md),
                    ));
                }
            },
            None => {
                return Err(ClientError::MetadataDecode);
            },
        }
        i = i + 1;
    }
    proof {
        assert(pairs.take(n as int) =~= pairs);
        assert(result@ =~= metadatas@.map_values(|md: Metadata| decoded_entry_type(md)));
        assert forall|k: Seq<char>| #[trigger]
            metadatas@.contains_key(k) implies entry_type_of_code(metadatas@[k].entry_type) is Some by {
            metadatas.lemma_key_has_pair(k);
            let j = choose|j: int| 0 <= j < pairs.len() && #[trigger] pairs[j].0@ == k;
            crate::path_map::lemma_pairs_map_index(pairs, j);
        }
    }
    Ok(result)
}

} // verus!
