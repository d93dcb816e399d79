use vstd::prelude::*;

use crate::error::ClientError;
use crate::types::{DataEntry, DataEntryError, ErrorEntry, GetResponse, SetResponse};

verus! {

/// The errors that per-entry reports carry, in response order.
pub open spec fn present_errors(errors: Seq<DataEntryError>) -> Seq<ErrorEntry>
    decreases errors.len(),
{
    if errors.len() == 0 {
        Seq::empty()
    } else {
        let rest = present_errors(errors.drop_last());
        match errors.last().error {
            Some(e) => rest.push(e),
            None => rest,
        }
    }
}

/// Every error of a response: the top-level one first, then the per-entry
/// ones in response order.
pub open spec fn collected_errors(error: Option<ErrorEntry>, errors: Seq<DataEntryError>) -> Seq<
    ErrorEntry,
> {
    match error {
        Some(e) => seq![e] + present_errors(errors),
        None => present_errors(errors),
    }
}

/// What a response comes to: its payload where it carries no error, else
/// a remote function error that lists them all.
pub open spec fn aggregated<T>(
    payload: T,
    error: Option<ErrorEntry>,
    errors: Seq<DataEntryError>,
    r: Result<T, ClientError>,
) -> bool {
    let all = collected_errors(error, errors);
    if all.len() == 0 {
        r == Ok::<T, ClientError>(payload)
    } else {
        match r {
            Err(ClientError::Function(v)) => v@ == all,
            _ => false,
        }
    }
}

/// Gathers every error of a response into one list, top-level error first.
pub fn collect_errors(error: Option<ErrorEntry>, errors: Vec<DataEntryError>) -> (r: Vec<
    ErrorEntry,
>)
    ensures
        r@ == collected_errors(error, errors@),
{
    let ghost top = error;
    let mut result: Vec<ErrorEntry> = Vec::new();
    match error {
        Some(e) => result.push(e),
        None => {},
    }
    let ghost head = result@;
    let ghost all = errors@;
    for entry in it: errors
        invariant
            it.seq() == all,
            result@ == head + present_errors(all.take(it.index() as int)),
    {
        let ghost i = it.index() as int;
        proof {
            assert(all.take(i + 1).drop_last() =~= all.take(i));
        }
        match entry.error {
            Some(e) => {
                result.push(e);
                proof {
                    assert(result@ =~= head + present_errors(all.take(i + 1)));
                }
            },
            None => {},
        }
    }
    proof {
        assert(all.take(all.len() as int) =~= all);
        match top {
            Some(e) => assert(result@ =~= seq![e] + present_errors(all)),
            None => assert(result@ =~= present_errors(all)),
        }
    }
    result
}

/// Returns the payload of a response that carries no error, or fails with
/// every error that it carries.
pub fn aggregate<T>(payload: T, error: Option<ErrorEntry>, errors: Vec<DataEntryError>) -> (r:
    Result<T, ClientError>)
    ensures
        aggregated(payload, error, errors@, r),
{
    let all = collect_errors(error, errors);
    if all.len() > 0 {
        Err(ClientError::Function(all))
    } else {
        Ok(payload)
    }
}

impl GetResponse {
    /// The entries of a read, or every error that the reply carries.
    pub fn into_entries(self) -> (r: Result<Vec<DataEntry>, ClientError>)
        ensures
            aggregated(self.entries, self.error, self.errors@, r),
    {
        aggregate(self.entries, self.error, self.errors)
    }
}

impl SetResponse {
    /// Success of a write, or every error that the reply carries.
    pub fn into_result(self) -> (r: Result<(), ClientError>)
        ensures
            aggregated((), self.error, self.errors@, r),
    {
        aggregate((), self.error, self.errors)
    }
}

} // verus!
