use vstd::prelude::*;

use crate::common::{
    all_data_types_known, all_entry_types_known, datatype_from_metadata, decoded_data_type,
    decoded_entry_type, entrytype_from_metadata, str_to_value, text_converts, RealReadings,
};
use crate::error::{ClientError, ConnectionFault};
use crate::session::Session;
use crate::path_map::PathMap;
use crate::types::{
    DataEntry, Datapoint, EntryRequest, EntryType, EntryUpdate, EntryView, Field, Metadata,
    SubscribeEntry, Timestamp, Value,
};

verus! {

/// The metadata that a metadata read yields, by path: entries without
/// metadata are left out, and a later entry for a path replaces an earlier one.
pub open spec fn metadata_map(entries: Seq<DataEntry>) -> Map<Seq<char>, Metadata>
    decreases entries.len(),
{
    if entries.len() == 0 {
        Map::empty()
    } else {
        let m = metadata_map(entries.drop_last());
        match entries.last().metadata {
            Some(md) => m.insert(entries.last().path@, md),
            None => m,
        }
    }
}

/// Collects the metadata of the entries of a metadata read.
pub fn metadata_from_entries(entries: Vec<DataEntry>) -> (r: PathMap<Metadata>)
    ensures
        r.wf(),
        r@ == metadata_map(entries@),
{
    let mut result: PathMap<Metadata> = PathMap::new();
    let ghost all = entries@;
    for entry in it: entries
        invariant
            it.seq() == all,
            result.wf(),
            result@ == metadata_map(all.take(it.index() as int)),
    {
        let ghost i = it.index() as int;
        proof {
            assert(all.take(i + 1).drop_last() =~= all.take(i));
        }
        match entry.metadata {
            Some(md) => {
                result.insert(entry.path, md);
            },
            None => {},
        }
    }
    proof {
        assert(all.take(all.len() as int) =~= all);
    }
    result
}

/// What the actuator check of `path` comes to on the given metadata.
pub open spec fn actuator_outcome(m: Map<Seq<char>, Metadata>, path: Seq<char>) -> Result<
    (),
    ClientError,
> {
    if !all_entry_types_known(m) {
        Err(ClientError::MetadataDecode)
    } else if m.contains_key(path) && decoded_entry_type(m[path]) == EntryType::Actuator {
        Ok(())
    } else {
        Err(ClientError::NotAnActuator)
    }
}

/// Succeeds only where the metadata says that `path` is an actuator.
pub fn check_actuator(metadatas: &PathMap<Metadata>, path: &str) -> (r: Result<(), ClientError>)
    requires
        metadatas.wf(),
    ensures
        r == actuator_outcome(metadatas@, path@),
{
    let types = entrytype_from_metadata(metadatas)?;
    match types.get(path) {
        Some(EntryType::Actuator) => Ok(()),
        _ => Err(ClientError::NotAnActuator),
    }
}

/// The current value that a read of one leaf path returned.
pub fn current_value_of(entries: Vec<DataEntry>) -> (r: Result<Option<Datapoint>, ClientError>)
    ensures
        r == if entries@.len() == 1 {
            Ok::<Option<Datapoint>, ClientError>(entries@[0].value)
        } else {
            Err(ClientError::NotALeaf)
        },
{
    if entries.len() != 1 {
        return Err(ClientError::NotALeaf);
    }
    let mut entries = entries;
    let entry = entries.pop().unwrap();
    Ok(entry.value)
}

/// The target value that a read of one leaf path returned.
pub fn target_value_of(entries: Vec<DataEntry>) -> (r: Result<Option<Datapoint>, ClientError>)
    ensures
        r == if entries@.len() == 1 {
            Ok::<Option<Datapoint>, ClientError>(entries@[0].actuator_target)
        } else {
            Err(ClientError::NotALeaf)
        },
{
    if entries.len() != 1 {
        return Err(ClientError::NotALeaf);
    }
    let mut entries = entries;
    let entry = entries.pop().unwrap();
    Ok(entry.actuator_target)
}

/// Whether `u` writes the value `v`, observed at `timestamp`, into `field`
/// of `path`, and nothing else.
pub open spec fn writes_value(
    u: EntryUpdate,
    path: Seq<char>,
    field: Field,
    timestamp: Option<Timestamp>,
    v: Value,
) -> bool {
    let point = Datapoint { timestamp, value: Some(v) };
    &&& u.fields@ == seq![field]
    &&& u.entry.path@ == path
    &&& u.entry.metadata is None
    &&& u.entry.value == if field == Field::Value {
        Some(point)
    } else {
        None
    }
    &&& u.entry.actuator_target == if field == Field::ActuatorTarget {
        Some(point)
    } else {
        None
    }
}

/// What preparing a write of the text `text` into `field` of `path` comes
/// to on the given metadata: the path's data type decides the conversion.
pub open spec fn update_outcome(
    m: Map<Seq<char>, Metadata>,
    path: Seq<char>,
    text: Seq<char>,
    reals: RealReadings,
    field: Field,
    timestamp: Option<Timestamp>,
    r: Result<EntryUpdate, ClientError>,
) -> bool {
    if !all_data_types_known(m) {
        r == Err::<EntryUpdate, ClientError>(ClientError::MetadataDecode)
    } else if !m.contains_key(path) {
        r == Err::<EntryUpdate, ClientError>(ClientError::MetadataNotFound)
    } else {
        let t = decoded_data_type(m[path]);
        match r {
            Ok(u) => exists|v: Value|
                text_converts(text, t, reals, Ok(v)) && #[trigger] writes_value(
                    u,
                    path,
                    field,
                    timestamp,
                    v,
                ),
            Err(e) => text_converts(text, t, reals, Err(e)),
        }
    }
}

fn value_update(path: &str, field: Field, timestamp: Option<Timestamp>, value: Value) -> (r:
    EntryUpdate)
    requires
        field == Field::Value || field == Field::ActuatorTarget,
    ensures
        writes_value(r, path@, field, timestamp, value),
{
    let point = Datapoint { timestamp, value: Some(value) };
    let entry = if field == Field::Value {
        DataEntry {
            path: path.to_owned(),
            value: Some(point),
            actuator_target: None,
            metadata: None,
        }
    } else {
        DataEntry {
            path: path.to_owned(),
            value: None,
            actuator_target: Some(point),
            metadata: None,
        }
    };
    let fields = vec![field];
    proof {
        assert(fields@ =~= seq![field]);
    }
    EntryUpdate { entry, fields }
}

fn prepare_update(
    metadatas: &PathMap<Metadata>,
    path: &str,
    text: &str,
    reals: RealReadings,
    field: Field,
    timestamp: Option<Timestamp>,
) -> (r: Result<EntryUpdate, ClientError>)
    requires
        metadatas.wf(),
        field == Field::Value || field == Field::ActuatorTarget,
    ensures
        update_outcome(metadatas@, path@, text@, reals, field, timestamp, r),
{
    let types = datatype_from_metadata(metadatas)?;
    let datatype = match types.get(path) {
        Some(t) => *t,
        None => {
            return Err(ClientError::MetadataNotFound);
        },
    };
    let value = str_to_value(text, datatype, reals)?;
    let ghost v = value;
    let update = value_update(path, field, timestamp, value);
    proof {
        assert(writes_value(update, path@, field, timestamp, v));
    }
    Ok(update)
}

/// The write that sets the current value of `path` to what `text` denotes
/// in the path's data type, observed at `timestamp`.
pub fn current_value_update(
    metadatas: &PathMap<Metadata>,
    path: &str,
    text: &str,
    reals: RealReadings,
    timestamp: Option<Timestamp>,
) -> (r: Result<EntryUpdate, ClientError>)
    requires
        metadatas.wf(),
    ensures
        update_outcome(metadatas@, path@, text@, reals, Field::Value, timestamp, r),
{
    prepare_update(metadatas, path, text, reals, Field::Value, timestamp)
}

/// What preparing a target-value write comes to: the actuator check first,
/// then the same conversion as for a current-value write.
pub open spec fn target_update_outcome(
    m: Map<Seq<char>, Metadata>,
    path: Seq<char>,
    text: Seq<char>,
    reals: RealReadings,
    timestamp: Option<Timestamp>,
    r: Result<EntryUpdate, ClientError>,
) -> bool {
    match actuator_outcome(m, path) {
        Err(e) => r == Err::<EntryUpdate, ClientError>(e),
        Ok(_) => update_outcome(m, path, text, reals, Field::ActuatorTarget, timestamp, r),
    }
}

/// The write that sets the target value of the actuator `path` to what
/// `text` denotes in the path's data type, observed at `timestamp`. Fails
/// before anything is converted where `path` is not an actuator.
pub fn target_value_update(
    metadatas: &PathMap<Metadata>,
    path: &str,
    text: &str,
    reals: RealReadings,
    timestamp: Option<Timestamp>,
) -> (r: Result<EntryUpdate, ClientError>)
    requires
        metadatas.wf(),
    ensures
        target_update_outcome(metadatas@, path@, text@, reals, timestamp, r),
{
    check_actuator(metadatas, path)?;
    prepare_update(metadatas, path, text, reals, Field::ActuatorTarget, timestamp)
}

/// The subscription to the current value of `path`.
pub fn current_value_subscription(path: &str) -> (r: Vec<SubscribeEntry>)
    ensures
        r@.len() == 1,
        r@[0].path@ == path@,
        r@[0].view == EntryView::CurrentValue,
        r@[0].fields@ == seq![Field::Value],
{
    let fields = vec![Field::Value];
    vec![SubscribeEntry { path: path.to_owned(), view: EntryView::CurrentValue, fields }]
}

/// The subscription to the target value of `path`.
pub fn target_value_subscription(path: &str) -> (r: Vec<SubscribeEntry>)
    ensures
        r@.len() == 1,
        r@[0].path@ == path@,
        r@[0].view == EntryView::TargetValue,
        r@[0].fields@ == seq![Field::ActuatorTarget],
{
    let fields = vec![Field::ActuatorTarget];
    vec![SubscribeEntry { path: path.to_owned(), view: EntryView::TargetValue, fields }]
}

/// The read of the target value of `path`, given the path's freshly fetched
/// metadata: none unless the metadata says that `path` is an actuator, and
/// none while no channel is up.
pub fn target_value_read(session: &Session, metadatas: &PathMap<Metadata>, path: &str) -> (r:
    Result<EntryRequest, ClientError>)
    requires
        metadatas.wf(),
    ensures
        match actuator_outcome(metadatas@, path@) {
            Err(e) => r == Err::<EntryRequest, ClientError>(e),
            Ok(_) => {
                &&& session.connected() ==> (r matches Ok(req) && req.path@ == path@ && req.view
                    == EntryView::TargetValue && req.fields@ == seq![Field::ActuatorTarget])
                &&& !session.connected() ==> r == Err::<EntryRequest, ClientError>(
                    ClientError::Connection(ConnectionFault::NotConnected),
                )
            },
        },
{
    check_actuator(metadatas, path)?;
    session.target_value_request(path)
}

/// The subscription to the target value of `path`, given the path's freshly
/// fetched metadata: none unless the metadata says that `path` is an actuator.
pub fn target_subscription(metadatas: &PathMap<Metadata>, path: &str) -> (r: Result<
    Vec<SubscribeEntry>,
    ClientError,
>)
    requires
        metadatas.wf(),
    ensures
        match actuator_outcome(metadatas@, path@) {
            Err(e) => r == Err::<Vec<SubscribeEntry>, ClientError>(e),
            Ok(_) => r matches Ok(v) && v@.len() == 1 && v@[0].path@ == path@ && v@[0].view
                == EntryView::TargetValue && v@[0].fields@ == seq![Field::ActuatorTarget],
        },
{
    check_actuator(metadatas, path)?;
    Ok(target_value_subscription(path))
}

/// A read of the current values of several paths, one path after another.
/// The first failure ends the whole batch: `record` then hands back the
/// error and consumes the batch, so no partial map is ever returned.
pub struct EntriesBatch {
    paths: Vec<String>,
    done: usize,
    collected: PathMap<Option<Datapoint>>,
}

impl EntriesBatch {
    pub closed spec fn paths(&self) -> Seq<String> {
        self.paths@
    }

    /// How many paths have been read.
    pub closed spec fn done(&self) -> nat {
        self.done as nat
    }

    /// What has been read so far, by path.
    pub closed spec fn collected(&self) -> Map<Seq<char>, Option<Datapoint>> {
        self.collected@
    }

    pub closed spec fn wf(&self) -> bool {
        &&& self.done <= self.paths@.len()
        &&& self.collected.wf()
    }

    pub fn new(paths: Vec<String>) -> (r: EntriesBatch)
        ensures
            r.wf(),
            r.paths() == paths@,
            r.done() == 0,
            r.collected() == Map::<Seq<char>, Option<Datapoint>>::empty(),
    {
        EntriesBatch { paths, done: 0, collected: PathMap::new() }
    }

    /// The path to read next, or `None` once every path has been read.
    pub fn next_path(&self) -> (r: Option<&String>)
        requires
            self.wf(),
        ensures
            self.done() < self.paths().len() ==> r == Some(&self.paths()[self.done() as int]),
            self.done() == self.paths().len() ==> r.is_none(),
    {
        if self.done < self.paths.len() {
            Some(&self.paths[self.done])
        } else {
            None
        }
    }

    /// Records how the read of the next path ended.
    pub fn record(self, outcome: Result<Option<Datapoint>, ClientError>) -> (r: Result<
        EntriesBatch,
        ClientError,
    >)
        requires
            self.wf(),
            self.done() < self.paths().len(),
        ensures
            match outcome {
                Err(e) => r == Err::<EntriesBatch, ClientError>(e),
                Ok(point) => r matches Ok(b) && b.wf() && b.paths() == self.paths() && b.done()
                    == self.done() + 1 && b.collected() == self.collected().insert(
                    self.paths()[self.done() as int]@,
                    point,
                ),
            },
    {
        let point = outcome?;
        let mut batch = self;
        let n = batch.paths.len();
        assert(batch.done < n);
        let path = batch.paths[batch.done].clone();
        batch.collected.insert(path, point);
        batch.done = batch.done + 1;
        Ok(batch)
    }

    /// What was read, by path, once every path has been read.
    pub fn finish(self) -> (r: PathMap<Option<Datapoint>>)
        requires
            self.wf(),
            self.done() == self.paths().len(),
        ensures
            r.wf(),
            r@ == self.collected(),
    {
        self.collected
    }
}

} // verus!
