use vstd::prelude::*;

use crate::error::{ClientError, ConnectionFault};
use crate::types::{EntryRequest, EntryUpdate, Field, SubscribeEntry, EntryView};

verus! {

/// The connection state of a client: the server's address, and whether a
/// transport channel has been established. A channel is established only by
/// an explicit connect and is dropped only by an explicit disconnect; a
/// failed call leaves it as it is.
pub struct Session {
    server_address: String,
    connected: bool,
}

impl Session {
    pub closed spec fn connected(&self) -> bool {
        self.connected
    }

    pub closed spec fn address(&self) -> Seq<char> {
        self.server_address@
    }

    /// The address of the server to connect to.
    pub fn server_address(&self) -> (r: &str)
        ensures
            r@ == self.address(),
    {
        self.server_address.as_str()
    }

    /// A session for the given address, not yet connected.
    pub fn new(server_address: &str) -> (r: Session)
        ensures
            r.address() == server_address@,
            !r.connected(),
    {
        Session { server_address: server_address.to_owned(), connected: false }
    }

    pub fn is_connected(&self) -> (r: bool)
        ensures
            r == self.connected(),
    {
        self.connected
    }

    /// Whether `connect` has to dial the server: only while no channel is up.
    pub fn needs_dial(&self) -> (r: bool)
        ensures
            r == !self.connected(),
    {
        !self.connected
    }

    /// Records how a connect ended: `dialed` tells whether a channel to the
    /// server was established. An established session stays established.
    pub fn finish_connect(&mut self, dialed: bool) -> (r: Result<(), ClientError>)
        ensures
            final(self).address() == old(self).address(),
            final(self).connected() == (old(self).connected() || dialed),
            r == if old(self).connected() || dialed {
                Ok::<(), ClientError>(())
            } else {
                Err(ClientError::Connection(ConnectionFault::Unreachable))
            },
    {
        if self.connected || dialed {
            self.connected = true;
            Ok(())
        } else {
            Err(ClientError::Connection(ConnectionFault::Unreachable))
        }
    }

    /// Drops the channel; a later operation needs a new connect.
    pub fn disconnect(&mut self)
        ensures
            final(self).address() == old(self).address(),
            !final(self).connected(),
    {
        self.connected = false;
    }

    /// Fails unless a channel is up.
    pub fn check_connected(&self) -> (r: Result<(), ClientError>)
        ensures
            r == if self.connected() {
                Ok::<(), ClientError>(())
            } else {
                Err(ClientError::Connection(ConnectionFault::NotConnected))
            },
    {
        if self.connected {
            Ok(())
        } else {
            Err(ClientError::Connection(ConnectionFault::NotConnected))
        }
    }

    /// The read to send for one path, scoped by `view` and `fields`; none
    /// while no channel is up.
    pub fn get_request(&self, path: &str, view: EntryView, fields: Vec<Field>) -> (r: Result<
        EntryRequest,
        ClientError,
    >)
        ensures
            self.connected() ==> (r matches Ok(req) && req.path@ == path@ && req.view == view
                && req.fields == fields),
            !self.connected() ==> r == Err::<EntryRequest, ClientError>(
                ClientError::Connection(ConnectionFault::NotConnected),
            ),
    {
        self.check_connected()?;
        Ok(EntryRequest { path: path.to_owned(), view, fields })
    }

    /// The batched write to send; none while no channel is up.
    pub fn set_request(&self, updates: Vec<EntryUpdate>) -> (r: Result<
        Vec<EntryUpdate>,
        ClientError,
    >)
        ensures
            r == if self.connected() {
                Ok::<Vec<EntryUpdate>, ClientError>(updates)
            } else {
                Err(ClientError::Connection(ConnectionFault::NotConnected))
            },
    {
        self.check_connected()?;
        Ok(updates)
    }

    /// The subscription to open; none while no channel is up.
    pub fn subscribe_request(&self, entries: Vec<SubscribeEntry>) -> (r: Result<
        Vec<SubscribeEntry>,
        ClientError,
    >)
        ensures
            r == if self.connected() {
                Ok::<Vec<SubscribeEntry>, ClientError>(entries)
            } else {
                Err(ClientError::Connection(ConnectionFault::NotConnected))
            },
    {
        self.check_connected()?;
        Ok(entries)
    }

    /// The read of the metadata of `path`.
    pub fn metadata_request(&self, path: &str) -> (r: Result<EntryRequest, ClientError>)
        ensures
            self.connected() ==> (r matches Ok(req) && req.path@ == path@ && req.view
                == EntryView::Metadata && req.fields@ == seq![Field::Metadata]),
            !self.connected() ==> r == Err::<EntryRequest, ClientError>(
                ClientError::Connection(ConnectionFault::NotConnected),
            ),
    {
        let fields = vec![Field::Metadata];
        self.get_request(path, EntryView::Metadata, fields)
    }

    /// The read of the current value of `path`.
    pub fn current_value_request(&self, path: &str) -> (r: Result<EntryRequest, ClientError>)
        ensures
            self.connected() ==> (r matches Ok(req) && req.path@ == path@ && req.view
                == EntryView::CurrentValue && req.fields@ == seq![Field::Value]),
            !self.connected() ==> r == Err::<EntryRequest, ClientError>(
                ClientError::Connection(ConnectionFault::NotConnected),
            ),
    {
        let fields = vec![Field::Value];
        self.get_request(path, EntryView::CurrentValue, fields)
    }

    /// The read of the target value of `path`.
    pub fn target_value_request(&self, path: &str) -> (r: Result<EntryRequest, ClientError>)
        ensures
            self.connected() ==> (r matches Ok(req) && req.path@ == path@ && req.view
                == EntryView::TargetValue && req.fields@ == seq![Field::ActuatorTarget]),
            !self.connected() ==> r == Err::<EntryRequest, ClientError>(
                ClientError::Connection(ConnectionFault::NotConnected),
            ),
    {
        let fields = vec![Field::ActuatorTarget];
        self.get_request(path, EntryView::TargetValue, fields)
    }
}

} // verus!
