//! Learning the data storage of the connection over which a value is sent.

use vstd::prelude::*;

verus! {

/// Carries the data storage of a connection along with a value.
///
/// The sending side learns of the storage through a handle, the first time the
/// value is sent. The receiving side finds it here.
pub struct StorageRef {
    /// Whether the handle still waits for a storage.
    pub waiting: bool,
    /// The storage, if this was received.
    pub storage: Option<u64>,
}

/// Creates a storage reference whose handle waits for it to be sent.
pub fn storage_ref() -> (r: StorageRef)
    ensures
        r == (StorageRef { waiting: true, storage: None }),
{
    StorageRef { waiting: true, storage: None }
}

impl StorageRef {
    /// Creates a storage reference without a handle.
    pub fn new() -> (r: Self)
        ensures
            r == (StorageRef { waiting: false, storage: None }),
    {
        StorageRef { waiting: false, storage: None }
    }

    /// Returns the storage of the connection over which this was received.
    pub fn get(&self) -> (r: Option<u64>)
        ensures
            r == self.storage,
    {
        self.storage
    }

    /// Consumes this and returns the storage of the connection over which this was received.
    pub fn into_inner(self) -> (r: Option<u64>)
        ensures
            r == self.storage,
    {
        self.storage
    }

    /// Sends this over the connection with the given storage.
    ///
    /// Returns what to report to the handle: the storage, if this is sent for
    /// the first time.
    pub fn on_send(&mut self, storage: u64) -> (r: Option<u64>)
        ensures
            r == (if old(self).waiting {
                Some(storage)
            } else {
                None
            }),
            *final(self) == (StorageRef { waiting: false, storage: old(self).storage }),
    {
        if self.waiting {
            self.waiting = false;
            Some(storage)
        } else {
            None
        }
    }

    /// Creates the storage reference received over the connection with the given storage.
    pub fn on_received(storage: u64) -> (r: Self)
        ensures
            r == (StorageRef { waiting: false, storage: Some(storage) }),
    {
        StorageRef { waiting: false, storage: Some(storage) }
    }
}

impl Default for StorageRef {
    fn default() -> (r: Self)
        ensures
            r == (StorageRef { waiting: false, storage: None }),
    {
        StorageRef::new()
    }
}

/// The handle is told of the storage of the first connection over which the value is sent, and of
/// none after that; the receiving side finds the storage of its connection.
pub proof fn law_storage_is_told_once(
    start: StorageRef,
    sent: StorageRef,
    again: StorageRef,
    storage: u64,
    other: u64,
    first: Option<u64>,
    second: Option<u64>,
    received: StorageRef,
    found: Option<u64>,
    taken: Option<u64>,
)
    requires
        call_ensures(storage_ref, (), start),
        exists|state: &mut StorageRef| #[trigger]
            call_ensures(StorageRef::on_send, (state, storage), first) && *state == start
                && *final(state) == sent,
        exists|state: &mut StorageRef| #[trigger]
            call_ensures(StorageRef::on_send, (state, other), second) && *state == sent
                && *final(state) == again,
        call_ensures(StorageRef::on_received, (storage,), received),
        call_ensures(StorageRef::get, (&received,), found),
        call_ensures(StorageRef::into_inner, (received,), taken),
    ensures
        first == Some(storage),
        second is None,
        found == Some(storage),
        taken == found,
        !received.waiting,
        start.storage is None && sent.storage is None,
{
}

/// A storage reference without a handle tells nobody.
pub proof fn law_storage_without_handle(
    start: StorageRef,
    after: StorageRef,
    storage: u64,
    r: Option<u64>,
    default: StorageRef,
)
    requires
        call_ensures(StorageRef::new, (), start),
        exists|state: &mut StorageRef| #[trigger]
            call_ensures(StorageRef::on_send, (state, storage), r) && *state == start
                && *final(state) == after,
        call_ensures(<StorageRef as Default>::default, (), default),
    ensures
        r is None,
        default == start,
        start.storage is None,
{
}

} // verus!
