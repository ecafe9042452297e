//! The registry of cancellation handles: at most one per session.

use dashmap::DashMap;
use tokio::sync::oneshot::{Receiver, Sender};
use vstd::prelude::*;

verus! {

/// `dashmap::DashMap`, the concurrent map that holds the handles. Nothing
/// inside it is visible to the verifier.
#[verifier::external_type_specification]
#[verifier::external_body]
#[verifier::reject_recursive_types(K)]
#[verifier::reject_recursive_types(V)]
#[verifier::reject_recursive_types(S)]
pub struct ExDashMap<K, V, S>(DashMap<K, V, S>);

/// `ahash::RandomState`, the hasher that the map is made with.
#[verifier::external_type_specification]
#[verifier::external_body]
pub struct ExRandomState(ahash::RandomState);

/// `tokio::sync::oneshot::Sender`, the sending end of a one-shot channel.
#[verifier::external_type_specification]
#[verifier::external_body]
#[verifier::reject_recursive_types(T)]
pub struct ExSender<T>(Sender<T>);

/// `tokio::sync::oneshot::Receiver`, the receiving end of a one-shot channel.
#[verifier::external_type_specification]
#[verifier::external_body]
#[verifier::reject_recursive_types(T)]
pub struct ExReceiver<T>(Receiver<T>);

/// `tokio::sync::oneshot::error::RecvError`, what awaiting a receiving end
/// gives when the sender is gone.
#[verifier::external_type_specification]
#[verifier::external_body]
pub struct ExRecvError(tokio::sync::oneshot::error::RecvError);

/// A one-shot signal that tells a scheduled delayed action to become a no-op.
///
/// The handle carries the identifier under which the scheduler issued it, so
/// that a handle found in the registry can be told from a later one for the
/// same session.
pub struct CancellationHandle {
    id: u64,
    signal: Sender<()>,
}

/// The registered handles as a mathematical map: from a session to the
/// identifier of the handle registered for it.
pub type Handles = Map<u64, u64>;

/// What the map holds: for each session with a registered handle, the
/// identifier of that handle.
pub uninterp spec fn held(tasks: DashMap<u64, CancellationHandle, ahash::RandomState>) -> Handles;

/// `DashMap::with_hasher`, given a fresh `ahash::RandomState`. The new map
/// holds no entry.
#[verifier::external_body]
fn map_new() -> (made: DashMap<u64, CancellationHandle, ahash::RandomState>)
    ensures
        held(made) == Handles::empty(),
{
    DashMap::with_hasher(ahash::RandomState::default())
}

/// `DashMap::insert`. The entry for `session` now is `handle`, the other
/// entries stay, and the handle that was stored for `session` before, if there
/// was one, is handed back.
#[verifier::external_body]
fn map_insert(
    tasks: &mut DashMap<u64, CancellationHandle, ahash::RandomState>,
    session: u64,
    handle: CancellationHandle,
) -> (prev: Option<CancellationHandle>)
    ensures
        held(*final(tasks)) == held(*old(tasks)).insert(session, handle.id),
        prev is Some <==> held(*old(tasks)).contains_key(session),
        prev matches Some(p) ==> p.id == held(*old(tasks))[session],
{
    tasks.insert(session, handle)
}

/// `DashMap::remove`. The entry for `session` is gone, the other entries
/// stay, and the handle that was stored for `session`, if there was one, is
/// handed back.
#[verifier::external_body]
fn map_remove(
    tasks: &mut DashMap<u64, CancellationHandle, ahash::RandomState>,
    session: u64,
) -> (prev: Option<CancellationHandle>)
    ensures
        held(*final(tasks)) == held(*old(tasks)).remove(session),
        prev is Some <==> held(*old(tasks)).contains_key(session),
        prev matches Some(p) ==> p.id == held(*old(tasks))[session],
{
    tasks.remove(&session).map(|entry| entry.1)
}

/// `DashMap::get`. Gives the identifier of the handle stored for `session`,
/// if there is one; the map is left as it is.
#[verifier::external_body]
fn map_get(tasks: &DashMap<u64, CancellationHandle, ahash::RandomState>, session: u64) -> (id:
    Option<u64>)
    ensures
        id is Some <==> held(*tasks).contains_key(session),
        id matches Some(i) ==> i == held(*tasks)[session],
{
    tasks.get(&session).map(|entry| entry.id)
}

/// `tokio::sync::oneshot::channel`. Nothing is claimed of the two ends.
#[verifier::external_body]
fn open_signal() -> (ends: (Sender<()>, Receiver<()>)) {
    tokio::sync::oneshot::channel()
}

/// `tokio::sync::oneshot::Sender::send`, with the unit value. Whether the
/// receiving end was still there to take it is not looked at.
#[verifier::external_body]
fn send_signal(signal: Sender<()>) {
    let _ = signal.send(());
}

impl CancellationHandle {
    /// The identifier of this handle.
    pub closed spec fn spec_id(&self) -> u64 {
        self.id
    }

    /// Makes a handle with the given identifier, and the receiving end on
    /// which the delayed action learns that the handle was fired.
    pub fn new(id: u64) -> (made: (CancellationHandle, Receiver<()>))
        ensures
            made.0.spec_id() == id,
    {
        let (signal, cancelled) = open_signal();
        (CancellationHandle { id, signal }, cancelled)
    }

    #[verifier::when_used_as_spec(spec_id)]
    pub fn id(&self) -> (id: u64)
        ensures
            id == self.spec_id(),
    {
        self.id
    }

    /// Fires the handle. Firing a handle whose action has already run, or
    /// whose receiving end is gone, does nothing; no error comes back.
    pub fn fire(self) {
        send_signal(self.signal);
    }
}

/// The handles of the pending delayed actions, by session.
///
/// What the registry holds is known from one call to the next because every
/// change goes through `&mut self`: a program that shares the registry among
/// tasks keeps it behind a lock, held for the length of one call.
pub struct SessionRegistry {
    tasks: DashMap<u64, CancellationHandle, ahash::RandomState>,
}

impl View for SessionRegistry {
    type V = Handles;

    /// For each session with a registered handle, that handle's identifier.
    closed spec fn view(&self) -> Handles {
        held(self.tasks)
    }
}

impl SessionRegistry {
    /// A registry without any handle.
    pub fn new() -> (registry: SessionRegistry)
        ensures
            registry@ == Handles::empty(),
    {
        SessionRegistry { tasks: map_new() }
    }

    /// Stores `handle` for `session`, in place of whatever was stored for it,
    /// and hands back what was stored, so that the caller can fire it.
    pub fn put(&mut self, session: u64, handle: CancellationHandle) -> (prev: Option<
        CancellationHandle,
    >)
        ensures
            final(self)@ == old(self)@.insert(session, handle.spec_id()),
            prev is Some <==> old(self)@.contains_key(session),
            prev matches Some(p) ==> p.spec_id() == old(self)@[session],
    {
        map_insert(&mut self.tasks, session, handle)
    }

    /// Takes the handle of `session` out of the registry, if it has one.
    pub fn remove(&mut self, session: u64) -> (prev: Option<CancellationHandle>)
        ensures
            final(self)@ == old(self)@.remove(session),
            prev is Some <==> old(self)@.contains_key(session),
            prev matches Some(p) ==> p.spec_id() == old(self)@[session],
    {
        map_remove(&mut self.tasks, session)
    }

    /// The identifier of the handle registered for `session`, if it has one.
    pub fn get(&self, session: u64) -> (id: Option<u64>)
        ensures
            id is Some <==> self@.contains_key(session),
            id matches Some(i) ==> i == self@[session],
    {
        map_get(&self.tasks, session)
    }
}

} // verus!
