//! The broadcast hub: the single registry of live viewer connections.
//!
//! A connection handle is registered when its viewer starts and removed
//! when it stops; one user may hold zero or many handles, and handles
//! carry no user identity. A publish serializes the event once and hands
//! the identical payload to every currently registered handle.

use vstd::prelude::*;

use crate::codec::{encode_event, spec_event_json};
use crate::models::{PlaceUpdate, VpRes};

verus! {

/// The pixel-update server: owner of the set of registered viewer
/// connection handles.
pub struct VpSrv {
    listeners: Vec<u64>,
}

impl VpSrv {
    /// The registered handles, in registration order.
    pub closed spec fn listeners_view(self) -> Seq<u64> {
        self.listeners@
    }

    pub open spec fn registered(self, handle: u64) -> bool {
        self.listeners_view().contains(handle)
    }

    /// Handles are unique: registering is idempotent and a publish
    /// reaches each handle once.
    pub open spec fn wf(self) -> bool {
        self.listeners_view().no_duplicates()
    }

    pub fn new() -> (s: Self)
        ensures
            s.wf(),
            s.listeners_view() == Seq::<u64>::empty(),
    {
        VpSrv { listeners: Vec::new() }
    }

    fn position(&self, handle: u64) -> (r: Option<usize>)
        ensures
            match r {
                Some(i) => i < self.listeners_view().len() && self.listeners_view()[i as int]
                    == handle && forall|j: int| 0 <= j < i ==> self.listeners_view()[j] != handle,
                None => !self.registered(handle),
            },
    {
        let mut i: usize = 0;
        while i < self.listeners.len()
            invariant
                i <= self.listeners_view().len(),
                forall|j: int| 0 <= j < i ==> self.listeners_view()[j] != handle,
            decreases self.listeners_view().len() - i,
        {
            if self.listeners[i] == handle {
                return Some(i);
            }
            i = i + 1;
        }
        None
    }

    /// Adds a handle to the registry; registering an already-registered
    /// handle changes nothing.
    pub fn register(&mut self, handle: u64)
        requires
            old(self).wf(),
        ensures
            final(self).wf(),
            final(self).registered(handle),
            old(self).registered(handle) ==> final(self).listeners_view() == old(
                self,
            ).listeners_view(),
            !old(self).registered(handle) ==> final(self).listeners_view() == old(
                self,
            ).listeners_view().push(handle),
    {
        match self.position(handle) {
            Some(i) => {
                proof {
                    assert(self.listeners_view()[i as int] == handle);
                }
            },
            None => {
                self.listeners.push(handle);
                proof {
                    let v = self.listeners_view();
                    assert(v[v.len() - 1] == handle);
                    assert forall|i: int, j: int| 0 <= i < j < v.len() implies v[i] != v[j] by {
                        if j == v.len() - 1 {
                            assert(old(self).listeners_view()[i] != handle);
                        }
                    }
                }
            },
        }
    }

    /// Removes a handle if present; a second or unknown deregistration is
    /// a no-op.
    pub fn deregister(&mut self, handle: u64)
        requires
            old(self).wf(),
        ensures
            final(self).wf(),
            !final(self).registered(handle),
            !old(self).registered(handle) ==> final(self).listeners_view() == old(
                self,
            ).listeners_view(),
            old(self).registered(handle) ==> final(self).listeners_view() == old(
                self,
            ).listeners_view().remove(old(self).listeners_view().index_of(handle)),
    {
        match self.position(handle) {
            Some(i) => {
                self.listeners.remove(i);
                proof {
                    let v0 = old(self).listeners_view();
                    let v1 = self.listeners_view();
                    // The found index is the unique occurrence, hence the
                    // first one.
                    assert(v0[v0.index_of(handle)] == handle);
                    assert(i == v0.index_of(handle));
                    assert forall|j: int| 0 <= j < v1.len() implies v1[j] != handle by {
                        if j < i {
                            assert(v1[j] == v0[j]);
                        } else {
                            assert(v1[j] == v0[j + 1]);
                        }
                    }
                    assert forall|a: int, b: int| 0 <= a < b < v1.len() implies v1[a] != v1[b] by {
                        let a0 = if a < i {
                            a
                        } else {
                            a + 1
                        };
                        let b0 = if b < i {
                            b
                        } else {
                            b + 1
                        };
                        assert(v1[a] == v0[a0] && v1[b] == v0[b0]);
                    }
                }
            },
            None => (),
        }
    }

    /// Serializes the event once and pairs the identical payload with
    /// every currently registered handle, in registration order; a
    /// deregistered handle receives nothing.
    pub fn publish(&self, event: &PlaceUpdate) -> (out: Vec<(u64, VpRes)>)
        ensures
            out@.len() == self.listeners_view().len(),
            forall|i: int|
                0 <= i < out@.len() ==> out@[i].0 == self.listeners_view()[i] && out@[i].1.0@
                    == spec_event_json(event.loc.0, event.loc.1, event.color),
    {
        let payload = encode_event(event);
        let mut out: Vec<(u64, VpRes)> = Vec::new();
        let mut i: usize = 0;
        while i < self.listeners.len()
            invariant
                i == out@.len() <= self.listeners_view().len(),
                payload@ == spec_event_json(event.loc.0, event.loc.1, event.color),
                forall|j: int|
                    0 <= j < i ==> out@[j].0 == self.listeners_view()[j] && out@[j].1.0@
                        == spec_event_json(event.loc.0, event.loc.1, event.color),
            decreases self.listeners_view().len() - i,
        {
            out.push((self.listeners[i], VpRes(payload.clone())));
            i = i + 1;
        }
        out
    }
}

/// Broadcast fan-out law: over any duplicate-free sequence of handles —
/// such as the hub's registry — each handle occurs exactly once if
/// registered and not at all otherwise; with `publish` delivering to
/// exactly the registered handles in order, one publish means exactly one
/// delivery per registered connection and zero to any other.
pub proof fn lemma_fanout_exactly_once(handles: Seq<u64>, handle: u64)
    requires
        handles.no_duplicates(),
    ensures
        handles.to_multiset().count(handle) == if handles.contains(handle) {
            1int
        } else {
            0int
        },
{
    broadcast use vstd::seq_lib::group_to_multiset_ensures;

    handles.lemma_multiset_has_no_duplicates();
    if handles.contains(handle) {
        assert(handles.to_multiset().count(handle) > 0);
    } else {
        assert(handles.to_multiset().count(handle) == 0);
    }
}

} // verus!
