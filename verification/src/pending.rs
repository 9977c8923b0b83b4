//! The table of requests that wait for a response, keyed by the request counter.

use vstd::prelude::*;
use std::collections::HashMap;
use crate::rpc::SessionError;

verus! {

/// Requests in flight: each counter maps to whoever waits for its response. Once closed,
/// the table accepts no new requests.
pub struct PendingRequests<W> {
    waiters: HashMap<u64, W>,
    closed: bool,
}

impl<W> PendingRequests<W> {
    /// The waiters by request counter.
    pub closed spec fn spec_waiters(&self) -> Map<u64, W> {
        self.waiters@
    }

    /// Whether the table was closed.
    pub closed spec fn spec_closed(&self) -> bool {
        self.closed
    }

    /// An open, empty table.
    pub fn new() -> (r: Self)
        ensures
            r.spec_waiters() == Map::<u64, W>::empty(),
            !r.spec_closed(),
    {
        PendingRequests { waiters: HashMap::new(), closed: false }
    }

    /// Registers the waiter of a new request; a closed table refuses it as disconnected.
    pub fn register(&mut self, id: u64, waiter: W) -> (r: Result<(), SessionError>)
        ensures
            old(self).spec_closed() ==> r == Err::<(), SessionError>(SessionError::Disconnected)
                && final(self).spec_waiters() == old(self).spec_waiters(),
            !old(self).spec_closed() ==> r is Ok && final(self).spec_waiters() == old(self).spec_waiters().insert(
                id,
                waiter,
            ),
            final(self).spec_closed() == old(self).spec_closed(),
    {
        if self.closed {
            return Err(SessionError::Disconnected);
        }
        self.waiters.insert(id, waiter);
        Ok(())
    }

    /// Takes the waiter of a request out of the table, if it is there.
    pub fn take(&mut self, id: u64) -> (r: Option<W>)
        ensures
            old(self).spec_waiters().contains_key(id) ==> r == Some(old(self).spec_waiters()[id]),
            !old(self).spec_waiters().contains_key(id) ==> r is None,
            final(self).spec_waiters() == old(self).spec_waiters().remove(id),
            final(self).spec_closed() == old(self).spec_closed(),
    {
        self.waiters.remove(&id)
    }

    /// Closes the table and hands out every waiter, so that each can be told why its request
    /// will get no response.
    pub fn close(&mut self) -> (r: Vec<W>)
        ensures
            final(self).spec_closed(),
            final(self).spec_waiters() == Map::<u64, W>::empty(),
            r@.len() == old(self).spec_waiters().dom().len(),
            forall|id: u64| #[trigger] old(self).spec_waiters().contains_key(id) ==> r@.contains(
                old(self).spec_waiters()[id],
            ),
            exists|ids: Seq<u64>|
                {
                    &&& #[trigger] ids.to_set() == old(self).spec_waiters().dom()
                    &&& ids.no_duplicates()
                    &&& ids.len() == r@.len()
                    &&& forall|i: int| 0 <= i < ids.len() ==> r@[i] == old(self).spec_waiters()[ids[i]]
                },
    {
        self.closed = true;
        let ghost start = self.waiters@;
        let mut ids: Vec<u64> = Vec::new();
        for id in it: self.waiters.keys()
            invariant
                start == self.waiters@,
                self.closed,
                ids@ == it.seq().unref().take(it.index() as int),
                it.seq().len() == start.dom().len(),
                it.seq().unref().to_set() == start.dom(),
                it.seq().unref().no_duplicates(),
                ids@.len() == it.index(),
                it.index() == it.seq().len() ==> ids@ == it.seq().unref(),
        {
            ids.push(*id);
            proof {
                assert(ids@ =~= it.seq().unref().take(it.index() + 1));
                assert(it.index() + 1 == it.seq().len() ==> it.seq().unref().take(it.index() + 1)
                    =~= it.seq().unref());
            }
        }
        assert(ids@.len() == start.dom().len());
        let mut out: Vec<W> = Vec::new();
        let mut j: usize = 0;
        while j < ids.len()
            invariant
                self.closed,
                ids@.to_set() == start.dom(),
                ids@.no_duplicates(),
                ids@.len() == start.dom().len(),
                j <= ids@.len(),
                self.waiters@ == start.remove_keys(ids@.take(j as int).to_set()),
                out@.len() == j,
                forall|k: int| 0 <= k < j ==> out@[k] == start[ids@[k]],
            decreases ids@.len() - j,
        {
            let id = ids[j];
            proof {
                assert(ids@.to_set().contains(id));
                assert(!ids@.take(j as int).to_set().contains(id)) by {
                    if ids@.take(j as int).to_set().contains(id) {
                        let k = choose|k: int| 0 <= k < j && ids@.take(j as int)[k] == id;
                        assert(ids@[k] == ids@[j as int]);
                    }
                }
            }
            match self.waiters.remove(&id) {
                Some(v) => {
                    out.push(v);
                },
                None => {},
            }
            proof {
                let a = ids@.take(j as int);
                let b = ids@.take(j + 1);
                assert(b[j as int] == id);
                assert forall|x: u64| #[trigger] b.contains(x) == (a.contains(x) || x == id) by {
                    if b.contains(x) {
                        let k = choose|k: int| 0 <= k < b.len() && b[k] == x;
                        if k < j {
                            assert(a[k] == x);
                        }
                    }
                    if a.contains(x) {
                        let k = choose|k: int| 0 <= k < a.len() && a[k] == x;
                        assert(b[k] == x);
                    }
                }
                assert(b.to_set() =~= a.to_set().insert(id));
                assert(self.waiters@ =~= start.remove_keys(ids@.take(j + 1).to_set()));
            }
            j += 1;
        }
        proof {
            assert(ids@.take(ids@.len() as int) =~= ids@);
            assert(self.waiters@ =~= Map::<u64, W>::empty());
            assert forall|id: u64| #[trigger] start.contains_key(id) implies out@.contains(start[id]) by {
                assert(ids@.to_set().contains(id));
                let k = choose|k: int| 0 <= k < ids@.len() && ids@[k] == id;
                assert(out@[k] == start[id]);
            }
            assert(ids@.to_set() == start.dom());
        }
        out
    }
}

} // verus!
