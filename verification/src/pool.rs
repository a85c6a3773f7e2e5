//! The per-server connection pool's state.
//!
//! A pool keeps up to `size` idle connections in a queue, together with an
//! epoch counter that versions the whole pool: a refresh closes every idle
//! connection, advances the epoch, and refills; a connection returned with an
//! older epoch is handed back for closing, never requeued.
//!
//! This type holds the state and the decisions; waiting for a connection and
//! opening or closing one are the caller's work, so every operation returns
//! the connections that must be closed instead of closing them.  Checkouts
//! pop the queue's tail and returns push its head, preferring recently used
//! connections.

use vstd::prelude::*;

use std::collections::VecDeque;

verus! {

/// The mathematical state of a pool: the idle connections in queue order
/// (head first), the epoch, the target size, and how many connections are
/// checked out under the current epoch.
#[verifier::ext_equal]
pub struct PoolModel<T> {
    pub conns: Seq<T>,
    pub epoch: int,
    pub size: int,
    pub checked_out: nat,
}

/// The pool state after a refresh that installed `new_conns` (created in that
/// order and pushed to the head one by one).
pub open spec fn refresh_model<T>(m: PoolModel<T>, new_conns: Seq<T>) -> PoolModel<T> {
    PoolModel {
        conns: new_conns.reverse(),
        epoch: m.epoch + 1,
        size: new_conns.len() as int,
        checked_out: 0,
    }
}

/// The idle queue of one server's pool.
pub struct ConnectionQueue<T> {
    queue: VecDeque<T>,
    epoch: u64,
    size: usize,
    checked_out: Ghost<nat>,
}

impl<T> ConnectionQueue<T> {
    /// The pool's mathematical state.
    pub closed spec fn model(&self) -> PoolModel<T> {
        PoolModel {
            conns: self.queue@,
            epoch: self.epoch as int,
            size: self.size as int,
            checked_out: self.checked_out@,
        }
    }

    /// Capacity invariant: idle connections and current-epoch checkouts never
    /// exceed the configured size.
    pub open spec fn wf(&self) -> bool {
        self.model().conns.len() + self.model().checked_out <= self.model().size
    }

    /// An empty pool of size zero, at epoch zero.
    pub fn new() -> (r: ConnectionQueue<T>)
        ensures
            r.model().conns == Seq::<T>::empty(),
            r.model().epoch == 0,
            r.model().size == 0,
            r.model().checked_out == 0,
            r.wf(),
    {
        ConnectionQueue {
            queue: VecDeque::new(),
            epoch: 0,
            size: 0,
            checked_out: Ghost(0),
        }
    }

    /// Empties the idle queue and hands its connections back for closing, in
    /// queue order.  Epoch, size and checkouts are untouched.
    pub fn close_connections(&mut self) -> (closed: Vec<T>)
        requires
            old(self).wf(),
        ensures
            closed@ == old(self).model().conns,
            final(self).model().conns == Seq::<T>::empty(),
            final(self).model().epoch == old(self).model().epoch,
            final(self).model().size == old(self).model().size,
            final(self).model().checked_out == old(self).model().checked_out,
            final(self).wf(),
    {
        let mut closed: Vec<T> = Vec::new();
        loop
            invariant
                old(self).wf(),
                old(self).model().conns == closed@ + self.queue@,
                self.epoch == old(self).epoch,
                self.size == old(self).size,
                self.checked_out@ == old(self).checked_out@,
            decreases self.queue.len(),
        {
            match self.queue.pop_front() {
                Some(conn) => {
                    closed.push(conn);
                },
                None => {
                    assert(old(self).model().conns =~= closed@);
                    return closed;
                },
            }
        }
    }

    /// Begins a refresh: closes every idle connection, advances the epoch and
    /// installs the new target size.  Connections checked out before this
    /// call now carry a stale epoch; their later return will close them, so
    /// none of them counts against the new size.
    pub fn start_refresh(&mut self, new_size: usize) -> (closed: Vec<T>)
        requires
            old(self).wf(),
            old(self).model().epoch < u64::MAX,
        ensures
            closed@ == old(self).model().conns,
            final(self).model().conns == Seq::<T>::empty(),
            final(self).model().epoch == old(self).model().epoch + 1,
            final(self).model().size == new_size as int,
            final(self).model().checked_out == 0,
            final(self).wf(),
    {
        let closed = self.close_connections();
        self.epoch = self.epoch + 1;
        self.size = new_size;
        self.checked_out = Ghost(0);
        closed
    }

    /// Pushes one freshly created connection to the head of the queue.
    pub fn add_connection(&mut self, conn: T)
        requires
            old(self).wf(),
            old(self).model().conns.len() + old(self).model().checked_out < old(
                self,
            ).model().size,
        ensures
            final(self).model().conns == seq![conn] + old(self).model().conns,
            final(self).model().epoch == old(self).model().epoch,
            final(self).model().size == old(self).model().size,
            final(self).model().checked_out == old(self).model().checked_out,
            final(self).wf(),
    {
        self.queue.push_front(conn);
    }

    /// Closes every idle connection, advances the epoch, sets the size from
    /// the new connections' count and installs them.  The whole refresh as
    /// one step; the connections to close are handed back.
    pub fn refresh_connections(&mut self, new_conns: Vec<T>) -> (closed: Vec<T>)
        requires
            old(self).wf(),
            old(self).model().epoch < u64::MAX,
        ensures
            closed@ == old(self).model().conns,
            final(self).model() == refresh_model(old(self).model(), new_conns@),
            final(self).wf(),
    {
        let ghost all_new: Seq<T> = new_conns@;
        let n = new_conns.len();
        let closed = self.start_refresh(n);
        let mut rest = new_conns;
        let mut i: usize = 0;
        loop
            invariant
                i <= n,
                all_new == new_conns@,
                all_new.len() == n,
                closed@ == old(self).model().conns,
                rest@ == all_new.subrange(i as int, n as int),
                self.model().conns == all_new.subrange(0, i as int).reverse(),
                self.model().epoch == old(self).model().epoch + 1,
                self.model().size == n as int,
                self.model().checked_out == 0,
            decreases n - i,
        {
            if i == n {
                proof {
                    assert(all_new.subrange(0, n as int) =~= all_new);
                    assert(self.model() =~= refresh_model(old(self).model(), all_new));
                }
                return closed;
            }
            let conn = rest.remove(0);
            proof {
                assert(conn == all_new[i as int]);
                assert(rest@ =~= all_new.subrange(i as int + 1, n as int));
            }
            self.add_connection(conn);
            i = i + 1;
            proof {
                assert(self.model().conns =~= all_new.subrange(0, i as int).reverse());
            }
        }
    }

    /// True when the idle queue is empty (a checkout would have to wait).
    pub fn is_empty(&self) -> (r: bool)
        ensures
            r == (self.model().conns.len() == 0),
    {
        self.queue.len() == 0
    }

    /// True when every connection is back in the queue (shutdown may proceed).
    pub fn has_all_connections(&self) -> (r: bool)
        ensures
            r == (self.model().conns.len() == self.model().size),
    {
        self.queue.len() == self.size
    }

    /// Checks out the connection at the queue's tail, together with the epoch
    /// it was taken under.
    pub fn take(&mut self) -> (r: (T, u64))
        requires
            old(self).wf(),
            old(self).model().conns.len() > 0,
        ensures
            r.0 == old(self).model().conns.last(),
            r.1 as int == old(self).model().epoch,
            final(self).model().conns == old(self).model().conns.drop_last(),
            final(self).model().epoch == old(self).model().epoch,
            final(self).model().size == old(self).model().size,
            final(self).model().checked_out == old(self).model().checked_out + 1,
            final(self).wf(),
    {
        let conn = self.queue.pop_back().unwrap();
        self.checked_out = Ghost(self.checked_out@ + 1);
        (conn, self.epoch)
    }

    /// The current epoch.
    pub fn get_epoch(&self) -> (r: u64)
        ensures
            r as int == self.model().epoch,
    {
        self.epoch
    }

    /// Returns a checked-out connection.  Taken under the current epoch it is
    /// pushed to the queue's head; taken under an older epoch it is stale and
    /// handed back for closing, never requeued.
    pub fn return_connection(&mut self, conn: T, from_epoch: u64) -> (stale: Option<T>)
        requires
            old(self).wf(),
            from_epoch as int == old(self).model().epoch ==> old(self).model().checked_out > 0,
        ensures
            final(self).model().epoch == old(self).model().epoch,
            final(self).model().size == old(self).model().size,
            (from_epoch as int == old(self).model().epoch ==> {
                &&& stale is None
                &&& final(self).model().conns == seq![conn] + old(self).model().conns
                &&& final(self).model().checked_out == old(self).model().checked_out - 1
            }),
            (from_epoch as int != old(self).model().epoch ==> {
                &&& stale == Some(conn)
                &&& final(self).model().conns == old(self).model().conns
                &&& final(self).model().checked_out == old(self).model().checked_out
            }),
            final(self).wf(),
    {
        if from_epoch == self.epoch {
            self.queue.push_front(conn);
            self.checked_out = Ghost((self.checked_out@ - 1) as nat);
            None
        } else {
            Some(conn)
        }
    }

    /// Shuts the pool down once every connection is back in the queue: the
    /// queue is emptied and its connections are handed back for closing.
    /// Afterwards both the idle count and the checkout count are zero.
    pub fn shutdown(&mut self) -> (closed: Vec<T>)
        requires
            old(self).wf(),
            old(self).model().conns.len() == old(self).model().size,
        ensures
            closed@ == old(self).model().conns,
            final(self).model().conns.len() == 0,
            final(self).model().checked_out == 0,
            final(self).model().epoch == old(self).model().epoch,
            final(self).model().size == old(self).model().size,
            final(self).wf(),
    {
        self.close_connections()
    }
}

/// Law (pool capacity): under the capacity invariant, which every operation
/// preserves, the idle queue and the current-epoch checkouts each stay within
/// the configured size.
pub proof fn lemma_pool_capacity<T>(m: PoolModel<T>)
    requires
        m.conns.len() + m.checked_out <= m.size,
    ensures
        m.conns.len() <= m.size,
        m.checked_out <= m.size,
{
}

/// Law: with a pool of size one, two checkouts cannot both hold a connection
/// — while one is checked out, the idle queue is empty, so the second
/// checkout finds nothing to take and must wait for the return.
pub proof fn lemma_single_slot_excludes_second_take<T>(m: PoolModel<T>)
    requires
        m.size == 1,
        m.conns.len() + m.checked_out <= m.size,
        m.checked_out >= 1,
    ensures
        m.conns.len() == 0,
{
}

/// Law: a second refresh that installs the same connections leaves the
/// observable pool state of the first — same idle queue, same size, no
/// checkouts; only the epoch counter advances.
pub proof fn lemma_refresh_idempotent<T>(m: PoolModel<T>, new_conns: Seq<T>)
    ensures
        refresh_model(refresh_model(m, new_conns), new_conns).conns == refresh_model(
            m,
            new_conns,
        ).conns,
        refresh_model(refresh_model(m, new_conns), new_conns).size == refresh_model(
            m,
            new_conns,
        ).size,
        refresh_model(refresh_model(m, new_conns), new_conns).checked_out == refresh_model(
            m,
            new_conns,
        ).checked_out,
        refresh_model(refresh_model(m, new_conns), new_conns).epoch == refresh_model(
            m,
            new_conns,
        ).epoch + 1,
{
}

} // verus!
