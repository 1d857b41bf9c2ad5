//! The overlay clients that are connected to the hub, each with the handle
//! through which messages reach its socket.
//!
//! The registry is one value. Callers that share it between tasks put it
//! behind a lock of their own and hold that lock for one call at a time;
//! entries have no locks of their own.

use futures_channel::mpsc::UnboundedSender;
use tokio_tungstenite::tungstenite::Message;
use vstd::prelude::*;

verus! {

/// The sending half of an unbounded channel of `futures_channel`.
#[verifier::external_type_specification]
#[verifier::external_body]
#[verifier::reject_recursive_types(T)]
pub struct ExUnboundedSender<T>(UnboundedSender<T>);

/// A WebSocket message of `tungstenite`.
#[verifier::external_type_specification]
#[verifier::external_body]
pub struct ExMessage(Message);

/// The handle through which messages reach one overlay client.
pub type Tx = UnboundedSender<Message>;

/// Identifies one overlay connection: the remote address of its socket, an
/// IPv4 address in its IPv6-mapped form.
#[derive(Clone, Copy, Debug, PartialEq, Eq, Hash, Structural)]
pub struct ConnectionId {
    pub ip: u128,
    pub port: u16,
}

/// Sends `text` as a text message with `UnboundedSender::unbounded_send` of
/// `futures_channel` and says whether the channel took it. Whether it does
/// depends on the receiving task, so nothing is claimed of the answer. The
/// call gives up only when the channel's message count would overflow,
/// which cannot happen before memory runs out.
#[verifier::external_body]
fn send_text(tx: &Tx, text: &str) -> (delivered: bool) {
    tx.unbounded_send(Message::text(text)).is_ok()
}

struct Connection {
    id: ConnectionId,
    tx: Tx,
}

/// The connected overlay clients.
pub struct ConnectionMap {
    entries: Vec<Connection>,
}

/// The identifiers of `entries`, in order.
spec fn ids_of(entries: Seq<Connection>) -> Seq<ConnectionId> {
    entries.map_values(|c: Connection| c.id)
}

impl View for ConnectionMap {
    type V = Map<ConnectionId, Tx>;

    closed spec fn view(&self) -> Map<ConnectionId, Tx> {
        Map::new(
            |id: ConnectionId| ids_of(self.entries@).contains(id),
            |id: ConnectionId| self.entries@[ids_of(self.entries@).index_of(id)].tx,
        )
    }
}

impl ConnectionMap {
    /// The registry's invariant: no connection is entered twice. Every
    /// constructor establishes it and every method keeps it.
    pub closed spec fn wf(&self) -> bool {
        ids_of(self.entries@).no_duplicates()
    }

    /// The identifiers of the connections, in the order in which messages
    /// are sent to them.
    pub closed spec fn order(&self) -> Seq<ConnectionId> {
        ids_of(self.entries@)
    }

    /// The order lists exactly the registered connections, each once.
    pub proof fn lemma_order(&self)
        requires
            self.wf(),
        ensures
            self.order().no_duplicates(),
            self.order().to_set() == self@.dom(),
            self@.dom().finite(),
            self@.dom().len() == self.order().len(),
    {
        let ids = self.order();
        assert(ids.to_set() =~= self@.dom());
        ids.unique_seq_to_set();
        vstd::seq_lib::seq_to_set_is_finite(ids);
    }

    proof fn lemma_position(&self, i: int)
        requires
            self.wf(),
            0 <= i < self.entries@.len(),
        ensures
            self@.contains_key(self.entries@[i].id),
            self@[self.entries@[i].id] == self.entries@[i].tx,
            ids_of(self.entries@).index_of(self.entries@[i].id) == i,
    {
        let ids = ids_of(self.entries@);
        assert(ids[i] == self.entries@[i].id);
        let j = ids.index_of(self.entries@[i].id);
        assert(ids[j] == ids[i]);
    }

    /// A registry without connections.
    pub fn new() -> (registry: ConnectionMap)
        ensures
            registry.wf(),
            registry@ == Map::<ConnectionId, Tx>::empty(),
    {
        let registry = ConnectionMap { entries: Vec::new() };
        assert(registry@ =~= Map::<ConnectionId, Tx>::empty());
        registry
    }

    /// Number of connections.
    pub fn len(&self) -> (n: usize)
        requires
            self.wf(),
        ensures
            n == self@.dom().len(),
    {
        proof {
            self.lemma_order();
        }
        self.entries.len()
    }

    fn position(&self, id: ConnectionId) -> (found: Option<usize>)
        requires
            self.wf(),
        ensures
            match found {
                Some(i) => i < self.entries@.len() && self.entries@[i as int].id == id,
                None => !self@.contains_key(id),
            },
    {
        let mut i: usize = 0;
        while i < self.entries.len()
            invariant
                i <= self.entries@.len(),
                forall|j: int| 0 <= j < i ==> self.entries@[j].id != id,
            decreases self.entries@.len() - i,
        {
            if self.entries[i].id == id {
                return Some(i);
            }
            i = i + 1;
        }
        proof {
            let ids = ids_of(self.entries@);
            if ids.contains(id) {
                let j = choose|j: int| 0 <= j < ids.len() && ids[j] == id;
                assert(self.entries@[j].id == id);
            }
        }
        None
    }

    /// Whether `id` is registered.
    pub fn contains(&self, id: ConnectionId) -> (found: bool)
        requires
            self.wf(),
        ensures
            found == self@.contains_key(id),
    {
        match self.position(id) {
            Some(i) => {
                proof {
                    self.lemma_position(i as int);
                }
                true
            },
            None => false,
        }
    }

    /// Registers the connection `id` with its handle. A connection that is
    /// registered already gets the new handle.
    pub fn insert(&mut self, id: ConnectionId, tx: Tx)
        requires
            old(self).wf(),
        ensures
            final(self).wf(),
            final(self)@ == old(self)@.insert(id, tx),
    {
        let ghost before = *self;
        match self.position(id) {
            Some(i) => {
                self.entries.set(i, Connection { id, tx });
                proof {
                    assert(ids_of(self.entries@) =~= ids_of(before.entries@));
                    assert forall|k: ConnectionId| #[trigger]
                        self@.contains_key(k) implies self@[k] == before@.insert(id, tx)[k] by {
                        let j = ids_of(self.entries@).index_of(k);
                        assert(ids_of(self.entries@)[j] == k);
                        before.lemma_position(i as int);
                    }
                    before.lemma_position(i as int);
                    assert(self@ =~= before@.insert(id, tx));
                }
            },
            None => {
                self.entries.push(Connection { id, tx });
                proof {
                    let ids = ids_of(self.entries@);
                    assert(ids =~= ids_of(before.entries@).push(id));
                    assert(ids.no_duplicates());
                    assert forall|k: ConnectionId| #[trigger]
                        self@.contains_key(k) implies self@[k] == before@.insert(id, tx)[k] by {
                        let j = ids.index_of(k);
                        assert(ids[j] == k);
                        if j < before.entries@.len() {
                            assert(ids_of(before.entries@)[j] == k);
                            before.lemma_position(j);
                        }
                    }
                    assert forall|k: ConnectionId| #[trigger]
                        before@.insert(id, tx).contains_key(k) implies self@.contains_key(k) by {
                        if k != id {
                            let j = ids_of(before.entries@).index_of(k);
                            assert(ids_of(before.entries@)[j] == k);
                            assert(ids[j] == k);
                        } else {
                            assert(ids[ids.len() - 1] == id);
                        }
                    }
                    assert(self@ =~= before@.insert(id, tx));
                }
            },
        }
    }

    /// Takes the connection `id` out of the registry, if it is in it.
    pub fn remove(&mut self, id: ConnectionId)
        requires
            old(self).wf(),
        ensures
            final(self).wf(),
            final(self)@ == old(self)@.remove(id),
    {
        let ghost before = *self;
        match self.position(id) {
            None => {
                assert(self@ =~= before@.remove(id));
            },
            Some(i) => {
                self.entries.remove(i);
                proof {
                    let ids = ids_of(self.entries@);
                    let old_ids = ids_of(before.entries@);
                    assert(ids =~= old_ids.remove(i as int));
                    assert forall|a: int, b: int|
                        0 <= a < ids.len() && 0 <= b < ids.len() && a != b implies ids[a]
                        != ids[b] by {
                        let a0 = if a < i { a } else { a + 1 };
                        let b0 = if b < i { b } else { b + 1 };
                        assert(ids[a] == old_ids[a0]);
                        assert(ids[b] == old_ids[b0]);
                    }
                    assert forall|k: ConnectionId| #[trigger]
                        self@.contains_key(k) implies before@.remove(id).contains_key(k)
                        && self@[k] == before@.remove(id)[k] by {
                        let j = ids.index_of(k);
                        assert(ids[j] == k);
                        let j0 = if j < i { j } else { j + 1 };
                        assert(old_ids[j0] == k);
                        assert(old_ids[i as int] == id);
                        before.lemma_position(j0);
                    }
                    assert forall|k: ConnectionId| #[trigger]
                        before@.remove(id).contains_key(k) implies self@.contains_key(k) by {
                        let j0 = old_ids.index_of(k);
                        assert(old_ids[j0] == k);
                        assert(old_ids[i as int] == id);
                        let j = if j0 < i { j0 } else { j0 - 1 };
                        assert(ids[j] == k);
                    }
                    assert(self@ =~= before@.remove(id));
                }
            },
        }
    }

    /// Takes every connection named in `ids` out of the registry.
    pub fn remove_all(&mut self, ids: &Vec<ConnectionId>)
        requires
            old(self).wf(),
        ensures
            final(self).wf(),
            final(self)@ == old(self)@.remove_keys(ids@.to_set()),
    {
        let mut j: usize = 0;
        assert(self@ =~= old(self)@.remove_keys(ids@.subrange(0, 0).to_set()));
        while j < ids.len()
            invariant
                j <= ids@.len(),
                self.wf(),
                self@ == old(self)@.remove_keys(ids@.subrange(0, j as int).to_set()),
            decreases ids@.len() - j,
        {
            let ghost done = ids@.subrange(0, j as int).to_set();
            self.remove(ids[j]);
            proof {
                let next = ids@.subrange(0, j + 1);
                assert(next.to_set() =~= done.insert(ids@[j as int])) by {
                    assert forall|k: ConnectionId| next.to_set().contains(k) implies done.insert(
                        ids@[j as int],
                    ).contains(k) by {
                        let p = choose|p: int| 0 <= p < next.len() && next[p] == k;
                        if p < j {
                            assert(ids@.subrange(0, j as int)[p] == k);
                        }
                    }
                    assert forall|k: ConnectionId| done.insert(ids@[j as int]).contains(
                        k,
                    ) implies next.to_set().contains(k) by {
                        if k == ids@[j as int] {
                            assert(next[j as int] == k);
                        } else {
                            let p = choose|p: int|
                                0 <= p < j && ids@.subrange(0, j as int)[p] == k;
                            assert(next[p] == k);
                        }
                    }
                }
                assert(self@ =~= old(self)@.remove_keys(next.to_set()));
            }
            j = j + 1;
        }
        assert(ids@.subrange(0, ids@.len() as int) =~= ids@);
    }

    /// Pushes `text` to every connection, in order, and lists those whose
    /// handle did not take it, in that order. The registry itself is left
    /// as it is. Which handles take the message is for the receiving tasks
    /// to decide; the list is made of their answers as `undelivered` says.
    pub fn send_to_all(&self, text: &str) -> (failed: Vec<ConnectionId>)
        requires
            self.wf(),
        ensures
            exists|delivered: Seq<bool>|
                delivered.len() == self.order().len() && failed@ == #[trigger] failed_ids(
                    self.order(),
                    delivered,
                ),
            failed@.no_duplicates(),
            failed@.to_set().subset_of(self@.dom()),
    {
        let delivered = self.deliver(text);
        let failed = self.undelivered(&delivered);
        assert(failed@ == failed_ids(self.order(), delivered@));
        failed
    }

    /// Pushes `text` to every connection. A connection whose handle does
    /// not take the message is taken out of the registry once all have been
    /// tried; the others stay, with their handles. The connections that
    /// were taken out are listed, in the order in which they were tried.
    pub fn broadcast(&mut self, text: &str) -> (removed: Vec<ConnectionId>)
        requires
            old(self).wf(),
        ensures
            final(self).wf(),
            exists|delivered: Seq<bool>|
                delivered.len() == old(self).order().len() && removed@ == #[trigger] failed_ids(
                    old(self).order(),
                    delivered,
                ),
            removed@.no_duplicates(),
            removed@.to_set().subset_of(old(self)@.dom()),
            final(self)@ == old(self)@.remove_keys(removed@.to_set()),
    {
        let delivered = self.deliver(text);
        let failed = self.undelivered(&delivered);
        assert(failed@ == failed_ids(old(self).order(), delivered@));
        self.remove_all(&failed);
        failed
    }

    /// Sends `text` through every handle, in order, and notes for each
    /// whether it took the message.
    fn deliver(&self, text: &str) -> (delivered: Vec<bool>)
        ensures
            delivered@.len() == self.order().len(),
    {
        let mut delivered: Vec<bool> = Vec::new();
        let mut i: usize = 0;
        while i < self.entries.len()
            invariant
                i <= self.entries@.len(),
                delivered@.len() == i,
            decreases self.entries@.len() - i,
        {
            delivered.push(send_text(&self.entries[i].tx, text));
            i = i + 1;
        }
        delivered
    }

    /// The connections to which a message was not delivered, given for
    /// each connection, in order, whether its handle took the message. An
    /// answer that is missing counts as delivered.
    pub fn undelivered(&self, delivered: &Vec<bool>) -> (failed: Vec<ConnectionId>)
        requires
            self.wf(),
        ensures
            failed@ == failed_ids(self.order(), delivered@),
            failed@.no_duplicates(),
            failed@.to_set().subset_of(self@.dom()),
    {
        let ghost order = self.order();
        let mut failed: Vec<ConnectionId> = Vec::new();
        let mut i: usize = 0;
        assert(order.subrange(0, 0) =~= Seq::<ConnectionId>::empty());
        while i < self.entries.len()
            invariant
                i <= self.entries@.len(),
                order == ids_of(self.entries@),
                failed@ == failed_ids(order.subrange(0, i as int), delivered@),
            decreases self.entries@.len() - i,
        {
            proof {
                let longer = order.subrange(0, i + 1);
                assert(longer.drop_last() =~= order.subrange(0, i as int));
                assert(longer.last() == self.entries@[i as int].id);
            }
            if i < delivered.len() && !delivered[i] {
                failed.push(self.entries[i].id);
            }
            i = i + 1;
        }
        proof {
            assert(order.subrange(0, i as int) =~= order);
            lemma_failed_ids(order, delivered@);
            self.lemma_order();
            assert forall|k: ConnectionId| failed@.to_set().contains(k) implies self@.dom().contains(
                k,
            ) by {
                assert(failed@.contains(k));
                assert(order.contains(k));
                assert(order.to_set().contains(k));
            }
        }
        failed
    }
}

/// The connections, of those in `order`, to which a message was not
/// delivered: those whose answer in `delivered`, at the same position, is
/// `false`. They keep the order in which they were tried.
pub open spec fn failed_ids(order: Seq<ConnectionId>, delivered: Seq<bool>) -> Seq<ConnectionId>
    decreases order.len(),
{
    if order.len() == 0 {
        Seq::empty()
    } else {
        let earlier = failed_ids(order.drop_last(), delivered);
        if order.len() <= delivered.len() && !delivered[order.len() - 1] {
            earlier.push(order.last())
        } else {
            earlier
        }
    }
}

/// Whoever a message was not delivered to is one of those it was sent to,
/// and is listed once if those were.
pub proof fn lemma_failed_ids(order: Seq<ConnectionId>, delivered: Seq<bool>)
    ensures
        forall|id: ConnectionId| #[trigger]
            failed_ids(order, delivered).contains(id) ==> order.contains(id),
        order.no_duplicates() ==> failed_ids(order, delivered).no_duplicates(),
        failed_ids(order, delivered).len() <= order.len(),
    decreases order.len(),
{
    if order.len() > 0 {
        let shorter = order.drop_last();
        lemma_failed_ids(shorter, delivered);
        let earlier = failed_ids(shorter, delivered);
        let all = failed_ids(order, delivered);
        assert forall|id: ConnectionId| #[trigger] all.contains(id) implies order.contains(id) by {
            let p = choose|p: int| 0 <= p < all.len() && all[p] == id;
            if p < earlier.len() {
                assert(earlier[p] == id);
                assert(earlier.contains(id));
                let q = choose|q: int| 0 <= q < shorter.len() && shorter[q] == id;
                assert(order[q] == id);
            } else {
                assert(order[order.len() - 1] == id);
            }
        }
        if order.no_duplicates() {
            assert forall|a: int, b: int| 0 <= a < shorter.len() && 0 <= b < shorter.len() && a
                != b implies shorter[a] != shorter[b] by {
                assert(shorter[a] == order[a]);
                assert(shorter[b] == order[b]);
            }
            assert(shorter.no_duplicates());
            if all.len() > earlier.len() {
                assert forall|a: int, b: int| 0 <= a < all.len() && 0 <= b < all.len() && a
                    != b implies all[a] != all[b] by {
                    if a < earlier.len() && b < earlier.len() {
                        assert(earlier[a] != earlier[b]);
                    } else {
                        let inner = if a < earlier.len() {
                            a
                        } else {
                            b
                        };
                        assert(earlier.contains(earlier[inner]));
                        let q = choose|q: int|
                            0 <= q < shorter.len() && shorter[q] == earlier[inner];
                        assert(order[q] == earlier[inner]);
                        assert(order[order.len() - 1] == order.last());
                    }
                }
            }
        }
    }
}

} // verus!
