//! The ledger of operations in flight: which containers have a command
//! pending, and for which of them the next `die` event was asked for here.

use vstd::prelude::*;
use vstd::hash_set::StringHashSet;
use crate::text::{lemma_texts_take_next, texts};

verus! {

/// The two sets of container ids that the ledger keeps. They change
/// independently of each other: a command may complete before or after the
/// event that it causes.
pub struct PendingOperationLedger {
    pending_ops: StringHashSet,
    user_initiated_stops: StringHashSet,
}

/// Mathematical value of a [`PendingOperationLedger`].
pub struct LedgerView {
    /// Ids with a start, stop, restart or delete in flight.
    pub pending_ops: Set<Seq<char>>,
    /// Ids whose next `die` event is expected and raises no notification.
    pub user_initiated_stops: Set<Seq<char>>,
}

impl LedgerView {
    /// The ledger with nothing in flight.
    pub open spec fn empty() -> LedgerView {
        LedgerView { pending_ops: Set::empty(), user_initiated_stops: Set::empty() }
    }

    /// A command that stops nothing (start, delete) was issued for `id`.
    pub open spec fn begin(self, id: Seq<char>) -> LedgerView {
        LedgerView { pending_ops: self.pending_ops.insert(id), ..self }
    }

    /// A command that stops the container (stop, restart) was issued for
    /// `id`: its `die` event is expected from now on.
    pub open spec fn begin_stop(self, id: Seq<char>) -> LedgerView {
        LedgerView {
            pending_ops: self.pending_ops.insert(id),
            user_initiated_stops: self.user_initiated_stops.insert(id),
        }
    }

    /// The command for `id` succeeded: only `id` is no longer pending.
    pub open spec fn succeed(self, id: Seq<char>) -> LedgerView {
        LedgerView { pending_ops: self.pending_ops.remove(id), ..self }
    }

    /// A command failed: nothing is pending any more, whichever id failed.
    pub open spec fn fail(self) -> LedgerView {
        LedgerView { pending_ops: Set::empty(), ..self }
    }

    /// A command completed: with success for the id it names, or with a
    /// failure.
    pub open spec fn complete(self, result: Result<Seq<char>, Seq<char>>) -> LedgerView {
        match result {
            Ok(id) => self.succeed(id),
            Err(_) => self.fail(),
        }
    }

    /// A batch of commands that stop nothing was issued for `ids`.
    pub open spec fn begin_all(self, ids: Seq<Seq<char>>) -> LedgerView {
        LedgerView { pending_ops: self.pending_ops.union(ids.to_set()), ..self }
    }

    /// A batch of commands that stop their containers was issued for `ids`.
    pub open spec fn begin_stop_all(self, ids: Seq<Seq<char>>) -> LedgerView {
        LedgerView {
            pending_ops: self.pending_ops.union(ids.to_set()),
            user_initiated_stops: self.user_initiated_stops.union(ids.to_set()),
        }
    }

    /// Whether a `die` event for `id` is external, that is, not asked for
    /// here and worth a notification.
    pub open spec fn die_is_external(self, id: Seq<char>) -> bool {
        !self.user_initiated_stops.contains(id)
    }

    /// A `die` event for `id` was seen: an expectation of it is used up.
    pub open spec fn observe_die(self, id: Seq<char>) -> LedgerView {
        LedgerView { user_initiated_stops: self.user_initiated_stops.remove(id), ..self }
    }
}

impl View for PendingOperationLedger {
    type V = LedgerView;

    closed spec fn view(&self) -> LedgerView {
        LedgerView {
            pending_ops: self.pending_ops@,
            user_initiated_stops: self.user_initiated_stops@,
        }
    }
}

impl PendingOperationLedger {
    /// A ledger with nothing in flight.
    pub fn new() -> (ledger: PendingOperationLedger)
        ensures
            ledger@ == LedgerView::empty(),
    {
        PendingOperationLedger {
            pending_ops: StringHashSet::new(),
            user_initiated_stops: StringHashSet::new(),
        }
    }

    /// Records that a start or delete was issued for `id`.
    pub fn begin(&mut self, id: String)
        ensures
            final(self)@ == old(self)@.begin(id@),
    {
        self.pending_ops.insert(id);
    }

    /// Records that a stop or restart was issued for `id`. Registering an
    /// id that is registered already changes nothing.
    pub fn begin_stop(&mut self, id: String)
        ensures
            final(self)@ == old(self)@.begin_stop(id@),
    {
        self.user_initiated_stops.insert(id.clone());
        self.pending_ops.insert(id);
    }

    /// Records that the command for `id` succeeded.
    pub fn succeed(&mut self, id: &str)
        ensures
            final(self)@ == old(self)@.succeed(id@),
    {
        self.pending_ops.remove(id);
    }

    /// Records that a command failed.
    pub fn fail(&mut self)
        ensures
            final(self)@ == old(self)@.fail(),
    {
        self.pending_ops.clear();
    }

    /// Records the completion of a command.
    pub fn complete(&mut self, result: &Result<String, String>)
        ensures
            final(self)@ == old(self)@.complete(
                match *result {
                    Ok(id) => Ok(id@),
                    Err(message) => Err(message@),
                },
            ),
    {
        match result {
            Ok(id) => self.succeed(id.as_str()),
            Err(_) => self.fail(),
        }
    }

    /// Records that a batch of starts was issued for `ids`.
    pub fn begin_all(&mut self, ids: &Vec<String>)
        ensures
            final(self)@ == old(self)@.begin_all(texts(ids@)),
    {
        let mut i: usize = 0;
        assert(texts(ids@.take(0)).to_set() =~= Set::<Seq<char>>::empty());
        assert(self.pending_ops@ =~= old(self).pending_ops@.union(texts(ids@.take(0)).to_set()));
        while i < ids.len()
            invariant
                i <= ids.len(),
                self.pending_ops@ == old(self).pending_ops@.union(
                    texts(ids@.take(i as int)).to_set(),
                ),
                self.user_initiated_stops@ == old(self).user_initiated_stops@,
            decreases ids.len() - i,
        {
            proof {
                lemma_texts_take_next(ids@, i as int);
            }
            self.pending_ops.insert(ids[i].clone());
            assert(self.pending_ops@ =~= old(self).pending_ops@.union(
                texts(ids@.take(i + 1)).to_set(),
            ));
            i += 1;
        }
        assert(ids@.take(i as int) =~= ids@);
    }

    /// Records that a batch of stops was issued for `ids`.
    pub fn begin_stop_all(&mut self, ids: &Vec<String>)
        ensures
            final(self)@ == old(self)@.begin_stop_all(texts(ids@)),
    {
        let mut i: usize = 0;
        assert(texts(ids@.take(0)).to_set() =~= Set::<Seq<char>>::empty());
        assert(self.pending_ops@ =~= old(self).pending_ops@.union(texts(ids@.take(0)).to_set()));
        assert(self.user_initiated_stops@ =~= old(self).user_initiated_stops@.union(
            texts(ids@.take(0)).to_set(),
        ));
        while i < ids.len()
            invariant
                i <= ids.len(),
                self.pending_ops@ == old(self).pending_ops@.union(
                    texts(ids@.take(i as int)).to_set(),
                ),
                self.user_initiated_stops@ == old(self).user_initiated_stops@.union(
                    texts(ids@.take(i as int)).to_set(),
                ),
            decreases ids.len() - i,
        {
            proof {
                lemma_texts_take_next(ids@, i as int);
            }
            self.pending_ops.insert(ids[i].clone());
            self.user_initiated_stops.insert(ids[i].clone());
            assert(self.pending_ops@ =~= old(self).pending_ops@.union(
                texts(ids@.take(i + 1)).to_set(),
            ));
            assert(self.user_initiated_stops@ =~= old(self).user_initiated_stops@.union(
                texts(ids@.take(i + 1)).to_set(),
            ));
            i += 1;
        }
        assert(ids@.take(i as int) =~= ids@);
    }

    /// Records a `die` event for `id` and tells whether it is external. An
    /// expected event uses its expectation up, so that the next `die` for
    /// the same id is external again unless a stop or restart is issued in
    /// between.
    pub fn observe_die(&mut self, id: &str) -> (external: bool)
        ensures
            external == old(self)@.die_is_external(id@),
            final(self)@ == old(self)@.observe_die(id@),
    {
        !self.user_initiated_stops.remove(id)
    }

    /// Whether a command for `id` is in flight.
    pub fn is_pending(&self, id: &str) -> (pending: bool)
        ensures
            pending == self@.pending_ops.contains(id@),
    {
        self.pending_ops.contains(id)
    }

    /// Whether the next `die` event for `id` is expected.
    pub fn expects_die(&self, id: &str) -> (expected: bool)
        ensures
            expected == self@.user_initiated_stops.contains(id@),
    {
        self.user_initiated_stops.contains(id)
    }

    /// How many ids have a command in flight.
    pub fn pending_count(&self) -> (count: usize)
        ensures
            count == self@.pending_ops.len(),
    {
        self.pending_ops.len()
    }

    /// How many ids have their next `die` event expected.
    pub fn expected_die_count(&self) -> (count: usize)
        ensures
            count == self@.user_initiated_stops.len(),
    {
        self.user_initiated_stops.len()
    }
}

/// An expectation of a `die` event is used up by the first such event.
///
/// Once a stop or restart is issued for `id`, the next `die` event for `id`
/// is not external, and the one after it is, unless a stop or restart is
/// issued again in between. A `die` event for an id that was never
/// registered is external and leaves the ledger as it was.
pub proof fn lemma_expectation_is_single_use(ledger: LedgerView, id: Seq<char>)
    ensures
        !ledger.begin_stop(id).die_is_external(id),
        ledger.begin_stop(id).observe_die(id).die_is_external(id),
        !ledger.begin_stop(id).observe_die(id).begin_stop(id).die_is_external(id),
        !ledger.user_initiated_stops.contains(id) ==> ledger.die_is_external(id)
            && ledger.observe_die(id) == ledger,
{
    if !ledger.user_initiated_stops.contains(id) {
        assert(ledger.user_initiated_stops.remove(id) =~= ledger.user_initiated_stops);
    }
}

/// Registering a stop twice is the same as registering it once.
pub proof fn lemma_begin_stop_idempotent(ledger: LedgerView, id: Seq<char>)
    ensures
        ledger.begin_stop(id).begin_stop(id) == ledger.begin_stop(id),
{
    assert(ledger.pending_ops.insert(id).insert(id) =~= ledger.pending_ops.insert(id));
    assert(ledger.user_initiated_stops.insert(id).insert(id)
        =~= ledger.user_initiated_stops.insert(id));
}

/// A stop's `die` event is expected whichever comes first, the event or the
/// command's completion.
///
/// After a stop or restart is issued for `id`, take the `die` event for
/// `id` and any completion, in either order: the event is not external,
/// both orders leave the same ledger, and in it the next `die` event for
/// `id` is external again.
pub proof fn lemma_die_and_completion_commute(
    ledger: LedgerView,
    id: Seq<char>,
    completion: Result<Seq<char>, Seq<char>>,
)
    ensures
        !ledger.begin_stop(id).die_is_external(id),
        !ledger.begin_stop(id).complete(completion).die_is_external(id),
        ledger.begin_stop(id).observe_die(id).complete(completion) == ledger.begin_stop(
            id,
        ).complete(completion).observe_die(id),
        ledger.begin_stop(id).observe_die(id).complete(completion).die_is_external(id),
{
}

/// One failure leaves nothing pending, however many commands were in
/// flight and whichever of them failed; the expected `die` events stay.
pub proof fn lemma_failure_clears_pending(ledger: LedgerView, message: Seq<char>)
    ensures
        ledger.complete(Err(message)).pending_ops == Set::<Seq<char>>::empty(),
        ledger.complete(Err(message)).user_initiated_stops == ledger.user_initiated_stops,
        forall|id: Seq<char>| !ledger.complete(Err(message)).pending_ops.contains(id),
{
}

/// A success ends the wait for the id it names and for no other.
pub proof fn lemma_success_clears_one(ledger: LedgerView, id: Seq<char>, other: Seq<char>)
    requires
        other != id,
    ensures
        !ledger.complete(Ok(id)).pending_ops.contains(id),
        ledger.complete(Ok(id)).pending_ops.contains(other) == ledger.pending_ops.contains(other),
        ledger.complete(Ok(id)).user_initiated_stops == ledger.user_initiated_stops,
{
}

} // verus!
