use vstd::prelude::*;

use crate::enum_set::EnumSet;
use crate::params::{UIActive, UIActiveValue};

verus! {

/// One buffer of the exchange: a coalescing batch plus its "has unread
/// content" flag.  The flag is raised when a publishing transaction opens and
/// travels with the batch, so that the consumer can tell a real publish from
/// the contents a fresh channel starts with.
#[derive(Clone, Debug)]
pub struct Slot {
    /// True from the moment a transaction opens until a poll reports it.
    pub fresh: bool,
    /// The coalesced updates of the transaction.
    pub batch: EnumSet,
}

#[verifier::external_type_specification]
#[verifier::external_body]
#[verifier::reject_recursive_types(T)]
pub struct ExInput<T: Send>(triple_buffer::Input<T>);

#[verifier::external_type_specification]
#[verifier::external_body]
#[verifier::reject_recursive_types(T)]
pub struct ExOutput<T: Send>(triple_buffer::Output<T>);

/// The flag of the batch this producer handle most recently handed to the
/// exchange; before any publish, of the value the channel was built with.
pub uninterp spec fn published_fresh(i: triple_buffer::Input<Slot>) -> bool;

/// The entries of the batch this producer handle most recently handed to the
/// exchange; before any publish, of the value the channel was built with.
pub uninterp spec fn published_entries(i: triple_buffer::Input<Slot>) -> Map<
    UIActive,
    UIActiveValue,
>;

/// The flag of the batch this consumer handle currently owns.
pub uninterp spec fn buffered_fresh(o: triple_buffer::Output<Slot>) -> bool;

/// The entries of the batch this consumer handle currently owns.
pub uninterp spec fn buffered_entries(o: triple_buffer::Output<Slot>) -> Map<
    UIActive,
    UIActiveValue,
>;

/// Relies on `triple_buffer::triple_buffer`: it starts all three buffers as
/// clones of `initial`, with no publish pending, so the consumer's buffer
/// holds `initial`'s contents and nothing has been published yet.
#[verifier::external_body]
fn tb_new(initial: &Slot) -> (r: (triple_buffer::Input<Slot>, triple_buffer::Output<Slot>))
    ensures
        published_fresh(r.0) == initial.fresh,
        published_entries(r.0) == initial.batch@,
        buffered_fresh(r.1) == initial.fresh,
        buffered_entries(r.1) == initial.batch@,
{
    triple_buffer::triple_buffer(initial)
}

/// Relies on `triple_buffer::Input::write`: it moves `value` into the
/// producer's buffer and publishes it, in a bounded number of steps and
/// without blocking on the consumer.
#[verifier::external_body]
fn tb_write(i: &mut triple_buffer::Input<Slot>, value: Slot)
    ensures
        published_fresh(*final(i)) == value.fresh,
        published_entries(*final(i)) == value.batch@,
{
    i.write(value);
}

/// Relies on `triple_buffer::Output::update`: it fetches a pending publish
/// into the consumer's buffer if there is one and says whether it did, in a
/// bounded number of steps and without blocking on the producer; when
/// nothing was pending the consumer's buffer is left untouched.
#[verifier::external_body]
fn tb_update(o: &mut triple_buffer::Output<Slot>) -> (fetched: bool)
    ensures
        !fetched ==> buffered_fresh(*final(o)) == buffered_fresh(*old(o)) && buffered_entries(
            *final(o),
        ) == buffered_entries(*old(o)),
{
    o.update()
}

/// Relies on `triple_buffer::Output::output_buffer`: shared access to the
/// consumer's own buffer, without touching the exchange.
#[verifier::external_body]
fn tb_output_buffer<'a>(o: &'a triple_buffer::Output<Slot>) -> (r: &'a Slot)
    ensures
        r.fresh == buffered_fresh(*o),
        r.batch@ == buffered_entries(*o),
{
    o.output_buffer()
}

/// The producer side of the channel: it owns one reusable slot in which a
/// transaction accumulates its coalesced updates, and the exchange's input
/// handle through which a finished slot is published.
pub struct SparseUpdateInput {
    input: triple_buffer::Input<Slot>,
    slot: Slot,
}

impl SparseUpdateInput {
    /// Well-formedness of the reusable slot's batch.
    pub closed spec fn wf(&self) -> bool {
        self.slot.batch.wf()
    }

    /// The entries staged in the producer's slot.
    pub closed spec fn staged(&self) -> Map<UIActive, UIActiveValue> {
        self.slot.batch@
    }

    /// The flag staged in the producer's slot.
    pub closed spec fn staged_fresh(&self) -> bool {
        self.slot.fresh
    }

    /// The entries of the most recently published batch.
    pub closed spec fn published(&self) -> Map<UIActive, UIActiveValue> {
        published_entries(self.input)
    }

    /// The flag of the most recently published batch.
    pub closed spec fn published_flag(&self) -> bool {
        published_fresh(self.input)
    }

    /// Open a publishing transaction: the reusable slot is cleared and its
    /// "has unread content" flag raised.  The flag goes up here, at open
    /// time, not at first insert, so a transaction that inserts nothing is
    /// still reported as changed to the consumer.
    pub fn input_buffer_publisher(self) -> (g: SparseUpdateInputPublishGuard)
        requires
            self.wf(),
        ensures
            g.wf(),
            g.staged() == Map::<UIActive, UIActiveValue>::empty(),
            g.staged_fresh() == true,
            g.published() == self.published(),
            g.published_flag() == self.published_flag(),
    {
        let SparseUpdateInput { input, mut slot } = self;
        slot.batch.clear();
        slot.fresh = true;
        SparseUpdateInputPublishGuard { owner: SparseUpdateInput { input, slot } }
    }
}

/// An open publishing transaction.  While it exists it alone can touch the
/// producer's slot; `insert` coalesces updates into the slot, and `publish`
/// closes the transaction, hands the batch to the exchange, and gives the
/// producer handle back.
pub struct SparseUpdateInputPublishGuard {
    owner: SparseUpdateInput,
}

impl SparseUpdateInputPublishGuard {
    /// Well-formedness of the slot's batch.
    pub closed spec fn wf(&self) -> bool {
        self.owner.wf()
    }

    /// The entries this transaction has accumulated so far.
    pub closed spec fn staged(&self) -> Map<UIActive, UIActiveValue> {
        self.owner.staged()
    }

    /// The slot's "has unread content" flag; raised at open.
    pub closed spec fn staged_fresh(&self) -> bool {
        self.owner.staged_fresh()
    }

    /// The entries of the most recently published batch.
    pub closed spec fn published(&self) -> Map<UIActive, UIActiveValue> {
        self.owner.published()
    }

    /// The flag of the most recently published batch.
    pub closed spec fn published_flag(&self) -> bool {
        self.owner.published_flag()
    }

    /// Coalesce `v` into the open batch under its tag, overwriting any prior
    /// update for that tag; tells whether one was overwritten.
    pub fn insert(&mut self, v: UIActiveValue) -> (replaced: bool)
        requires
            old(self).wf(),
        ensures
            final(self).wf(),
            final(self).staged() == old(self).staged().insert(v.tag(), v),
            replaced == old(self).staged().contains_key(v.tag()),
            final(self).staged_fresh() == old(self).staged_fresh(),
            final(self).published() == old(self).published(),
            final(self).published_flag() == old(self).published_flag(),
    {
        self.owner.slot.batch.insert(v)
    }

    /// Close the transaction: a copy of the slot goes to the exchange as the
    /// newest published batch, atomically superseding any batch published
    /// before, and the producer handle comes back with its slot intact for
    /// the next transaction.
    pub fn publish(self) -> (input: SparseUpdateInput)
        requires
            self.wf(),
        ensures
            input.wf(),
            input.published() == self.staged(),
            input.published_flag() == self.staged_fresh(),
            input.staged() == self.staged(),
            input.staged_fresh() == self.staged_fresh(),
    {
        let SparseUpdateInputPublishGuard { owner } = self;
        let SparseUpdateInput { mut input, slot } = owner;
        let copy = Slot { fresh: slot.fresh, batch: slot.batch.duplicate() };
        tb_write(&mut input, copy);
        SparseUpdateInput { input, slot }
    }
}

/// What a poll yields, decided from what the exchange reported: data if and
/// only if the exchange fetched a new publish and the fetched slot carries
/// the "has unread content" flag, and then exactly the fetched batch.  This
/// is the whole of the poll's decision; `try_read` only feeds it the fetch
/// outcome.
pub fn read_decision<'a>(fetched: bool, slot: &'a Slot) -> (r: Option<&'a EnumSet>)
    ensures
        r is Some <==> (fetched && slot.fresh),
        r matches Some(set) ==> set@ == slot.batch@,
{
    if fetched && slot.fresh {
        Some(&slot.batch)
    } else {
        None
    }
}

/// The consumer side of the channel: a non-blocking poll that yields the
/// latest batch only if it is new since the last poll.
pub struct SparseUpdateOutput {
    output: triple_buffer::Output<Slot>,
}

impl SparseUpdateOutput {
    /// The entries of the batch the consumer currently owns.
    pub closed spec fn buffered(&self) -> Map<UIActive, UIActiveValue> {
        buffered_entries(self.output)
    }

    /// The flag of the batch the consumer currently owns.
    pub closed spec fn buffered_flag(&self) -> bool {
        buffered_fresh(self.output)
    }

    /// Poll for a newly published batch, never blocking and never
    /// allocating: if one arrived since the last poll and carries the "has
    /// unread content" flag, borrow its entries; otherwise report no data,
    /// the expected steady state.
    ///
    /// The exchange's own pending-publish bookkeeping marks the fetched
    /// batch as read, so the next poll without an intervening publish
    /// reports no data.  The borrow must be dropped before the next poll;
    /// its memory is reused by a later publish cycle.  What is returned for
    /// each fetch outcome is pinned by `read_decision`, which this function
    /// only feeds.
    pub fn try_read(&mut self) -> (r: Option<&EnumSet>)
        ensures
            match r {
                Some(set) => final(self).buffered_flag() && set@ == final(self).buffered(),
                None => !final(self).buffered_flag() || (final(self).buffered() == old(
                    self,
                ).buffered() && final(self).buffered_flag() == old(self).buffered_flag()),
            },
    {
        let fetched = tb_update(&mut self.output);
        let slot = tb_output_buffer(&self.output);
        read_decision(fetched, slot)
    }
}

/// Build the channel for `UIActiveValue` updates: three empty batches, no
/// publish pending, and the producer and consumer handles that share them
/// for the life of the session.
pub fn ui_active_sparse_update_tripple_buffer() -> (r: (SparseUpdateInput, SparseUpdateOutput))
    ensures
        r.0.wf(),
        r.0.staged() == Map::<UIActive, UIActiveValue>::empty(),
        r.0.staged_fresh() == false,
        r.0.published() == Map::<UIActive, UIActiveValue>::empty(),
        r.0.published_flag() == false,
        r.1.buffered() == Map::<UIActive, UIActiveValue>::empty(),
        r.1.buffered_flag() == false,
{
    let slot = Slot { fresh: false, batch: EnumSet::new() };
    let (input, output) = tb_new(&slot);
    (SparseUpdateInput { input, slot }, SparseUpdateOutput { output })
}

} // verus!
