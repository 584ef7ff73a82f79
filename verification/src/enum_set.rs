use vstd::prelude::*;

use crate::params::{UIActive, UIActiveValue, TAG_COUNT};

verus! {

/// A coalescing batch of parameter updates: for every control tag it keeps at
/// most one update, the most recently inserted one carrying that tag.
///
/// Storage is one fixed slot per tag, allocated once and then reused in
/// place: inserting and clearing never allocate, and `clear` releases
/// nothing, so the same memory serves transaction after transaction.
#[derive(Clone, Debug)]
pub struct EnumSet {
    slots: Vec<Option<UIActiveValue>>,
}

impl EnumSet {
    /// The batch as a map from tag to the update currently held for it.
    pub closed spec fn view(&self) -> Map<UIActive, UIActiveValue> {
        Map::new(
            |t: UIActive| self.slot_visible(t.index_spec()),
            |t: UIActive| self.slots@[t.index_spec()]->0,
        )
    }

    /// One slot per tag, each slot holding only an update of its own tag.
    spec fn shape(self) -> bool {
        &&& self.slots.len() == TAG_COUNT
        &&& forall|i: int|
            0 <= i < self.slots@.len() && (#[trigger] self.slots@[i]) is Some
                ==> self.slots@[i]->0.tag().index_spec() == i
    }

    /// Well-formedness: constructors establish it, every method keeps it.
    pub closed spec fn wf(self) -> bool {
        self.shape()
    }

    /// An empty batch, with all its storage already in place.
    pub fn new() -> (s: Self)
        ensures
            s.wf(),
            s@ == Map::<UIActive, UIActiveValue>::empty(),
    {
        let mut slots: Vec<Option<UIActiveValue>> = Vec::new();
        slots.push(None);
        slots.push(None);
        slots.push(None);
        let s = EnumSet { slots };
        proof {
            assert(s@ =~= Map::<UIActive, UIActiveValue>::empty());
        }
        s
    }

    /// Record `v` under its tag, overwriting whatever that tag held before;
    /// tells whether an existing entry was replaced.
    pub fn insert(&mut self, v: UIActiveValue) -> (replaced: bool)
        requires
            old(self).wf(),
        ensures
            final(self).wf(),
            final(self)@ == old(self)@.insert(v.tag(), v),
            replaced == old(self)@.contains_key(v.tag()),
    {
        let i = v.discriminant().index();
        let replaced = self.slots[i].is_some();
        self.slots[i] = Some(v);
        proof {
            assert forall|u: UIActive| #[trigger]
                self@.contains_key(u) == old(self)@.insert(v.tag(), v).contains_key(u) by {
                crate::params::lemma_tag_index_injective(u, v.tag());
            }
            assert forall|u: UIActive| self@.contains_key(u) implies self@[u] == old(self)@.insert(
                v.tag(),
                v,
            )[u] by {
                crate::params::lemma_tag_index_injective(u, v.tag());
            }
            assert(self@ =~= old(self)@.insert(v.tag(), v));
        }
        replaced
    }

    /// Empty the batch in place; its backing storage stays allocated.
    pub fn clear(&mut self)
        requires
            old(self).wf(),
        ensures
            final(self).wf(),
            final(self)@ == Map::<UIActive, UIActiveValue>::empty(),
    {
        self.slots[0] = None;
        self.slots[1] = None;
        self.slots[2] = None;
        proof {
            assert(self@ =~= Map::<UIActive, UIActiveValue>::empty());
        }
    }

    /// A fresh copy holding the same entries.
    pub(crate) fn duplicate(&self) -> (r: Self)
        requires
            self.wf(),
        ensures
            r.wf(),
            r@ == self@,
    {
        let mut slots: Vec<Option<UIActiveValue>> = Vec::new();
        slots.push(self.slots[0]);
        slots.push(self.slots[1]);
        slots.push(self.slots[2]);
        let r = EnumSet { slots };
        proof {
            assert(r@ =~= self@);
        }
        r
    }

    /// The entries of the batch, one per tag that holds one, in tag order.
    ///
    /// Iterating twice over an unmodified batch yields the same sequence.
    /// This asks nothing of its receiver, so it serves also for batches that
    /// came back through the exchange; it sizes its result for at most
    /// `TAG_COUNT` entries up front.
    pub fn iter(&self) -> (r: Vec<UIActiveValue>)
        ensures
            r@ == entries_seq(self@),
    {
        let mut r: Vec<UIActiveValue> = Vec::with_capacity(TAG_COUNT);
        if self.slots.len() != TAG_COUNT {
            proof {
                assert(r@ =~= entries_seq(self@));
            }
            return r;
        }
        let mut j: usize = 0;
        while j < TAG_COUNT
            invariant
                j <= TAG_COUNT,
                self.slots.len() == TAG_COUNT,
                r@ == self.entries_prefix(j as int),
            decreases TAG_COUNT - j,
        {
            if let Some(v) = self.slots[j] {
                let i = v.discriminant().index();
                if i == j {
                    r.push(v);
                }
            }
            j = j + 1;
        }
        proof {
            reveal_with_fuel(EnumSet::entries_prefix, 4);
            assert(r@ =~= entries_seq(self@));
        }
        r
    }

    /// Whether the slot at `j` holds an update that `iter` emits.
    fn visible(&self, j: usize) -> (b: bool)
        requires
            self.slots.len() == TAG_COUNT,
            j < TAG_COUNT,
        ensures
            b == self.slot_visible(j as int),
    {
        match &self.slots[j] {
            Some(v) => v.discriminant().index() == j,
            None => false,
        }
    }

    /// How many entries the batch holds: the length of the sequence `iter`
    /// would yield.  Allocates nothing.
    pub fn len(&self) -> (n: usize)
        ensures
            n == entries_seq(self@).len(),
    {
        if self.slots.len() != TAG_COUNT {
            return 0;
        }
        let mut n: usize = 0;
        if self.visible(0) {
            n = n + 1;
        }
        if self.visible(1) {
            n = n + 1;
        }
        if self.visible(2) {
            n = n + 1;
        }
        n
    }

    /// The entry at position `i` of the sequence `iter` would yield, or
    /// nothing past its end.  With `len`, this reads a whole batch without
    /// allocating, as a realtime consumer must.
    pub fn value_at(&self, i: usize) -> (r: Option<UIActiveValue>)
        ensures
            match r {
                Some(v) => i < entries_seq(self@).len() && v == entries_seq(self@)[i as int],
                None => i >= entries_seq(self@).len(),
            },
    {
        if self.slots.len() != TAG_COUNT {
            return None;
        }
        let mut remaining: usize = i;
        if let Some(v) = self.slots[0] {
            if v.discriminant().index() == 0 {
                if remaining == 0 {
                    return Some(v);
                }
                remaining = remaining - 1;
            }
        }
        if let Some(v) = self.slots[1] {
            if v.discriminant().index() == 1 {
                if remaining == 0 {
                    return Some(v);
                }
                remaining = remaining - 1;
            }
        }
        if let Some(v) = self.slots[2] {
            if v.discriminant().index() == 2 {
                if remaining == 0 {
                    return Some(v);
                }
                remaining = remaining - 1;
            }
        }
        None
    }

    /// Whether the slot at `i` holds an update that `iter` emits.
    spec fn slot_visible(self, i: int) -> bool {
        self.slots.len() == TAG_COUNT && self.slots@[i] is Some && self.slots@[i]->0.tag().index_spec() == i
    }

    /// What `iter` has gathered after looking at the first `j` slots.
    spec fn entries_prefix(self, j: int) -> Seq<UIActiveValue>
        decreases j,
    {
        if j <= 0 {
            Seq::empty()
        } else if self.slot_visible(j - 1) {
            self.entries_prefix(j - 1).push(self.slots@[j - 1]->0)
        } else {
            self.entries_prefix(j - 1)
        }
    }
}

impl Default for EnumSet {
    /// Same as `new`: an empty batch.
    fn default() -> (s: Self)
        ensures
            s.wf(),
            s@ == Map::<UIActive, UIActiveValue>::empty(),
    {
        EnumSet::new()
    }
}

/// The sequence `EnumSet::iter` hands out for a batch holding the entries of
/// `m`: the entry of each tag that has one, in tag order.
pub open spec fn entries_seq(m: Map<UIActive, UIActiveValue>) -> Seq<UIActiveValue> {
    (if m.contains_key(UIActive::Freq) {
        seq![m[UIActive::Freq]]
    } else {
        Seq::empty()
    }) + (if m.contains_key(UIActive::Gain) {
        seq![m[UIActive::Gain]]
    } else {
        Seq::empty()
    }) + (if m.contains_key(UIActive::Pan) {
        seq![m[UIActive::Pan]]
    } else {
        Seq::empty()
    })
}

/// In any batch, the entry held for a tag carries that very tag.
pub proof fn lemma_view_tags(s: EnumSet, t: UIActive)
    ensures
        s@.contains_key(t) ==> s@[t].tag() == t,
{
    if s@.contains_key(t) {
        crate::params::lemma_tag_index_injective(s@[t].tag(), t);
    }
}

/// Law: over a map whose entries carry their own keys — every batch, by
/// `lemma_view_tags` — the sequence `iter` yields holds exactly one entry
/// per held tag, namely that tag's entry, and none for an absent tag.
pub proof fn lemma_entries_seq_one_per_tag(m: Map<UIActive, UIActiveValue>, t: UIActive)
    requires
        forall|u: UIActive| #[trigger] m.contains_key(u) ==> m[u].tag() == u,
    ensures
        m.contains_key(t) ==> exists|j: int|
            0 <= j < entries_seq(m).len() && entries_seq(m)[j] == m[t],
        !m.contains_key(t) ==> forall|j: int|
            0 <= j < entries_seq(m).len() ==> entries_seq(m)[j].tag() != t,
        forall|j: int, k: int|
            0 <= j < k < entries_seq(m).len() ==> entries_seq(m)[j].tag() != entries_seq(m)[k].tag(),
{
    let s = entries_seq(m);
    if m.contains_key(t) {
        match t {
            UIActive::Freq => {
                assert(s[0] == m[UIActive::Freq]);
            },
            UIActive::Gain => {
                let j: int = if m.contains_key(UIActive::Freq) {
                    1
                } else {
                    0
                };
                assert(s[j] == m[UIActive::Gain]);
            },
            UIActive::Pan => {
                assert(s[s.len() - 1] == m[UIActive::Pan]);
            },
        }
    }
}

/// The map that a sequence of inserts coalesces to: each inserted value is
/// recorded under its tag, later inserts overwriting earlier ones.  This is
/// what a batch holds after the inserts of `s`, by `EnumSet::insert`'s
/// contract.
pub open spec fn coalesced(s: Seq<UIActiveValue>) -> Map<UIActive, UIActiveValue>
    decreases s.len(),
{
    if s.len() == 0 {
        Map::empty()
    } else {
        coalesced(s.drop_last()).insert(s.last().tag(), s.last())
    }
}

/// Law, first half: coalescing a sequence of inserts keeps exactly the tags
/// that were inserted at least once.
pub proof fn lemma_coalesced_dom(s: Seq<UIActiveValue>, t: UIActive)
    ensures
        coalesced(s).contains_key(t) <==> exists|i: int| 0 <= i < s.len() && s[i].tag() == t,
    decreases s.len(),
{
    if s.len() > 0 {
        lemma_coalesced_dom(s.drop_last(), t);
        if coalesced(s).contains_key(t) {
            if s.last().tag() == t {
                assert(s[s.len() - 1].tag() == t);
            } else {
                let i = choose|i: int| 0 <= i < s.drop_last().len() && s.drop_last()[i].tag() == t;
                assert(s[i].tag() == t);
            }
        } else {
            assert forall|i: int| 0 <= i < s.len() implies s[i].tag() != t by {
                if i < s.len() - 1 {
                    assert(s.drop_last()[i] == s[i]);
                }
            }
        }
    }
}

/// Law, second half: for a tag, coalescing keeps the value of its last
/// insert.  Together with `lemma_coalesced_dom` and the contracts of
/// `EnumSet::insert` and `EnumSet::iter`, this says that iterating a batch
/// after any insert sequence yields exactly one entry per distinct tag,
/// holding the value from that tag's last insert.
pub proof fn lemma_coalesced_last_write(s: Seq<UIActiveValue>, i: int)
    requires
        0 <= i < s.len(),
        forall|j: int| i < j < s.len() ==> s[j].tag() != s[i].tag(),
    ensures
        coalesced(s).contains_key(s[i].tag()),
        coalesced(s)[s[i].tag()] == s[i],
    decreases s.len(),
{
    if i == s.len() - 1 {
        assert(s[i] == s.last());
    } else {
        assert(s.last().tag() != s[i].tag());
        assert(s.drop_last()[i] == s[i]);
        assert forall|j: int| i < j < s.drop_last().len() implies s.drop_last()[j].tag()
            != s.drop_last()[i].tag() by {
            assert(s.drop_last()[j] == s[j]);
        }
        lemma_coalesced_last_write(s.drop_last(), i);
    }
}

} // verus!
