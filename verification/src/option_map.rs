use vstd::prelude::*;

use crate::code_option::{
    lemma_code_option_index_injective, CodeOption, CodeOptionDiscriminants, CodeOptionView,
    CODE_OPTION_COUNT,
};
use crate::compile_option::{
    lemma_compile_option_index_injective, CompileOption, CompileOptionDiscriminants,
    CompileOptionView, COMPILE_OPTION_COUNT,
};

verus! {

impl DeepView for CodeOption {
    type V = CodeOptionView;

    open spec fn deep_view(&self) -> CodeOptionView {
        self.view()
    }
}

impl DeepView for CompileOption {
    type V = CompileOptionView;

    open spec fn deep_view(&self) -> CompileOptionView {
        self.view()
    }
}

/// A set of code-generation options, at most one of each kind: inserting an
/// option displaces the one of its kind that was there.  One fixed slot per
/// kind, filled at construction and reused.
#[derive(Clone, Debug)]
pub struct OptionMap {
    slots: Vec<Option<CodeOption>>,
}

/// The command arguments of the option of kind `k`, if the map holds one.
pub open spec fn kind_args(
    m: Map<CodeOptionDiscriminants, CodeOptionView>,
    k: CodeOptionDiscriminants,
) -> Seq<Seq<char>> {
    if m.contains_key(k) {
        m[k].args()
    } else {
        Seq::empty()
    }
}

/// The command arguments of all options a map holds, kind by kind in slot
/// order.
pub open spec fn map_args(m: Map<CodeOptionDiscriminants, CodeOptionView>) -> Seq<Seq<char>> {
    kind_args(m, CodeOptionDiscriminants::StructName) + kind_args(
        m,
        CodeOptionDiscriminants::DoublePrecision,
    ) + kind_args(m, CodeOptionDiscriminants::Vectorize) + kind_args(
        m,
        CodeOptionDiscriminants::InPlace,
    )
}

impl OptionMap {
    /// The map from each kind to the option it currently holds.
    pub closed spec fn view(&self) -> Map<CodeOptionDiscriminants, CodeOptionView> {
        Map::new(
            |k: CodeOptionDiscriminants| self.slot_visible(k.index_spec()),
            |k: CodeOptionDiscriminants| self.slots@[k.index_spec()]->0@,
        )
    }

    /// Whether the slot at `i` holds an option of its own kind.
    spec fn slot_visible(self, i: int) -> bool {
        &&& self.slots.len() == CODE_OPTION_COUNT
        &&& self.slots@[i] is Some
        &&& self.slots@[i]->0@.tag().index_spec() == i
    }

    /// Well-formedness: constructors establish it, every method keeps it.
    pub closed spec fn wf(self) -> bool {
        &&& self.slots.len() == CODE_OPTION_COUNT
        &&& forall|i: int|
            0 <= i < self.slots@.len() && (#[trigger] self.slots@[i]) is Some
                ==> self.slots@[i]->0@.tag().index_spec() == i
    }

    /// An empty option set with all its storage in place.
    pub fn new() -> (s: Self)
        ensures
            s.wf(),
            s@ == Map::<CodeOptionDiscriminants, CodeOptionView>::empty(),
    {
        let mut slots: Vec<Option<CodeOption>> = Vec::new();
        slots.push(None);
        slots.push(None);
        slots.push(None);
        slots.push(None);
        let s = OptionMap { slots };
        proof {
            assert(s@ =~= Map::<CodeOptionDiscriminants, CodeOptionView>::empty());
        }
        s
    }

    /// Record `value` under its kind and hand back whatever option of that
    /// kind was there before.
    pub fn insert(&mut self, value: CodeOption) -> (prev: Option<CodeOption>)
        requires
            old(self).wf(),
        ensures
            final(self).wf(),
            final(self)@ == old(self)@.insert(value@.tag(), value@),
            match prev {
                Some(p) => old(self)@.contains_key(value@.tag()) && p@ == old(self)@[value@.tag()],
                None => !old(self)@.contains_key(value@.tag()),
            },
    {
        let ghost v = value@;
        let i = value.discriminant().index();
        let mut cell: Option<CodeOption> = Some(value);
        self.slots.set_and_swap(i, &mut cell);
        proof {
            assert forall|u: CodeOptionDiscriminants| #[trigger]
                self@.contains_key(u) == old(self)@.insert(v.tag(), v).contains_key(u) by {
                lemma_code_option_index_injective(u, v.tag());
            }
            assert forall|u: CodeOptionDiscriminants| self@.contains_key(u) implies self@[u] == old(
                self,
            )@.insert(v.tag(), v)[u] by {
                lemma_code_option_index_injective(u, v.tag());
            }
            assert(self@ =~= old(self)@.insert(v.tag(), v));
        }
        cell
    }

    /// The option of kind `key`, if one is held.
    pub fn get(&self, key: &CodeOptionDiscriminants) -> (r: Option<&CodeOption>)
        ensures
            match r {
                Some(v) => self@.contains_key(*key) && v@ == self@[*key] && v@.tag() == *key,
                None => !self@.contains_key(*key),
            },
    {
        if self.slots.len() != CODE_OPTION_COUNT {
            return None;
        }
        let i = key.index();
        match &self.slots[i] {
            Some(v) => {
                let k = v.discriminant();
                if k == *key {
                    Some(v)
                } else {
                    None
                }
            },
            None => None,
        }
    }

    /// Pour another option set into this one: its options land kind by
    /// kind, each displacing what this set held for that kind.
    pub fn extend(&mut self, other: OptionMap)
        requires
            old(self).wf(),
            other.wf(),
        ensures
            final(self).wf(),
            final(self)@ == old(self)@.union_prefer_right(other@),
    {
        let mut rest = other;
        let d = rest.slots.pop().unwrap();
        let c = rest.slots.pop().unwrap();
        let b = rest.slots.pop().unwrap();
        let a = rest.slots.pop().unwrap();
        if let Some(v) = a {
            self.slots.set(0, Some(v));
        }
        if let Some(v) = b {
            self.slots.set(1, Some(v));
        }
        if let Some(v) = c {
            self.slots.set(2, Some(v));
        }
        if let Some(v) = d {
            self.slots.set(3, Some(v));
        }
        proof {
            assert forall|u: CodeOptionDiscriminants| #[trigger]
                self@.contains_key(u) == old(self)@.union_prefer_right(other@).contains_key(u) by {
                assert(0 <= u.index_spec() < CODE_OPTION_COUNT);
            }
            assert forall|u: CodeOptionDiscriminants| self@.contains_key(u) implies self@[u] == old(
                self,
            )@.union_prefer_right(other@)[u] by {
                assert(0 <= u.index_spec() < CODE_OPTION_COUNT);
            }
            assert(self@ =~= old(self)@.union_prefer_right(other@));
        }
    }

    /// The command arguments of every option held, kind by kind.
    pub fn to_command_args(&self) -> (r: Vec<String>)
        requires
            self.wf(),
        ensures
            r.deep_view() == map_args(self@),
    {
        let mut r: Vec<String> = Vec::new();
        if let Some(v) = &self.slots[0] {
            let mut part = v.to_command_args();
            r.append(&mut part);
        }
        if let Some(v) = &self.slots[1] {
            let mut part = v.to_command_args();
            r.append(&mut part);
        }
        if let Some(v) = &self.slots[2] {
            let mut part = v.to_command_args();
            r.append(&mut part);
        }
        if let Some(v) = &self.slots[3] {
            let mut part = v.to_command_args();
            r.append(&mut part);
        }
        proof {
            assert(r.deep_view() =~~= map_args(self@));
        }
        r
    }

    /// The command arguments of this set overridden by `other_args`: where
    /// both hold an option of a kind, `other_args`'s wins.
    pub fn to_command_args_merge(&self, other_args: &OptionMap) -> (r: Vec<String>)
        requires
            self.wf(),
            other_args.wf(),
        ensures
            r.deep_view() == map_args(self@.union_prefer_right(other_args@)),
    {
        let mut r: Vec<String> = Vec::new();
        let keys: [CodeOptionDiscriminants; 4] = [
            CodeOptionDiscriminants::StructName,
            CodeOptionDiscriminants::DoublePrecision,
            CodeOptionDiscriminants::Vectorize,
            CodeOptionDiscriminants::InPlace,
        ];
        let mut i: usize = 0;
        while i < 4
            invariant
                i <= 4,
                self.wf(),
                other_args.wf(),
                keys@ == seq![
                    CodeOptionDiscriminants::StructName,
                    CodeOptionDiscriminants::DoublePrecision,
                    CodeOptionDiscriminants::Vectorize,
                    CodeOptionDiscriminants::InPlace,
                ],
                r.deep_view() == prefix_args(self@.union_prefer_right(other_args@), i as int),
            decreases 4 - i,
        {
            let key = keys[i];
            let picked: Option<&CodeOption> = match other_args.get(&key) {
                Some(v) => Some(v),
                None => self.get(&key),
            };
            if let Some(v) = picked {
                let mut part = v.to_command_args();
                r.append(&mut part);
            }
            proof {
                assert(r.deep_view() =~~= prefix_args(
                    self@.union_prefer_right(other_args@),
                    i + 1,
                ));
            }
            i = i + 1;
        }
        proof {
            assert(r.deep_view() =~~= map_args(self@.union_prefer_right(other_args@)));
        }
        r
    }
}

/// The command arguments of the first `n` kinds, in slot order.
spec fn prefix_args(m: Map<CodeOptionDiscriminants, CodeOptionView>, n: int) -> Seq<Seq<char>> {
    if n <= 0 {
        Seq::empty()
    } else if n == 1 {
        kind_args(m, CodeOptionDiscriminants::StructName)
    } else if n == 2 {
        kind_args(m, CodeOptionDiscriminants::StructName) + kind_args(
            m,
            CodeOptionDiscriminants::DoublePrecision,
        )
    } else if n == 3 {
        kind_args(m, CodeOptionDiscriminants::StructName) + kind_args(
            m,
            CodeOptionDiscriminants::DoublePrecision,
        ) + kind_args(m, CodeOptionDiscriminants::Vectorize)
    } else {
        map_args(m)
    }
}

/// A set of compile options, at most one of each kind, shaped like
/// `OptionMap`.
#[derive(Clone, Debug)]
pub struct CompileOptionMap {
    slots: Vec<Option<CompileOption>>,
}

impl CompileOptionMap {
    /// The map from each kind to the option it currently holds.
    pub closed spec fn view(&self) -> Map<CompileOptionDiscriminants, CompileOptionView> {
        Map::new(
            |k: CompileOptionDiscriminants| self.slot_visible(k.index_spec()),
            |k: CompileOptionDiscriminants| self.slots@[k.index_spec()]->0@,
        )
    }

    /// Whether the slot at `i` holds an option of its own kind.
    spec fn slot_visible(self, i: int) -> bool {
        &&& self.slots.len() == COMPILE_OPTION_COUNT
        &&& self.slots@[i] is Some
        &&& self.slots@[i]->0@.tag().index_spec() == i
    }

    /// Well-formedness: constructors establish it, every method keeps it.
    pub closed spec fn wf(self) -> bool {
        &&& self.slots.len() == COMPILE_OPTION_COUNT
        &&& forall|i: int|
            0 <= i < self.slots@.len() && (#[trigger] self.slots@[i]) is Some
                ==> self.slots@[i]->0@.tag().index_spec() == i
    }

    /// An empty option set with all its storage in place.
    pub fn new() -> (s: Self)
        ensures
            s.wf(),
            s@ == Map::<CompileOptionDiscriminants, CompileOptionView>::empty(),
    {
        let mut slots: Vec<Option<CompileOption>> = Vec::new();
        let mut i: usize = 0;
        while i < COMPILE_OPTION_COUNT
            invariant
                i <= COMPILE_OPTION_COUNT,
                slots.len() == i,
                forall|j: int| 0 <= j < i ==> slots@[j] is None,
            decreases COMPILE_OPTION_COUNT - i,
        {
            slots.push(None);
            i = i + 1;
        }
        let s = CompileOptionMap { slots };
        proof {
            assert(s@ =~= Map::<CompileOptionDiscriminants, CompileOptionView>::empty());
        }
        s
    }

    /// Record `value` under its kind and hand back whatever option of that
    /// kind was there before.
    pub fn insert(&mut self, value: CompileOption) -> (prev: Option<CompileOption>)
        requires
            old(self).wf(),
        ensures
            final(self).wf(),
            final(self)@ == old(self)@.insert(value@.tag(), value@),
            match prev {
                Some(p) => old(self)@.contains_key(value@.tag()) && p@ == old(self)@[value@.tag()],
                None => !old(self)@.contains_key(value@.tag()),
            },
    {
        let ghost v = value@;
        let i = value.discriminant().index();
        let mut cell: Option<CompileOption> = Some(value);
        self.slots.set_and_swap(i, &mut cell);
        proof {
            assert forall|u: CompileOptionDiscriminants| #[trigger]
                self@.contains_key(u) == old(self)@.insert(v.tag(), v).contains_key(u) by {
                lemma_compile_option_index_injective(u, v.tag());
            }
            assert forall|u: CompileOptionDiscriminants| self@.contains_key(u) implies self@[u]
                == old(self)@.insert(v.tag(), v)[u] by {
                lemma_compile_option_index_injective(u, v.tag());
            }
            assert(self@ =~= old(self)@.insert(v.tag(), v));
        }
        cell
    }

    /// The option of kind `key`, if one is held.
    pub fn get(&self, key: &CompileOptionDiscriminants) -> (r: Option<&CompileOption>)
        ensures
            match r {
                Some(v) => self@.contains_key(*key) && v@ == self@[*key] && v@.tag() == *key,
                None => !self@.contains_key(*key),
            },
    {
        if self.slots.len() != COMPILE_OPTION_COUNT {
            return None;
        }
        let i = key.index();
        match &self.slots[i] {
            Some(v) => {
                let k = v.discriminant();
                if k == *key {
                    Some(v)
                } else {
                    None
                }
            },
            None => None,
        }
    }
}

} // verus!
