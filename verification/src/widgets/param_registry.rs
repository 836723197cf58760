//! The registry that gives every `(parameter, axis)` pair exactly one signal slot.
//!
//! Widgets ask for the signal that tracks a parameter's value on an axis; the registry creates a
//! slot on the first request and hands the same slot back on every later one. When the plugin
//! reports that parameters changed, the registry lists the slots to refresh: all of them, or the
//! ones registered for a single parameter. The signals themselves, which hold the parameter
//! values, live with the caller at the index the registry assigned.

use std::collections::HashMap;
use vstd::prelude::*;

verus! {

/// Which value of a parameter a signal tracks: the value after modulation, or the value that the
/// user or host set.
#[derive(Debug, Clone, Copy, PartialEq, Eq, Hash, Structural)]
pub enum ParamAxis {
    /// The value after monophonic modulation.
    Modulated,
    /// The value set by the user or the host.
    Unmodulated,
}

/// The outcome of asking the registry for a signal.
#[derive(Debug, Clone, Copy, PartialEq, Eq, Structural)]
pub enum SignalLookup {
    /// The pair was already registered; its signal lives at this slot.
    Existing(usize),
    /// The pair was registered just now; the caller creates its signal at this slot, initialised
    /// from the parameter's current value.
    Created(usize),
}

impl SignalLookup {
    pub open spec fn spec_slot(self) -> usize {
        match self {
            SignalLookup::Existing(s) => s,
            SignalLookup::Created(s) => s,
        }
    }

    /// The slot of the signal, whether it existed or was just created.
    pub fn slot(&self) -> (s: usize)
        ensures
            s == self.spec_slot(),
    {
        match self {
            SignalLookup::Existing(s) => *s,
            SignalLookup::Created(s) => *s,
        }
    }
}

/// A registered signal: the parameter and axis it tracks, and its slot.
#[derive(Debug, Clone, Copy, PartialEq, Eq, Structural)]
pub struct SignalRef {
    pub param: u64,
    pub axis: ParamAxis,
    pub slot: usize,
}

/// The number that stands for a `(parameter, axis)` pair in the slot map: twice the parameter,
/// plus one for the unmodulated axis.
pub open spec fn spec_pair_code(key: (u64, ParamAxis)) -> u128 {
    (key.0 as int * 2 + (if key.1 is Unmodulated {
        1int
    } else {
        0int
    })) as u128
}

/// Different pairs have different codes.
proof fn lemma_pair_code_injective(a: (u64, ParamAxis), b: (u64, ParamAxis))
    ensures
        spec_pair_code(a) == spec_pair_code(b) ==> a == b,
{
}

/// The code of a pair in the slot map.
fn pair_code(param: u64, axis: ParamAxis) -> (c: u128)
    ensures
        c == spec_pair_code((param, axis)),
{
    let bit: u128 = match axis {
        ParamAxis::Modulated => 0,
        ParamAxis::Unmodulated => 1,
    };
    param as u128 * 2 + bit
}

/// The lazily populated map from `(parameter, axis)` to signal slot. Slots are handed out in
/// order of first request, starting at zero.
pub struct ParamRegistry {
    /// The registered pairs, in slot order.
    keys: Vec<(u64, ParamAxis)>,
    /// The slot of each registered pair, by the pair's code.
    slots: HashMap<u128, usize>,
}

impl View for ParamRegistry {
    type V = Seq<(u64, ParamAxis)>;

    /// The registered pairs; the pair at index `i` owns slot `i`.
    closed spec fn view(&self) -> Seq<(u64, ParamAxis)> {
        self.keys@
    }
}

/// What a lookup of `key` answers on a registry holding `keys`.
pub open spec fn spec_lookup(keys: Seq<(u64, ParamAxis)>, key: (u64, ParamAxis)) -> SignalLookup {
    if keys.contains(key) {
        SignalLookup::Existing(keys.index_of(key) as usize)
    } else {
        SignalLookup::Created(keys.len() as usize)
    }
}

/// The registered pairs after a lookup of `key`.
pub open spec fn spec_register(keys: Seq<(u64, ParamAxis)>, key: (u64, ParamAxis)) -> Seq<
    (u64, ParamAxis),
> {
    if keys.contains(key) {
        keys
    } else {
        keys.push(key)
    }
}

/// Every registered signal, in slot order.
pub open spec fn spec_flush_all(keys: Seq<(u64, ParamAxis)>) -> Seq<SignalRef> {
    Seq::new(keys.len(), |i: int| SignalRef { param: keys[i].0, axis: keys[i].1, slot: i as usize })
}

/// The signal registered for `param` on `axis`, as a sequence of zero or one element.
pub open spec fn spec_registered_on(keys: Seq<(u64, ParamAxis)>, param: u64, axis: ParamAxis) -> Seq<
    SignalRef,
> {
    if keys.contains((param, axis)) {
        seq![SignalRef { param, axis, slot: keys.index_of((param, axis)) as usize }]
    } else {
        Seq::empty()
    }
}

/// The signals registered for `param`: the modulated one first, then the unmodulated one; axes
/// with no signal are skipped.
pub open spec fn spec_flush_one(keys: Seq<(u64, ParamAxis)>, param: u64) -> Seq<SignalRef> {
    spec_registered_on(keys, param, ParamAxis::Modulated) + spec_registered_on(
        keys,
        param,
        ParamAxis::Unmodulated,
    )
}

/// A second request for a pair finds the slot that the first request gave it: signals are created
/// once per pair and reused afterwards.
pub proof fn lemma_lookup_reuses_slot(keys: Seq<(u64, ParamAxis)>, key: (u64, ParamAxis))
    requires
        keys.no_duplicates(),
    ensures
        spec_lookup(spec_register(keys, key), key) == SignalLookup::Existing(
            spec_lookup(keys, key).spec_slot(),
        ),
        spec_register(spec_register(keys, key), key) == spec_register(keys, key),
{
    let after = spec_register(keys, key);
    if keys.contains(key) {
    } else {
        let n = keys.len() as int;
        assert(after[n] == key);
        assert(after.contains(key));
        let c = after.index_of(key);
        if c != n {
            assert(0 <= c < n);
            assert(keys[c] == key);
            assert(keys.contains(key));
        }
    }
}

/// Two different pairs never share a slot.
pub proof fn lemma_distinct_pairs_distinct_slots(
    keys: Seq<(u64, ParamAxis)>,
    a: (u64, ParamAxis),
    b: (u64, ParamAxis),
)
    requires
        keys.no_duplicates(),
        keys.len() <= usize::MAX,
        keys.contains(a),
        keys.contains(b),
        a != b,
    ensures
        spec_lookup(keys, a).spec_slot() != spec_lookup(keys, b).spec_slot(),
{
    let i = keys.index_of(a);
    let j = keys.index_of(b);
    assert(keys[i] == a && keys[j] == b);
}

/// Registering a pair leaves the slot of every pair registered before it unchanged.
pub proof fn lemma_register_keeps_slots(
    keys: Seq<(u64, ParamAxis)>,
    key: (u64, ParamAxis),
    other: (u64, ParamAxis),
)
    requires
        keys.no_duplicates(),
        keys.contains(other),
    ensures
        spec_lookup(spec_register(keys, key), other) == spec_lookup(keys, other),
{
    if !keys.contains(key) {
        let after = keys.push(key);
        let i = keys.index_of(other);
        assert(after[i] == other);
        assert(after.contains(other));
        let c = after.index_of(other);
        if c == keys.len() {
            assert(key == other);
        } else {
            assert(keys[c] == other);
            assert(keys[c] == keys[i]);
        }
    }
}

/// Registering keeps the registry free of duplicate pairs.
pub proof fn lemma_register_keeps_no_duplicates(keys: Seq<(u64, ParamAxis)>, key: (u64, ParamAxis))
    requires
        keys.no_duplicates(),
    ensures
        spec_register(keys, key).no_duplicates(),
{
    let after = spec_register(keys, key);
    if !keys.contains(key) {
        assert forall|i: int, j: int|
            0 <= i < after.len() && 0 <= j < after.len() && i != j implies after[i] != after[j] by {
            if i < keys.len() && j < keys.len() {
                assert(keys[i] != keys[j]);
            } else if i < keys.len() {
                assert(keys[i] != key);
            } else {
                assert(keys[j] != key);
            }
        }
    }
}

/// Refreshing one parameter refreshes exactly the signals that a full refresh lists for that
/// parameter.
pub proof fn lemma_flush_one_is_flush_all_for_param(keys: Seq<(u64, ParamAxis)>, param: u64)
    requires
        keys.no_duplicates(),
    ensures
        forall|r: SignalRef| #[trigger]
            spec_flush_one(keys, param).contains(r) <==> (spec_flush_all(keys).contains(r)
                && r.param == param),
{
    let one = spec_flush_one(keys, param);
    let all = spec_flush_all(keys);
    let m = spec_registered_on(keys, param, ParamAxis::Modulated);
    let u = spec_registered_on(keys, param, ParamAxis::Unmodulated);
    assert forall|r: SignalRef| #[trigger] one.contains(r) <==> (all.contains(r) && r.param == param) by {
        if one.contains(r) {
            let k = choose|k: int| 0 <= k < one.len() && one[k] == r;
            let axis = if k < m.len() { ParamAxis::Modulated } else { ParamAxis::Unmodulated };
            if k < m.len() {
                assert(one[k] == m[k]);
            } else {
                assert(one[k] == u[k - m.len()]);
            }
            assert(r.axis == axis && r.param == param);
            let i = keys.index_of((param, axis));
            assert(keys[i] == (param, axis));
            assert(all[i] == r);
        }
        if all.contains(r) && r.param == param {
            let i = choose|i: int| 0 <= i < all.len() && all[i] == r;
            let key = keys[i];
            assert(key == (param, r.axis));
            assert(keys.contains(key));
            let c = keys.index_of(key);
            assert(keys[c] == keys[i]);
            assert(c == i);
            if r.axis == ParamAxis::Modulated {
                assert(m[0] == r);
                assert(one[0] == r);
            } else {
                assert(u[0] == r);
                assert(one[m.len() as int] == r);
            }
        }
    }
}

/// Slots are handed out in order of first request: a pair not yet registered gets the slot
/// after the last one in use and is the last signal a full refresh lists; a registered pair is
/// found at the slot where a full refresh lists it. A full refresh lists every registered pair
/// exactly at its slot.
pub proof fn lemma_slots_follow_request_order(keys: Seq<(u64, ParamAxis)>, key: (u64, ParamAxis))
    requires
        keys.no_duplicates(),
        keys.len() < usize::MAX,
    ensures
        !keys.contains(key) ==> spec_lookup(keys, key) == SignalLookup::Created(keys.len() as usize)
            && spec_flush_all(spec_register(keys, key)).last() == (SignalRef {
                param: key.0,
                axis: key.1,
                slot: keys.len() as usize,
            }),
        spec_flush_all(keys).len() == keys.len(),
        forall|i: int|
            0 <= i < keys.len() ==> {
                let r = #[trigger] spec_flush_all(keys)[i];
                &&& r.slot == i
                &&& (r.param, r.axis) == keys[i]
                &&& spec_lookup(keys, (r.param, r.axis)) == SignalLookup::Existing(r.slot)
            },
{
    assert forall|i: int| 0 <= i < keys.len() implies {
        let r = #[trigger] spec_flush_all(keys)[i];
        &&& r.slot == i
        &&& (r.param, r.axis) == keys[i]
        &&& spec_lookup(keys, (r.param, r.axis)) == SignalLookup::Existing(r.slot)
    } by {
        let k = keys[i];
        assert(keys.contains(k));
        let c = keys.index_of(k);
        assert(keys[c] == keys[i]);
    }
}

impl ParamRegistry {
    /// No pair is registered twice, and the slot map sends each registered pair's code to the
    /// pair's index and nothing else anywhere.
    #[verifier::type_invariant]
    spec fn well_formed(self) -> bool {
        &&& self.keys@.no_duplicates()
        &&& forall|i: int|
            0 <= i < self.keys@.len() ==> {
                &&& self.slots@.contains_key(spec_pair_code(#[trigger] self.keys@[i]))
                &&& self.slots@[spec_pair_code(self.keys@[i])] == i
            }
        &&& forall|c: u128| #[trigger]
            self.slots@.contains_key(c) ==> {
                &&& self.slots@[c] < self.keys@.len()
                &&& spec_pair_code(self.keys@[self.slots@[c] as int]) == c
            }
    }

    /// Creates an empty registry.
    pub fn new() -> (r: Self)
        ensures
            r@ == Seq::<(u64, ParamAxis)>::empty(),
            r@.no_duplicates(),
    {
        ParamRegistry { keys: Vec::new(), slots: HashMap::new() }
    }

    /// The slot of `key`, if it is registered.
    fn find(&self, key: (u64, ParamAxis)) -> (r: Option<usize>)
        ensures
            r == (if self@.contains(key) {
                Some(self@.index_of(key) as usize)
            } else {
                None::<usize>
            }),
    {
        broadcast use vstd::std_specs::hash::group_hash_axioms;

        proof {
            use_type_invariant(self);
        }
        let code = pair_code(key.0, key.1);
        match self.slots.get(&code) {
            Some(slot) => {
                let slot = *slot;
                proof {
                    let k = self@[slot as int];
                    lemma_pair_code_injective(k, key);
                    assert(self@[slot as int] == key);
                    let c = self@.index_of(key);
                    assert(0 <= c < self@.len() && self@[c] == key);
                    assert(self@[c] == self@[slot as int]);
                }
                Some(slot)
            },
            None => {
                proof {
                    if self@.contains(key) {
                        let i = choose|i: int| 0 <= i < self@.len() && self@[i] == key;
                        assert(self.slots@.contains_key(spec_pair_code(self.keys@[i])));
                    }
                }
                None
            },
        }
    }

    /// Returns the slot of the signal tracking `param` on `axis`, registering the pair at the
    /// next free slot if this is its first request.
    pub fn signal(&mut self, param: u64, axis: ParamAxis) -> (r: SignalLookup)
        ensures
            r == spec_lookup(old(self)@, (param, axis)),
            final(self)@ == spec_register(old(self)@, (param, axis)),
            final(self)@.no_duplicates(),
    {
        broadcast use vstd::std_specs::hash::group_hash_axioms;

        proof {
            use_type_invariant(&*self);
        }
        match self.find((param, axis)) {
            Some(slot) => SignalLookup::Existing(slot),
            None => {
                let mut taken = ParamRegistry::new();
                std::mem::swap(self, &mut taken);
                proof {
                    use_type_invariant(&taken);
                }
                let ParamRegistry { mut keys, mut slots } = taken;
                let ghost old_keys = keys@;
                let ghost old_slots = slots@;
                let slot = keys.len();
                let code = pair_code(param, axis);
                keys.push((param, axis));
                slots.insert(code, slot);
                proof {
                    assert(!old_keys.contains((param, axis)));
                    assert(!old_slots.contains_key(code)) by {
                        if old_slots.contains_key(code) {
                            let j = old_slots[code] as int;
                            lemma_pair_code_injective(old_keys[j], (param, axis));
                            assert(old_keys[j] == (param, axis));
                        }
                    }
                    assert forall|i: int, j: int|
                        0 <= i < keys@.len() && 0 <= j < keys@.len() && i != j implies keys@[i]
                        != keys@[j] by {
                        if i < slot && j < slot {
                            assert(old_keys[i] != old_keys[j]);
                        } else if i < slot {
                            assert(old_keys[i] != (param, axis));
                        } else {
                            assert(old_keys[j] != (param, axis));
                        }
                    }
                    assert forall|i: int| 0 <= i < keys@.len() implies {
                        &&& slots@.contains_key(spec_pair_code(#[trigger] keys@[i]))
                        &&& slots@[spec_pair_code(keys@[i])] == i
                    } by {
                        if i < slot {
                            assert(keys@[i] == old_keys[i]);
                            assert(old_slots.contains_key(spec_pair_code(old_keys[i])));
                            lemma_pair_code_injective(old_keys[i], (param, axis));
                        }
                    }
                    assert forall|c: u128| #[trigger] slots@.contains_key(c) implies {
                        &&& slots@[c] < keys@.len()
                        &&& spec_pair_code(keys@[slots@[c] as int]) == c
                    } by {
                        if c != code {
                            assert(old_slots.contains_key(c));
                            assert(keys@[old_slots[c] as int] == old_keys[old_slots[c] as int]);
                        }
                    }
                }
                *self = ParamRegistry { keys, slots };
                SignalLookup::Created(slot)
            },
        }
    }

    /// The slot of the signal tracking `param`'s modulated value.
    pub fn modulated(&mut self, param: u64) -> (r: SignalLookup)
        ensures
            r == spec_lookup(old(self)@, (param, ParamAxis::Modulated)),
            final(self)@ == spec_register(old(self)@, (param, ParamAxis::Modulated)),
            final(self)@.no_duplicates(),
    {
        self.signal(param, ParamAxis::Modulated)
    }

    /// The slot of the signal tracking `param`'s unmodulated value.
    pub fn unmodulated(&mut self, param: u64) -> (r: SignalLookup)
        ensures
            r == spec_lookup(old(self)@, (param, ParamAxis::Unmodulated)),
            final(self)@ == spec_register(old(self)@, (param, ParamAxis::Unmodulated)),
            final(self)@.no_duplicates(),
    {
        self.signal(param, ParamAxis::Unmodulated)
    }

    /// Every registered signal, in slot order: the caller re-reads each parameter on its axis and
    /// writes the value into the signal at the slot.
    pub fn flush_all(&self) -> (r: Vec<SignalRef>)
        ensures
            r@ == spec_flush_all(self@),
            self@.no_duplicates(),
    {
        proof {
            use_type_invariant(self);
        }
        let n = self.keys.len();
        let mut out: Vec<SignalRef> = Vec::new();
        let mut i: usize = 0;
        while i < n
            invariant
                n == self.keys@.len(),
                i <= n,
                out@ == spec_flush_all(self@).take(i as int),
            decreases n - i,
        {
            let k = self.keys[i];
            out.push(SignalRef { param: k.0, axis: k.1, slot: i });
            assert(spec_flush_all(self@).take(i + 1) == spec_flush_all(self@).take(i as int).push(
                spec_flush_all(self@)[i as int],
            ));
            i = i + 1;
        }
        assert(spec_flush_all(self@).take(n as int) == spec_flush_all(self@));
        out
    }

    /// The signals registered for a single parameter, modulated axis first; axes with no
    /// registered signal are skipped.
    pub fn flush_one(&self, param: u64) -> (r: Vec<SignalRef>)
        ensures
            r@ == spec_flush_one(self@, param),
            self@.no_duplicates(),
    {
        proof {
            use_type_invariant(self);
        }
        let mut out: Vec<SignalRef> = Vec::new();
        if let Some(slot) = self.find((param, ParamAxis::Modulated)) {
            out.push(SignalRef { param, axis: ParamAxis::Modulated, slot });
        }
        assert(out@ == spec_registered_on(self@, param, ParamAxis::Modulated));
        let ghost first = out@;
        if let Some(slot) = self.find((param, ParamAxis::Unmodulated)) {
            out.push(SignalRef { param, axis: ParamAxis::Unmodulated, slot });
        }
        assert(out@ == first + spec_registered_on(self@, param, ParamAxis::Unmodulated));
        out
    }
}

impl Default for ParamRegistry {
    fn default() -> (r: Self)
        ensures
            r@ == Seq::<(u64, ParamAxis)>::empty(),
            r@.no_duplicates(),
    {
        Self::new()
    }
}

} // verus!
