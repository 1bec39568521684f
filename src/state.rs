//! Per-contract state (slot to value) and per-user containers (contract to
//! state root), each with a root that is a deterministic function of its map.
//!
//! Entries are kept sorted by key (slots numerically, contract identifiers by
//! their UTF-8 bytes), and the root is the digest of the concatenated entries
//! in that order; a map that was never written has the zero root.
use crate::hash::{self, append_bytes, bytes_less, bytes_lt, sha256, sha256_of, zero_hash, zero_hash_spec};
use crate::sorted::{asymmetric, entries_map, lemma_insert_at, lemma_lookup, lemma_replace_at, lemma_sorted_unique, sorted_by};
use crate::error::{PsyGuardError, PsyResult};
use crate::types::{ContractId, CstateDeltaProof, UserId};
use vstd::prelude::*;
use vstd::utf8::{encode_utf8, encode_utf8_decode_utf8};

verus! {

/// The little-endian bytes of the lowest `n` bytes of `x`.
pub open spec fn le_bytes_spec(x: nat, n: nat) -> Seq<u8>
    decreases n,
{
    if n == 0 {
        Seq::empty()
    } else {
        seq![(x % 256) as u8] + le_bytes_spec(x / 256, (n - 1) as nat)
    }
}

/// The eight little-endian bytes of `x`.
pub fn le_bytes(x: u64) -> (r: Vec<u8>)
    ensures
        r@ == le_bytes_spec(x as nat, 8),
{
    let mut r: Vec<u8> = Vec::new();
    let mut cur: u64 = x;
    let mut i: usize = 0;
    while i < 8
        invariant
            0 <= i <= 8,
            r@ + le_bytes_spec(cur as nat, (8 - i) as nat) == le_bytes_spec(x as nat, 8),
        decreases 8 - i,
    {
        let ghost before = r@;
        r.push((cur % 256) as u8);
        assert(le_bytes_spec(cur as nat, (8 - i) as nat) == seq![(cur % 256) as u8] + le_bytes_spec(
            (cur / 256) as nat,
            (8 - i - 1) as nat,
        ));
        assert(r@ + le_bytes_spec((cur / 256) as nat, (8 - i - 1) as nat) =~= before
            + le_bytes_spec(cur as nat, (8 - i) as nat));
        cur = cur / 256;
        i = i + 1;
    }
    assert(r@ =~= r@ + le_bytes_spec(cur as nat, 0));
    r
}

/// Slots are ordered numerically.
pub open spec fn slot_lt() -> spec_fn(u64, u64) -> bool {
    |a: u64, b: u64| a < b
}

/// Contract identifiers are ordered by their UTF-8 bytes.
pub open spec fn id_lt() -> spec_fn(Seq<char>, Seq<char>) -> bool {
    |a: Seq<char>, b: Seq<char>| bytes_lt(encode_utf8(a), encode_utf8(b))
}

pub proof fn lemma_id_lt_order()
    ensures
        asymmetric(id_lt()),
        forall|a: Seq<char>, b: Seq<char>| a != b ==> #[trigger] id_lt()(a, b) || #[trigger] id_lt()(b, a),
        forall|a: Seq<char>, b: Seq<char>, c: Seq<char>| #[trigger] id_lt()(a, b) && #[trigger] id_lt()(b, c) ==> id_lt()(a, c),
{
    assert forall|a: Seq<char>, b: Seq<char>| !(#[trigger] id_lt()(a, b) && #[trigger] id_lt()(b, a)) by {
        hash::lemma_bytes_lt_asymmetric(encode_utf8(a), encode_utf8(b));
    }
    assert forall|a: Seq<char>, b: Seq<char>| a != b implies #[trigger] id_lt()(a, b) || #[trigger] id_lt()(b, a) by {
        hash::lemma_bytes_lt_total(encode_utf8(a), encode_utf8(b));
        encode_utf8_decode_utf8(a);
        encode_utf8_decode_utf8(b);
    }
    assert forall|a: Seq<char>, b: Seq<char>, c: Seq<char>| #[trigger] id_lt()(a, b) && #[trigger] id_lt()(b, c) implies id_lt()(a, c) by {
        hash::lemma_bytes_lt_transitive(encode_utf8(a), encode_utf8(b), encode_utf8(c));
    }
}

/// The bytes hashed into a contract state root: each slot's eight
/// little-endian bytes followed by its value, in order.
pub open spec fn cstate_bytes(e: Seq<(u64, Seq<u8>)>) -> Seq<u8>
    decreases e.len(),
{
    if e.len() == 0 {
        Seq::empty()
    } else {
        cstate_bytes(e.drop_last()) + le_bytes_spec(e.last().0 as nat, 8) + e.last().1
    }
}

pub open spec fn cstate_root_of_entries(e: Seq<(u64, Seq<u8>)>) -> Seq<u8> {
    if e.len() == 0 {
        zero_hash_spec()
    } else {
        sha256_of(cstate_bytes(e))
    }
}

/// The root of a slot map: the digest over its entries sorted by slot.
pub open spec fn cstate_root_of(m: Map<u64, Seq<u8>>) -> Seq<u8> {
    cstate_root_of_entries(cstate_sorted_entries(m))
}

/// The entries of a slot map, sorted by slot.
pub open spec fn cstate_sorted_entries(m: Map<u64, Seq<u8>>) -> Seq<(u64, Seq<u8>)> {
    choose|e: Seq<(u64, Seq<u8>)>| sorted_by(e, slot_lt()) && entries_map(e) == m
}

/// The bytes hashed into a container root: each contract identifier's UTF-8
/// bytes followed by its state root, in order.
pub open spec fn ucon_bytes(e: Seq<(Seq<char>, Seq<u8>)>) -> Seq<u8>
    decreases e.len(),
{
    if e.len() == 0 {
        Seq::empty()
    } else {
        ucon_bytes(e.drop_last()) + encode_utf8(e.last().0) + e.last().1
    }
}

pub open spec fn ucon_root_of_entries(e: Seq<(Seq<char>, Seq<u8>)>) -> Seq<u8> {
    if e.len() == 0 {
        zero_hash_spec()
    } else {
        sha256_of(ucon_bytes(e))
    }
}

/// The root of a container map: the digest over its entries sorted by the
/// bytes of the contract identifiers.
pub open spec fn ucon_root_of(m: Map<Seq<char>, Seq<u8>>) -> Seq<u8> {
    ucon_root_of_entries(ucon_sorted_entries(m))
}

/// The entries of a container map, sorted by contract identifier bytes.
pub open spec fn ucon_sorted_entries(m: Map<Seq<char>, Seq<u8>>) -> Seq<(Seq<char>, Seq<u8>)> {
    choose|e: Seq<(Seq<char>, Seq<u8>)>| sorted_by(e, id_lt()) && entries_map(e) == m
}

/// A user's container: the state root of each contract the user touched.
pub struct Ucon {
    pub user_id: UserId,
    pub contract_states: Vec<(ContractId, hash::Hash)>,
    pub root: hash::Hash,
}

/// A contract's key-value state.
pub struct Cstate {
    pub contract_id: ContractId,
    pub slots: Vec<(u64, Vec<u8>)>,
    pub root: hash::Hash,
}

impl Ucon {
    pub open spec fn entries(&self) -> Seq<(Seq<char>, Seq<u8>)> {
        Seq::new(
            self.contract_states@.len(),
            |i: int| (self.contract_states@[i].0@, self.contract_states@[i].1@),
        )
    }

    /// The contract-to-root map.
    pub open spec fn view(&self) -> Map<Seq<char>, Seq<u8>> {
        entries_map(self.entries())
    }

    pub open spec fn wf(&self) -> bool {
        &&& sorted_by(self.entries(), id_lt())
        &&& self.root@ == ucon_root_of_entries(self.entries())
    }

    /// The root of a well-formed container depends on its map alone.
    pub proof fn lemma_root_of_map(&self)
        requires
            self.wf(),
        ensures
            self.root@ == ucon_root_of(self.view()),
    {
        lemma_id_lt_order();
        let m = self.view();
        let w = self.entries();
        assert(sorted_by(w, id_lt()) && entries_map(w) == m);
        assert(exists|x: Seq<(Seq<char>, Seq<u8>)>| sorted_by(x, id_lt()) && entries_map(x) == m);
        let e = ucon_sorted_entries(m);
        lemma_sorted_unique(e, w, id_lt());
    }

    /// An empty container with the zero root.
    pub fn new(user_id: UserId) -> (r: Ucon)
        ensures
            r.wf(),
            r.user_id == user_id,
            r.view() == Map::<Seq<char>, Seq<u8>>::empty(),
            r.root@ == zero_hash_spec(),
    {
        let r = Ucon { user_id, contract_states: Vec::new(), root: zero_hash() };
        assert(r.view() =~= Map::<Seq<char>, Seq<u8>>::empty());
        r
    }

    /// Records `new_root` as the state root of `contract_id` and recomputes
    /// the container root.
    pub fn update_contract_state(&mut self, contract_id: ContractId, new_root: hash::Hash)
        requires
            old(self).wf(),
        ensures
            final(self).wf(),
            final(self).user_id == old(self).user_id,
            final(self).view() == old(self).view().insert(contract_id@, new_root@),
            final(self).root@ == ucon_root_of(final(self).view()),
    {
        proof {
            lemma_id_lt_order();
        }
        let ghost e = self.entries();
        let mut p: usize = 0;
        while p < self.contract_states.len() && Self::id_less(&self.contract_states[p].0, &contract_id)
            invariant
                e == self.entries(),
                0 <= p <= e.len(),
                forall|i: int| 0 <= i < p ==> id_lt()(#[trigger] e[i].0, contract_id@),
            decreases e.len() - p,
        {
            p = p + 1;
        }
        if p < self.contract_states.len() && self.contract_states[p].0.0 == contract_id.0 {
            proof {
                lemma_replace_at(e, id_lt(), p as int, new_root@);
            }
            self.contract_states.set(p, (contract_id, new_root));
            assert(self.entries() =~= e.update(p as int, (e[p as int].0, new_root@)));
        } else {
            proof {
                if p < e.len() {
                    assert(e[p as int].0 != contract_id@);
                    assert(!id_lt()(e[p as int].0, contract_id@));
                    assert(id_lt()(contract_id@, e[p as int].0));
                }
                assert forall|j: int| p <= j < e.len() implies id_lt()(contract_id@, #[trigger] e[j].0) by {
                    if p < j {
                        assert(id_lt()(e[p as int].0, e[j].0));
                    }
                }
                lemma_insert_at(e, id_lt(), p as int, contract_id@, new_root@);
            }
            let ghost k = contract_id@;
            self.contract_states.insert(p, (contract_id, new_root));
            assert(self.entries() =~= e.insert(p as int, (k, new_root@)));
        }
        self.recompute_root();
        proof {
            self.lemma_root_of_map();
        }
    }

    /// A copy of the container with the same user, map and root.
    pub fn duplicate(&self) -> (r: Ucon)
        requires
            self.wf(),
        ensures
            r.wf(),
            r.user_id@ == self.user_id@,
            r.view() == self.view(),
            r.root == self.root,
    {
        let mut states: Vec<(ContractId, hash::Hash)> = Vec::new();
        let mut i: usize = 0;
        while i < self.contract_states.len()
            invariant
                0 <= i <= self.contract_states@.len(),
                states@.len() == i,
                forall|k: int| 0 <= k < i ==> (#[trigger] states@[k]).0@ == self.contract_states@[k].0@
                    && states@[k].1 == self.contract_states@[k].1,
            decreases self.contract_states@.len() - i,
        {
            states.push((self.contract_states[i].0.duplicate(), self.contract_states[i].1));
            i = i + 1;
        }
        let r = Ucon { user_id: self.user_id.duplicate(), contract_states: states, root: self.root };
        assert(r.entries() =~= self.entries());
        r
    }

    fn id_less(a: &ContractId, b: &ContractId) -> (r: bool)
        ensures
            r == id_lt()(a@, b@),
    {
        bytes_less(a.0.as_str().as_bytes(), b.0.as_str().as_bytes())
    }

    /// The recorded state root of `contract_id`, if any.
    pub fn get_contract_state(&self, contract_id: &ContractId) -> (r: Option<&hash::Hash>)
        requires
            self.wf(),
        ensures
            r matches Some(h) ==> self.view().contains_key(contract_id@) && h@ == self.view()[contract_id@],
            r is None ==> !self.view().contains_key(contract_id@),
    {
        let ghost e = self.entries();
        let mut i: usize = 0;
        while i < self.contract_states.len()
            invariant
                e == self.entries(),
                sorted_by(e, id_lt()),
                0 <= i <= e.len(),
                forall|j: int| 0 <= j < i ==> #[trigger] e[j].0 != contract_id@,
            decreases e.len() - i,
        {
            if self.contract_states[i].0.0 == contract_id.0 {
                proof {
                    lemma_id_lt_order();
                    lemma_lookup(e, id_lt(), i as int);
                }
                return Some(&self.contract_states[i].1);
            }
            i = i + 1;
        }
        None
    }

    fn recompute_root(&mut self)
        requires
            sorted_by(old(self).entries(), id_lt()),
        ensures
            final(self).wf(),
            final(self).user_id == old(self).user_id,
            final(self).contract_states == old(self).contract_states,
    {
        let ghost e = self.entries();
        let mut buf: Vec<u8> = Vec::new();
        let mut i: usize = 0;
        while i < self.contract_states.len()
            invariant
                e == self.entries(),
                0 <= i <= e.len(),
                buf@ == ucon_bytes(e.subrange(0, i as int)),
            decreases e.len() - i,
        {
            append_bytes(&mut buf, self.contract_states[i].0.0.as_str().as_bytes());
            append_bytes(&mut buf, &self.contract_states[i].1);
            assert(e.subrange(0, i + 1).drop_last() =~= e.subrange(0, i as int));
            i = i + 1;
        }
        assert(e.subrange(0, i as int) =~= e);
        if self.contract_states.len() == 0 {
            self.root = zero_hash();
        } else {
            self.root = sha256(buf.as_slice());
        }
    }
}

impl Cstate {
    pub open spec fn entries(&self) -> Seq<(u64, Seq<u8>)> {
        Seq::new(self.slots@.len(), |i: int| (self.slots@[i].0, self.slots@[i].1@))
    }

    /// The slot-to-value map.
    pub open spec fn view(&self) -> Map<u64, Seq<u8>> {
        entries_map(self.entries())
    }

    pub open spec fn wf(&self) -> bool {
        &&& sorted_by(self.entries(), slot_lt())
        &&& self.root@ == cstate_root_of_entries(self.entries())
    }

    /// The root of a well-formed state depends on its map alone.
    pub proof fn lemma_root_of_map(&self)
        requires
            self.wf(),
        ensures
            self.root@ == cstate_root_of(self.view()),
    {
        let m = self.view();
        let w = self.entries();
        assert(sorted_by(w, slot_lt()) && entries_map(w) == m);
        assert(exists|x: Seq<(u64, Seq<u8>)>| sorted_by(x, slot_lt()) && entries_map(x) == m);
        let e = cstate_sorted_entries(m);
        lemma_sorted_unique(e, w, slot_lt());
    }

    /// An empty state with the zero root.
    pub fn new(contract_id: ContractId) -> (r: Cstate)
        ensures
            r.wf(),
            r.contract_id == contract_id,
            r.view() == Map::<u64, Seq<u8>>::empty(),
            r.root@ == zero_hash_spec(),
    {
        let r = Cstate { contract_id, slots: Vec::new(), root: zero_hash() };
        assert(r.view() =~= Map::<u64, Seq<u8>>::empty());
        r
    }

    /// Writes `value` into `slot` and recomputes the root.
    pub fn write_slot(&mut self, slot: u64, value: Vec<u8>)
        requires
            old(self).wf(),
        ensures
            final(self).wf(),
            final(self).contract_id == old(self).contract_id,
            final(self).view() == old(self).view().insert(slot, value@),
            final(self).root@ == cstate_root_of(final(self).view()),
    {
        let ghost e = self.entries();
        let mut p: usize = 0;
        while p < self.slots.len() && self.slots[p].0 < slot
            invariant
                e == self.entries(),
                0 <= p <= e.len(),
                forall|i: int| 0 <= i < p ==> slot_lt()(#[trigger] e[i].0, slot),
            decreases e.len() - p,
        {
            p = p + 1;
        }
        let ghost v = value@;
        if p < self.slots.len() && self.slots[p].0 == slot {
            proof {
                lemma_replace_at(e, slot_lt(), p as int, v);
            }
            self.slots.set(p, (slot, value));
            assert(self.entries() =~= e.update(p as int, (e[p as int].0, v)));
        } else {
            proof {
                assert forall|j: int| p <= j < e.len() implies slot_lt()(slot, #[trigger] e[j].0) by {
                    assert(slot_lt()(e[p as int].0, e[j].0) || p == j);
                }
                lemma_insert_at(e, slot_lt(), p as int, slot, v);
            }
            self.slots.insert(p, (slot, value));
            assert(self.entries() =~= e.insert(p as int, (slot, v)));
        }
        self.recompute_root();
        proof {
            self.lemma_root_of_map();
        }
    }

    /// The value in `slot`, if it was ever written.
    pub fn read_slot(&self, slot: u64) -> (r: Option<&Vec<u8>>)
        requires
            self.wf(),
        ensures
            r matches Some(v) ==> self.view().contains_key(slot) && v@ == self.view()[slot],
            r is None ==> !self.view().contains_key(slot),
    {
        let ghost e = self.entries();
        let mut i: usize = 0;
        while i < self.slots.len()
            invariant
                e == self.entries(),
                sorted_by(e, slot_lt()),
                0 <= i <= e.len(),
                forall|j: int| 0 <= j < i ==> #[trigger] e[j].0 != slot,
            decreases e.len() - i,
        {
            if self.slots[i].0 == slot {
                proof {
                    lemma_lookup(e, slot_lt(), i as int);
                }
                return Some(&self.slots[i].1);
            }
            i = i + 1;
        }
        None
    }

    /// A delta proof from `old_root` to the current root, listing every slot
    /// with the digest of its value, in slot order.
    pub fn generate_delta_proof(&self, old_root: hash::Hash) -> (r: CstateDeltaProof)
        ensures
            r.old_root == old_root,
            r.new_root == self.root,
            r.merkle_path@.len() == 0,
            r.modified_leaves@.len() == self.slots@.len(),
            forall|i: int|
                0 <= i < self.slots@.len() ==> (#[trigger] r.modified_leaves@[i]).0
                    == self.slots@[i].0 && r.modified_leaves@[i].1@ == sha256_of(self.slots@[i].1@),
    {
        let mut leaves: Vec<(u64, hash::Hash)> = Vec::new();
        let mut i: usize = 0;
        while i < self.slots.len()
            invariant
                0 <= i <= self.slots@.len(),
                leaves@.len() == i,
                forall|k: int|
                    0 <= k < i ==> (#[trigger] leaves@[k]).0 == self.slots@[k].0 && leaves@[k].1@
                        == sha256_of(self.slots@[k].1@),
            decreases self.slots@.len() - i,
        {
            leaves.push((self.slots[i].0, sha256(self.slots[i].1.as_slice())));
            i = i + 1;
        }
        CstateDeltaProof {
            old_root,
            new_root: self.root,
            merkle_path: Vec::new(),
            modified_leaves: leaves,
        }
    }

    fn recompute_root(&mut self)
        requires
            sorted_by(old(self).entries(), slot_lt()),
        ensures
            final(self).wf(),
            final(self).contract_id == old(self).contract_id,
            final(self).slots == old(self).slots,
    {
        let ghost e = self.entries();
        let mut buf: Vec<u8> = Vec::new();
        let mut i: usize = 0;
        while i < self.slots.len()
            invariant
                e == self.entries(),
                0 <= i <= e.len(),
                buf@ == cstate_bytes(e.subrange(0, i as int)),
            decreases e.len() - i,
        {
            let lb = le_bytes(self.slots[i].0);
            append_bytes(&mut buf, lb.as_slice());
            append_bytes(&mut buf, self.slots[i].1.as_slice());
            assert(e.subrange(0, i + 1).drop_last() =~= e.subrange(0, i as int));
            i = i + 1;
        }
        assert(e.subrange(0, i as int) =~= e);
        if self.slots.len() == 0 {
            self.root = zero_hash();
        } else {
            self.root = sha256(buf.as_slice());
        }
    }
}

/// The first slot of the records a sender keeps of its own transfers.
pub const SENT_SLOT_BASE: u64 = 1000;

/// The first slot of the records a receiver keeps of the transfers it claimed.
pub const CLAIMED_SLOT_BASE: u64 = 2000;

/// A transfer between users, settled without a cross-user write: the sender
/// records it in its own state, and the receiver records it in its own when
/// it claims it.
#[derive(Debug, Clone)]
pub struct ParthTransfer {
    pub from: UserId,
    pub to: UserId,
    pub amount: u64,
    pub timestamp: u64,
}

impl ParthTransfer {
    /// The sender's side: writes `record` (the transfer's encoding) into slot
    /// `1000 + timestamp` of the sender's state. Fails with `InvalidInput`,
    /// leaving the state unchanged, when that slot is past `u64::MAX`.
    pub fn send(cstate: &mut Cstate, transfer: &ParthTransfer, record: Vec<u8>) -> (r: PsyResult<()>)
        requires
            old(cstate).wf(),
        ensures
            final(cstate).wf(),
            final(cstate).contract_id == old(cstate).contract_id,
            r is Ok <==> transfer.timestamp + SENT_SLOT_BASE <= u64::MAX,
            r is Ok ==> final(cstate).view() == old(cstate).view().insert(
                (transfer.timestamp + SENT_SLOT_BASE) as u64,
                record@,
            ),
            r matches Err(e) ==> e is InvalidInput && final(cstate).view() == old(cstate).view(),
    {
        Self::record_at(cstate, SENT_SLOT_BASE, transfer.timestamp, record)
    }

    /// The receiver's side: writes `record` into slot `2000 + timestamp` of
    /// the receiver's state. Fails with `InvalidInput`, leaving the state
    /// unchanged, when that slot is past `u64::MAX`.
    pub fn claim(cstate: &mut Cstate, transfer: &ParthTransfer, record: Vec<u8>) -> (r: PsyResult<()>)
        requires
            old(cstate).wf(),
        ensures
            final(cstate).wf(),
            final(cstate).contract_id == old(cstate).contract_id,
            r is Ok <==> transfer.timestamp + CLAIMED_SLOT_BASE <= u64::MAX,
            r is Ok ==> final(cstate).view() == old(cstate).view().insert(
                (transfer.timestamp + CLAIMED_SLOT_BASE) as u64,
                record@,
            ),
            r matches Err(e) ==> e is InvalidInput && final(cstate).view() == old(cstate).view(),
    {
        Self::record_at(cstate, CLAIMED_SLOT_BASE, transfer.timestamp, record)
    }

    fn record_at(cstate: &mut Cstate, base: u64, timestamp: u64, record: Vec<u8>) -> (r: PsyResult<()>)
        requires
            old(cstate).wf(),
        ensures
            final(cstate).wf(),
            final(cstate).contract_id == old(cstate).contract_id,
            r is Ok <==> timestamp + base <= u64::MAX,
            r is Ok ==> final(cstate).view() == old(cstate).view().insert((timestamp + base) as u64, record@),
            r matches Err(e) ==> e is InvalidInput && final(cstate).view() == old(cstate).view(),
    {
        match timestamp.checked_add(base) {
            Some(slot) => {
                cstate.write_slot(slot, record);
                Ok(())
            },
            None => Err(PsyGuardError::InvalidInput("transfer slot out of range".to_owned())),
        }
    }
}

/// Determinism of contract state roots: two well-formed contract states whose
/// slot maps agree have the same root, whatever sequence of writes built each.
pub proof fn lemma_cstate_root_determined(a: &Cstate, b: &Cstate)
    requires
        a.wf(),
        b.wf(),
        a.view() == b.view(),
    ensures
        a.root == b.root,
{
    a.lemma_root_of_map();
    b.lemma_root_of_map();
    assert(a.root =~= b.root);
}

/// Determinism of container roots: two well-formed containers whose
/// contract-to-root maps agree have the same root, whatever sequence of
/// updates built each.
pub proof fn lemma_ucon_root_determined(a: &Ucon, b: &Ucon)
    requires
        a.wf(),
        b.wf(),
        a.view() == b.view(),
    ensures
        a.root == b.root,
{
    a.lemma_root_of_map();
    b.lemma_root_of_map();
    assert(a.root =~= b.root);
}

} // verus!
