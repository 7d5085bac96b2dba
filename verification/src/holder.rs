//! The authoritative keyed container for all characters, split into a
//! persistent partition (player, site-scoped) and a transient partition
//! (map-scoped), with all routing decided by the identity's shape.

use crate::chara::{Chara, CharaId};
use vstd::prelude::*;

verus! {

/// No two entries of `s` carry the same identity.
pub open spec fn keys_unique(s: Seq<(CharaId, Chara)>) -> bool {
    forall|i: int, j: int| 0 <= i < j < s.len() ==> s[i].0 != s[j].0
}

/// Some entry of `s` carries the identity `cid`.
pub open spec fn has_key(s: Seq<(CharaId, Chara)>, cid: CharaId) -> bool {
    exists|i: int| 0 <= i < s.len() && s[i].0 == cid
}

/// The finite map that an entry sequence denotes; later entries win.
pub open spec fn assoc_map(s: Seq<(CharaId, Chara)>) -> Map<CharaId, Chara>
    decreases s.len(),
{
    if s.len() == 0 {
        Map::empty()
    } else {
        assoc_map(s.drop_last()).insert(s.last().0, s.last().1)
    }
}

proof fn lemma_assoc_contains(s: Seq<(CharaId, Chara)>)
    ensures
        forall|cid: CharaId| #[trigger] assoc_map(s).contains_key(cid) <==> has_key(s, cid),
    decreases s.len(),
{
    if s.len() > 0 {
        lemma_assoc_contains(s.drop_last());
        assert forall|cid: CharaId| #[trigger] assoc_map(s).contains_key(cid) <==> has_key(
            s,
            cid,
        ) by {
            assert(assoc_map(s) == assoc_map(s.drop_last()).insert(s.last().0, s.last().1));
            if assoc_map(s).contains_key(cid) {
                if cid == s.last().0 {
                    assert(s[s.len() - 1].0 == cid);
                } else {
                    assert(assoc_map(s.drop_last()).contains_key(cid));
                    assert(has_key(s.drop_last(), cid));
                    let i = choose|i: int| 0 <= i < s.drop_last().len() && s.drop_last()[i].0
                        == cid;
                    assert(s.drop_last()[i] == s[i]);
                    assert(s[i].0 == cid);
                }
            }
            if has_key(s, cid) {
                let i = choose|i: int| 0 <= i < s.len() && s[i].0 == cid;
                if i < s.len() - 1 {
                    assert(s.drop_last()[i] == s[i]);
                    assert(s.drop_last()[i].0 == cid);
                    assert(assoc_map(s.drop_last()).contains_key(cid));
                } else {
                    assert(cid == s.last().0);
                }
                assert(assoc_map(s).contains_key(cid));
            }
        }
    }
}

proof fn lemma_assoc_index(s: Seq<(CharaId, Chara)>, i: int)
    requires
        keys_unique(s),
        0 <= i < s.len(),
    ensures
        assoc_map(s).contains_key(s[i].0),
        assoc_map(s)[s[i].0] == s[i].1,
    decreases s.len(),
{
    if i == s.len() - 1 {
    } else {
        assert(keys_unique(s.drop_last()));
        assert(s.drop_last()[i] == s[i]);
        lemma_assoc_index(s.drop_last(), i);
        assert(s[i].0 != s.last().0);
    }
}

proof fn lemma_assoc_push(s: Seq<(CharaId, Chara)>, cid: CharaId, c: Chara)
    ensures
        assoc_map(s.push((cid, c))) == assoc_map(s).insert(cid, c),
        keys_unique(s) && !has_key(s, cid) ==> keys_unique(s.push((cid, c))),
{
    assert(s.push((cid, c)).drop_last() =~= s);
    assert(s.push((cid, c)).last() == (cid, c));
    if keys_unique(s) && !has_key(s, cid) {
        assert forall|i: int, j: int|
            0 <= i < j < s.push((cid, c)).len() implies s.push((cid, c))[i].0 != s.push(
            (cid, c),
        )[j].0 by {
            if j < s.len() {
            } else {
                assert(s.push((cid, c))[i] == s[i]);
            }
        }
    }
}

proof fn lemma_assoc_update(s: Seq<(CharaId, Chara)>, i: int, c: Chara)
    requires
        keys_unique(s),
        0 <= i < s.len(),
    ensures
        keys_unique(s.update(i, (s[i].0, c))),
        assoc_map(s.update(i, (s[i].0, c))) == assoc_map(s).insert(s[i].0, c),
    decreases s.len(),
{
    let k = s[i].0;
    let t = s.update(i, (k, c));
    assert(keys_unique(t));
    if i == s.len() - 1 {
        assert(t.drop_last() =~= s.drop_last());
        assert(t.last() == (k, c));
        assert(assoc_map(s.drop_last()).insert(k, s[i].1).insert(k, c) =~= assoc_map(
            s.drop_last(),
        ).insert(k, c));
    } else {
        assert(keys_unique(s.drop_last()));
        assert(s.drop_last()[i] == s[i]);
        lemma_assoc_update(s.drop_last(), i, c);
        assert(t.drop_last() =~= s.drop_last().update(i, (k, c)));
        assert(t.last() == s.last());
        assert(k != s.last().0);
        assert(assoc_map(s.drop_last()).insert(k, c).insert(s.last().0, s.last().1) =~= assoc_map(
            s.drop_last(),
        ).insert(s.last().0, s.last().1).insert(k, c));
    }
}

proof fn lemma_assoc_remove_at(s: Seq<(CharaId, Chara)>, i: int)
    requires
        keys_unique(s),
        0 <= i < s.len(),
    ensures
        keys_unique(s.remove(i)),
        assoc_map(s.remove(i)) == assoc_map(s).remove(s[i].0),
    decreases s.len(),
{
    let k = s[i].0;
    let t = s.remove(i);
    assert forall|a: int, b: int| 0 <= a < b < t.len() implies t[a].0 != t[b].0 by {
        let a0 = if a < i {
            a
        } else {
            a + 1
        };
        let b0 = if b < i {
            b
        } else {
            b + 1
        };
        assert(t[a] == s[a0] && t[b] == s[b0]);
    }
    if i == s.len() - 1 {
        assert(t =~= s.drop_last());
        lemma_assoc_contains(s.drop_last());
        assert(!has_key(s.drop_last(), k)) by {
            if has_key(s.drop_last(), k) {
                let j = choose|j: int|
                    0 <= j < s.drop_last().len() && s.drop_last()[j].0 == k;
                assert(s[j].0 == s[i].0);
            }
        }
        assert(assoc_map(s.drop_last()).insert(k, s[i].1).remove(k) =~= assoc_map(s.drop_last()));
    } else {
        assert(keys_unique(s.drop_last()));
        assert(s.drop_last()[i] == s[i]);
        lemma_assoc_remove_at(s.drop_last(), i);
        assert(t.drop_last() =~= s.drop_last().remove(i));
        assert(t.last() == s.last());
        assert(k != s.last().0);
        assert(assoc_map(s.drop_last()).remove(k).insert(s.last().0, s.last().1) =~= assoc_map(
            s.drop_last(),
        ).insert(s.last().0, s.last().1).remove(k));
    }
}

proof fn lemma_assoc_remove_absent(s: Seq<(CharaId, Chara)>, cid: CharaId)
    requires
        !has_key(s, cid),
    ensures
        assoc_map(s).remove(cid) == assoc_map(s),
{
    lemma_assoc_contains(s);
    assert(assoc_map(s).remove(cid) =~= assoc_map(s));
}

/// One keyed partition of the store: a sequence of entries with pairwise
/// distinct identities, denoting a finite map.
#[derive(Clone, PartialEq, Debug)]
pub struct CharaTable {
    entries: Vec<(CharaId, Chara)>,
}

impl View for CharaTable {
    type V = Map<CharaId, Chara>;

    closed spec fn view(&self) -> Map<CharaId, Chara> {
        assoc_map(self.entries@)
    }
}

impl CharaTable {
    /// The entry sequence carries no identity twice.
    pub closed spec fn wf(self) -> bool {
        keys_unique(self.entries@)
    }

    /// An empty partition.
    pub fn new() -> (r: CharaTable)
        ensures
            r.wf(),
            r@ == Map::<CharaId, Chara>::empty(),
    {
        CharaTable { entries: Vec::new() }
    }

    fn index_of(&self, cid: CharaId) -> (r: Option<usize>)
        ensures
            match r {
                Some(i) => i < self.entries@.len() && self.entries@[i as int].0 == cid,
                None => !has_key(self.entries@, cid),
            },
    {
        let mut i: usize = 0;
        while i < self.entries.len()
            invariant
                i <= self.entries@.len(),
                forall|j: int| 0 <= j < i ==> self.entries@[j].0 != cid,
            decreases self.entries@.len() - i,
        {
            if self.entries[i].0 == cid {
                return Some(i);
            }
            i += 1;
        }
        None
    }

    /// Whether an entity is stored under `cid`.
    pub fn contains(&self, cid: CharaId) -> (r: bool)
        ensures
            r == self@.contains_key(cid),
    {
        proof {
            lemma_assoc_contains(self.entries@);
        }
        self.index_of(cid).is_some()
    }

    /// Stores `chara` under `cid`; an entity already stored under `cid` is
    /// overwritten.
    pub fn insert(&mut self, cid: CharaId, chara: Chara)
        requires
            old(self).wf(),
        ensures
            final(self).wf(),
            final(self)@ == old(self)@.insert(cid, chara),
    {
        let r = self.index_of(cid);
        match r {
            Some(i) => {
                proof {
                    lemma_assoc_update(self.entries@, i as int, chara);
                }
                self.entries[i] = (cid, chara);
            },
            None => {
                proof {
                    lemma_assoc_push(self.entries@, cid, chara);
                }
                self.entries.push((cid, chara));
            },
        }
    }

    /// The entity stored under `cid`.
    pub fn get(&self, cid: CharaId) -> (r: &Chara)
        requires
            self.wf(),
            self@.contains_key(cid),
        ensures
            *r == self@[cid],
    {
        proof {
            lemma_assoc_contains(self.entries@);
        }
        let r = self.index_of(cid);
        match r {
            Some(i) => {
                proof {
                    lemma_assoc_index(self.entries@, i as int);
                }
                &self.entries[i].1
            },
            None => vstd::pervasive::unreached(),
        }
    }

    /// Mutable access to the entity stored under `cid`.
    pub fn get_mut(&mut self, cid: CharaId) -> (r: &mut Chara)
        requires
            old(self).wf(),
            old(self)@.contains_key(cid),
        ensures
            *r == old(self)@[cid],
            final(self)@ == old(self)@.insert(cid, *final(r)),
            final(self).wf(),
    {
        proof {
            lemma_assoc_contains(self.entries@);
        }
        let r = self.index_of(cid);
        match r {
            Some(i) => {
                proof {
                    lemma_assoc_index(self.entries@, i as int);
                    assert forall|c: Chara|
                        keys_unique(self.entries@.update(i as int, (cid, c))) && assoc_map(
                            self.entries@.update(i as int, (cid, c)),
                        ) == assoc_map(self.entries@).insert(cid, c) by {
                        lemma_assoc_update(self.entries@, i as int, c);
                    }
                }
                let pair: &mut (CharaId, Chara) = &mut self.entries[i];
                &mut pair.1
            },
            None => vstd::pervasive::unreached(),
        }
    }

    /// Removes the entity stored under `cid`; removing an absent identity
    /// changes nothing.
    pub fn remove(&mut self, cid: CharaId)
        requires
            old(self).wf(),
        ensures
            final(self).wf(),
            final(self)@ == old(self)@.remove(cid),
    {
        let r = self.index_of(cid);
        match r {
            Some(i) => {
                proof {
                    lemma_assoc_remove_at(self.entries@, i as int);
                }
                self.entries.remove(i);
            },
            None => {
                proof {
                    lemma_assoc_remove_absent(self.entries@, cid);
                }
            },
        }
    }
}

/// The store for all characters, split into the persistent partition
/// (player and site-scoped identities) and the transient partition
/// (map-scoped identities, replaced wholesale on map change).
pub struct CharaHolder {
    c: CharaTable,
    on_map: CharaTable,
}

/// Every identity of `m` belongs to the transient, map-scoped partition.
pub open spec fn all_on_map(m: Map<CharaId, Chara>) -> bool {
    forall|cid: CharaId| #[trigger] m.contains_key(cid) ==> cid.spec_is_on_map()
}

/// No identity of `m` belongs to the transient, map-scoped partition.
pub open spec fn none_on_map(m: Map<CharaId, Chara>) -> bool {
    forall|cid: CharaId| #[trigger] m.contains_key(cid) ==> !cid.spec_is_on_map()
}

impl CharaHolder {
    /// The contents of the persistent partition.
    pub closed spec fn persistent(self) -> Map<CharaId, Chara> {
        self.c@
    }

    /// The contents of the transient, map-scoped partition.
    pub closed spec fn transient(self) -> Map<CharaId, Chara> {
        self.on_map@
    }

    /// The partition that `cid` is routed to, decided by its shape alone.
    pub open spec fn routed(self, cid: CharaId) -> Map<CharaId, Chara> {
        if cid.spec_is_on_map() {
            self.transient()
        } else {
            self.persistent()
        }
    }

    /// Both partitions are keyed soundly and are disjoint: an identity's
    /// shape decides the partition it can appear in.
    pub closed spec fn wf(self) -> bool {
        &&& self.c.wf()
        &&& self.on_map.wf()
        &&& none_on_map(self.c@)
        &&& all_on_map(self.on_map@)
    }

    /// An empty store.
    pub fn new() -> (r: CharaHolder)
        ensures
            r.wf(),
            r.persistent() == Map::<CharaId, Chara>::empty(),
            r.transient() == Map::<CharaId, Chara>::empty(),
    {
        CharaHolder { c: CharaTable::new(), on_map: CharaTable::new() }
    }

    /// Stores `chara` under `cid` in the partition that `cid`'s shape
    /// selects; an entity already stored under `cid` is overwritten.
    pub fn add(&mut self, cid: CharaId, chara: Chara)
        requires
            old(self).wf(),
        ensures
            final(self).wf(),
            cid.spec_is_on_map() ==> final(self).transient() == old(self).transient().insert(
                cid,
                chara,
            ) && final(self).persistent() == old(self).persistent(),
            !cid.spec_is_on_map() ==> final(self).persistent() == old(self).persistent().insert(
                cid,
                chara,
            ) && final(self).transient() == old(self).transient(),
    {
        if cid.is_on_map() {
            self.on_map.insert(cid, chara);
        } else {
            self.c.insert(cid, chara);
        }
    }

    /// Whether an entity is stored under `cid`.
    pub fn contains(&self, cid: CharaId) -> (r: bool)
        ensures
            r == self.routed(cid).contains_key(cid),
    {
        if cid.is_on_map() {
            self.on_map.contains(cid)
        } else {
            self.c.contains(cid)
        }
    }

    /// The entity stored under `cid`. An identity that is not stored may not
    /// be looked up: holding one is a logic defect elsewhere.
    pub fn get(&self, cid: CharaId) -> (r: &Chara)
        requires
            self.wf(),
            self.routed(cid).contains_key(cid),
        ensures
            *r == self.routed(cid)[cid],
    {
        if cid.is_on_map() {
            self.on_map.get(cid)
        } else {
            self.c.get(cid)
        }
    }

    /// Mutable access to the entity stored under `cid`; the identity keeps
    /// addressing the (now updated) entity.
    pub fn get_mut(&mut self, cid: CharaId) -> (r: &mut Chara)
        requires
            old(self).wf(),
            old(self).routed(cid).contains_key(cid),
        ensures
            *r == old(self).routed(cid)[cid],
            final(self).wf(),
            cid.spec_is_on_map() ==> final(self).transient() == old(self).transient().insert(
                cid,
                *final(r),
            ) && final(self).persistent() == old(self).persistent(),
            !cid.spec_is_on_map() ==> final(self).persistent() == old(self).persistent().insert(
                cid,
                *final(r),
            ) && final(self).transient() == old(self).transient(),
    {
        if cid.is_on_map() {
            self.on_map.get_mut(cid)
        } else {
            self.c.get_mut(cid)
        }
    }

    /// Removes the entity stored under `cid` from the routed partition;
    /// removing an absent identity is a silent no-op.
    pub fn remove_chara(&mut self, cid: CharaId)
        requires
            old(self).wf(),
        ensures
            final(self).wf(),
            cid.spec_is_on_map() ==> final(self).transient() == old(self).transient().remove(cid)
                && final(self).persistent() == old(self).persistent(),
            !cid.spec_is_on_map() ==> final(self).persistent() == old(self).persistent().remove(
                cid,
            ) && final(self).transient() == old(self).transient(),
    {
        if cid.is_on_map() {
            self.on_map.remove(cid);
        } else {
            self.c.remove(cid);
        }
    }

    /// Swaps the whole transient partition for `next` and hands the previous
    /// contents back to the caller, as one atomic step.
    pub fn replace_on_map_chara(&mut self, next: CharaTable) -> (prev: CharaTable)
        requires
            old(self).wf(),
            next.wf(),
            all_on_map(next@),
        ensures
            final(self).wf(),
            final(self).transient() == next@,
            final(self).persistent() == old(self).persistent(),
            prev.wf(),
            prev@ == old(self).transient(),
    {
        let mut next = next;
        core::mem::swap(&mut self.on_map, &mut next);
        next
    }
}

/// The partition invariant, as the store's `wf` guarantees it: a persistent
/// entry never carries a map-scoped identity, a transient entry always does,
/// so the two partitions can never share an identity.
pub proof fn lemma_partitions_disjoint(h: CharaHolder)
    requires
        h.wf(),
    ensures
        forall|cid: CharaId| #[trigger] h.persistent().contains_key(cid)
            ==> !cid.spec_is_on_map(),
        forall|cid: CharaId| #[trigger] h.transient().contains_key(cid) ==> cid.spec_is_on_map(),
        forall|cid: CharaId| !(#[trigger] h.persistent().contains_key(cid)
            && #[trigger] h.transient().contains_key(cid)),
{
}

/// Storing an entity and then looking its identity up yields exactly that
/// entity, out of the partition that the identity's shape selects: the
/// hypotheses are `add`'s contract, the conclusions feed `get`'s.
pub proof fn lemma_add_then_get(pre: CharaHolder, post: CharaHolder, cid: CharaId, c: Chara)
    requires
        cid.spec_is_on_map() ==> post.transient() == pre.transient().insert(cid, c)
            && post.persistent() == pre.persistent(),
        !cid.spec_is_on_map() ==> post.persistent() == pre.persistent().insert(cid, c)
            && post.transient() == pre.transient(),
    ensures
        post.routed(cid).contains_key(cid),
        post.routed(cid)[cid] == c,
        cid.spec_is_on_map() ==> post.routed(cid) == post.transient(),
        !cid.spec_is_on_map() ==> post.routed(cid) == post.persistent(),
{
}

/// After the transient partition is replaced, every previously transient
/// identity that the new contents do not carry is absent, and the returned
/// contents are exactly the old transient partition: the hypotheses are
/// `replace_on_map_chara`'s contract.
pub proof fn lemma_replace_clears_transient(
    pre: CharaHolder,
    post: CharaHolder,
    next: Map<CharaId, Chara>,
    prev: Map<CharaId, Chara>,
)
    requires
        post.transient() == next,
        post.persistent() == pre.persistent(),
        prev == pre.transient(),
    ensures
        prev == pre.transient(),
        forall|cid: CharaId| cid.spec_is_on_map() && !next.contains_key(cid) ==> !(
        #[trigger] post.routed(cid).contains_key(cid)),
{
}

} // verus!
