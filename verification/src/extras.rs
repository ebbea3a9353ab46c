//! `RawExtras`: an ordered map from names to lists of strings, holding the
//! details of a plugin or a port that have no field of their own.
use vstd::prelude::*;
use crate::text::{
    lemma_lex_le_antisymmetric, lemma_lex_le_reflexive, lemma_lex_le_total,
    lemma_lex_le_transitive, lemma_order_key_injective, order_key, string_le, strings_view,
    text_le,
};

verus! {

/// One name of a `RawExtras` and the strings under it.
pub struct ExtraEntry {
    pub key: String,
    pub values: Vec<String>,
}

/// The keys of the entries are in strictly increasing string order.
pub open spec fn keys_increasing(s: Seq<ExtraEntry>) -> bool {
    forall|i: int, j: int|
        #![trigger s[i], s[j]]
        0 <= i < j < s.len() ==> text_le(s[i].key@, s[j].key@) && s[i].key@ != s[j].key@
}

/// The map that a sequence of entries with distinct keys stands for.
pub open spec fn entries_view(s: Seq<ExtraEntry>) -> Map<Seq<char>, Seq<Seq<char>>> {
    Map::new(
        |k: Seq<char>| exists|i: int| 0 <= i < s.len() && #[trigger] s[i].key@ == k,
        |k: Seq<char>|
            strings_view(s[choose|i: int| 0 <= i < s.len() && #[trigger] s[i].key@ == k].values@),
    )
}

proof fn lemma_entries_view_at(s: Seq<ExtraEntry>, i: int)
    requires
        keys_increasing(s),
        0 <= i < s.len(),
    ensures
        entries_view(s).contains_key(s[i].key@),
        entries_view(s)[s[i].key@] == strings_view(s[i].values@),
{
    let k = s[i].key@;
    assert(s[i].key@ == k);
    assert(entries_view(s).contains_key(k));
    let j = choose|j: int| 0 <= j < s.len() && #[trigger] s[j].key@ == k;
    assert(0 <= j < s.len() && s[j].key@ == k);
    if j < i {
        assert(text_le(s[j].key@, s[i].key@) && s[j].key@ != s[i].key@);
    } else if j > i {
        assert(text_le(s[i].key@, s[j].key@) && s[i].key@ != s[j].key@);
    }
    assert(j == i);
    assert(entries_view(s)[k] == strings_view(s[j].values@));
}

/// An ordered map from names to lists of strings, as `BTreeMap<String,
/// Vec<String>>` holds it: each name at most once, names in string order.
pub struct RawExtras {
    entries: Vec<ExtraEntry>,
}

impl RawExtras {
    #[verifier::type_invariant]
    spec fn well_formed(self) -> bool {
        keys_increasing(self.entries@)
    }

    /// The names and their lists of strings.
    pub closed spec fn view(&self) -> Map<Seq<char>, Seq<Seq<char>>> {
        entries_view(self.entries@)
    }

    /// An empty map.
    pub fn new() -> (r: RawExtras)
        ensures
            r.view() == Map::<Seq<char>, Seq<Seq<char>>>::empty(),
    {
        let r = RawExtras { entries: Vec::new() };
        assert(r.view() =~= Map::<Seq<char>, Seq<Seq<char>>>::empty());
        r
    }

    /// The number of names.
    pub fn len(&self) -> (n: usize)
        ensures
            n == self.view().dom().len(),
    {
        proof {
            use_type_invariant(self);
            self.lemma_dom_len();
        }
        self.entries.len()
    }

    proof fn lemma_dom_len(&self)
        requires
            keys_increasing(self.entries@),
        ensures
            self.view().dom().len() == self.entries@.len(),
            self.view().dom().finite(),
    {
        let s = self.entries@;
        let keys = s.map_values(|e: ExtraEntry| e.key@);
        assert forall|i: int, j: int| 0 <= i < keys.len() && 0 <= j < keys.len() && i != j implies keys[i] != keys[j] by {
            if i < j {
                assert(text_le(s[i].key@, s[j].key@));
            } else {
                assert(text_le(s[j].key@, s[i].key@));
            }
        }
        keys.unique_seq_to_set();
        assert(self.view().dom() =~= keys.to_set()) by {
            assert forall|k: Seq<char>| self.view().dom().contains(k) implies keys.to_set().contains(k) by {
                let i = choose|i: int| 0 <= i < s.len() && #[trigger] s[i].key@ == k;
                assert(keys[i] == k);
            }
            assert forall|k: Seq<char>| keys.to_set().contains(k) implies self.view().dom().contains(k) by {
                let i = choose|i: int| 0 <= i < keys.len() && keys[i] == k;
                assert(s[i].key@ == k);
            }
        }
    }

    /// The entries, names in increasing string order.
    pub fn entries(&self) -> (r: &Vec<ExtraEntry>)
        ensures
            keys_increasing(r@),
            entries_view(r@) == self.view(),
    {
        proof {
            use_type_invariant(self);
        }
        &self.entries
    }

    /// The strings under `key`, if it is present.
    pub fn get(&self, key: &String) -> (r: Option<&Vec<String>>)
        ensures
            r is Some <==> self.view().contains_key(key@),
            r is Some ==> strings_view(r->0@) == self.view()[key@],
    {
        proof {
            use_type_invariant(self);
        }
        let mut i: usize = 0;
        while i < self.entries.len()
            invariant
                i <= self.entries@.len(),
                keys_increasing(self.entries@),
                forall|j: int| 0 <= j < i ==> self.entries@[j].key@ != key@,
            decreases self.entries@.len() - i,
        {
            if self.entries[i].key == *key {
                proof {
                    lemma_entries_view_at(self.entries@, i as int);
                }
                return Some(&self.entries[i].values);
            }
            i = i + 1;
        }
        None
    }

    /// Sets the strings under `key`, replacing what was there.
    pub fn insert(&mut self, key: String, values: Vec<String>)
        ensures
            final(self).view() == old(self).view().insert(key@, strings_view(values@)),
    {
        proof {
            use_type_invariant(&*self);
        }
        let mut entries: Vec<ExtraEntry> = Vec::new();
        core::mem::swap(&mut entries, &mut self.entries);
        let ghost s = entries@;
        let ghost old_view = entries_view(s);
        assert(old_view == old(self).view());
        let mut j: usize = 0;
        while j < entries.len() && !string_le(&key, &entries[j].key)
            invariant
                entries@ == s,
                j <= s.len(),
                forall|i: int| 0 <= i < j ==> !#[trigger] text_le(key@, s[i].key@),
            decreases s.len() - j,
        {
            j = j + 1;
        }
        let ghost kv = key@;
        let ghost vv = strings_view(values@);
        if j < entries.len() && entries[j].key == key {
            let entry = ExtraEntry { key, values };
            entries.set(j, entry);
            let ghost t = entries@;
            assert(t == s.update(j as int, entry));
            assert(keys_increasing(t)) by {
                assert forall|a: int, b: int| 0 <= a < b < t.len() implies #[trigger] text_le(t[a].key@, t[b].key@) && t[a].key@ != t[b].key@ by {
                    assert(text_le(s[a].key@, s[b].key@));
                }
            }
            assert(entries_view(t) =~= old_view.insert(kv, vv)) by {
                lemma_entries_view_at(t, j as int);
                assert forall|k: Seq<char>| #[trigger] entries_view(t).contains_key(k) <==> old_view.insert(kv, vv).contains_key(k) by {
                    if k != kv {
                        if entries_view(t).contains_key(k) {
                            let i = choose|i: int| 0 <= i < t.len() && #[trigger] t[i].key@ == k;
                            assert(s[i].key@ == k);
                        }
                        if old_view.contains_key(k) {
                            let i = choose|i: int| 0 <= i < s.len() && #[trigger] s[i].key@ == k;
                            assert(t[i].key@ == k);
                        }
                    }
                }
                assert forall|k: Seq<char>| #[trigger] entries_view(t).contains_key(k) && k != kv implies entries_view(t)[k] == old_view[k] by {
                    let i = choose|i: int| 0 <= i < t.len() && #[trigger] t[i].key@ == k;
                    lemma_entries_view_at(t, i);
                    lemma_entries_view_at(s, i);
                }
            }
            self.entries = entries;
        } else {
            let entry = ExtraEntry { key, values };
            entries.insert(j, entry);
            let ghost t = entries@;
            assert(t == s.insert(j as int, entry));
            assert forall|i: int| 0 <= i < j implies text_le(s[i].key@, kv) && s[i].key@ != kv by {
                assert(!text_le(kv, s[i].key@));
                lemma_lex_le_total(order_key(kv), order_key(s[i].key@));
                if s[i].key@ == kv {
                    lemma_lex_le_reflexive(order_key(kv));
                }
            }
            assert forall|i: int| j <= i < s.len() implies text_le(kv, s[i].key@) && s[i].key@ != kv by {
                if i > j {
                    assert(text_le(s[j as int].key@, s[i].key@));
                    lemma_lex_le_transitive(order_key(kv), order_key(s[j as int].key@), order_key(s[i].key@));
                    if s[i].key@ == kv {
                        lemma_lex_le_antisymmetric(order_key(kv), order_key(s[j as int].key@));
                        lemma_order_key_injective(kv, s[j as int].key@);
                    }
                }
            }
            assert(keys_increasing(t)) by {
                assert forall|a: int, b: int| 0 <= a < b < t.len() implies #[trigger] text_le(t[a].key@, t[b].key@) && t[a].key@ != t[b].key@ by {
                    if a < j && b < j {
                        assert(text_le(s[a].key@, s[b].key@));
                    } else if a < j && b == j {
                    } else if a < j && b > j {
                        assert(text_le(s[a].key@, kv));
                        assert(text_le(kv, s[b - 1].key@));
                        lemma_lex_le_transitive(order_key(s[a].key@), order_key(kv), order_key(s[b - 1].key@));
                        assert(text_le(s[a].key@, s[b - 1].key@));
                    } else if a == j {
                    } else {
                        assert(text_le(s[a - 1].key@, s[b - 1].key@));
                    }
                }
            }
            assert(entries_view(t) =~= old_view.insert(kv, vv)) by {
                lemma_entries_view_at(t, j as int);
                assert forall|k: Seq<char>| #[trigger] entries_view(t).contains_key(k) <==> old_view.insert(kv, vv).contains_key(k) by {
                    if k != kv {
                        if entries_view(t).contains_key(k) {
                            let i = choose|i: int| 0 <= i < t.len() && #[trigger] t[i].key@ == k;
                            if i < j {
                                assert(s[i].key@ == k);
                            } else {
                                assert(s[i - 1].key@ == k);
                            }
                        }
                        if old_view.contains_key(k) {
                            let i = choose|i: int| 0 <= i < s.len() && #[trigger] s[i].key@ == k;
                            if i < j {
                                assert(t[i].key@ == k);
                            } else {
                                assert(t[i + 1].key@ == k);
                            }
                        }
                    }
                }
                assert forall|k: Seq<char>| #[trigger] entries_view(t).contains_key(k) && k != kv implies entries_view(t)[k] == old_view[k] by {
                    let i = choose|i: int| 0 <= i < t.len() && #[trigger] t[i].key@ == k;
                    lemma_entries_view_at(t, i);
                    if i < j {
                        lemma_entries_view_at(s, i);
                    } else {
                        lemma_entries_view_at(s, i - 1);
                    }
                }
            }
            self.entries = entries;
        }
    }

    /// Drops every name whose list of strings is empty.
    pub fn retain_nonempty(&mut self)
        ensures
            forall|k: Seq<char>|
                #[trigger] final(self).view().contains_key(k) <==> old(self).view().contains_key(k)
                    && old(self).view()[k].len() > 0,
            forall|k: Seq<char>|
                #[trigger] final(self).view().contains_key(k) ==> final(self).view()[k] == old(
                    self,
                ).view()[k],
    {
        proof {
            use_type_invariant(&*self);
        }
        let mut rest: Vec<ExtraEntry> = Vec::new();
        core::mem::swap(&mut rest, &mut self.entries);
        let ghost s = rest@;
        let mut kept: Vec<ExtraEntry> = Vec::new();
        let ghost mut idx: Seq<int> = Seq::empty();
        let ghost mut consumed: int = 0;
        while rest.len() > 0
            invariant
                keys_increasing(s),
                0 <= consumed <= s.len(),
                rest@ == s.skip(consumed),
                idx.len() == kept@.len(),
                forall|a: int| 0 <= a < idx.len() ==> 0 <= #[trigger] idx[a] < consumed,
                forall|a: int, b: int| 0 <= a < b < idx.len() ==> #[trigger] idx[a] < #[trigger] idx[b],
                forall|a: int| 0 <= a < idx.len() ==> kept@[a] == s[#[trigger] idx[a]],
                forall|a: int| 0 <= a < idx.len() ==> kept@[a].values@.len() > 0,
                forall|i: int|
                    0 <= i < consumed && s[i].values@.len() > 0 ==> exists|a: int|
                        0 <= a < idx.len() && #[trigger] idx[a] == i,
            decreases rest@.len(),
        {
            let e = rest.remove(0);
            proof {
                assert(e == s[consumed]);
                assert(rest@ =~= s.skip(consumed + 1));
            }
            let ghost prev_idx = idx;
            if e.values.len() > 0 {
                proof {
                    idx = idx.push(consumed);
                }
                kept.push(e);
            }
            proof {
                assert forall|i: int|
                    0 <= i < consumed + 1 && s[i].values@.len() > 0 implies exists|a: int|
                        0 <= a < idx.len() && #[trigger] idx[a] == i by {
                    if i < consumed {
                        let a = choose|a: int| 0 <= a < prev_idx.len() && #[trigger] prev_idx[a] == i;
                        assert(idx[a] == i);
                    } else {
                        assert(idx[idx.len() - 1] == i);
                    }
                }
                consumed = consumed + 1;
            }
        }
        let ghost t = kept@;
        assert(keys_increasing(t)) by {
            assert forall|a: int, b: int| 0 <= a < b < t.len() implies #[trigger] text_le(t[a].key@, t[b].key@) && t[a].key@ != t[b].key@ by {
                assert(idx[a] < idx[b]);
                assert(text_le(s[idx[a]].key@, s[idx[b]].key@));
            }
        }
        proof {
            assert forall|k: Seq<char>| #[trigger] entries_view(t).contains_key(k) <==> entries_view(s).contains_key(k) && entries_view(s)[k].len() > 0 by {
                if entries_view(t).contains_key(k) {
                    let a = choose|a: int| 0 <= a < t.len() && #[trigger] t[a].key@ == k;
                    lemma_entries_view_at(s, idx[a]);
                    lemma_entries_view_at(t, a);
                }
                if entries_view(s).contains_key(k) && entries_view(s)[k].len() > 0 {
                    let i = choose|i: int| 0 <= i < s.len() && #[trigger] s[i].key@ == k;
                    lemma_entries_view_at(s, i);
                    let a = choose|a: int| 0 <= a < idx.len() && #[trigger] idx[a] == i;
                    assert(t[a].key@ == k);
                }
            }
            assert forall|k: Seq<char>| #[trigger] entries_view(t).contains_key(k) implies entries_view(t)[k] == entries_view(s)[k] by {
                let a = choose|a: int| 0 <= a < t.len() && #[trigger] t[a].key@ == k;
                lemma_entries_view_at(s, idx[a]);
                lemma_entries_view_at(t, a);
            }
        }
        self.entries = kept;
    }
}

} // verus!
