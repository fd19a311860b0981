//! An ordered store keyed by 32-byte accounts.
use vstd::prelude::*;

use std::collections::BTreeMap;

use crate::common::{lemma_le_value_below_capacity, MinerAccountId};
use crate::scale::{byte_capacity, decode_u64, le_bytes, le_value, lemma_bytes_of_le_value};

verus! {

/// The four little-endian `u64` words of an account, by which the store
/// orders accounts.
pub open spec fn account_words(a: MinerAccountId) -> (u64, u64, u64, u64) {
    (
        le_value(a@.subrange(0, 8)) as u64,
        le_value(a@.subrange(8, 16)) as u64,
        le_value(a@.subrange(16, 24)) as u64,
        le_value(a@.subrange(24, 32)) as u64,
    )
}

proof fn lemma_word_determines_bytes(s: Seq<u8>, t: Seq<u8>)
    requires
        s.len() == 8,
        t.len() == 8,
        le_value(s) as u64 == le_value(t) as u64,
    ensures
        s == t,
{
    reveal_with_fuel(byte_capacity, 9);
    lemma_le_value_below_capacity(s);
    lemma_le_value_below_capacity(t);
    lemma_bytes_of_le_value(s);
    lemma_bytes_of_le_value(t);
}

/// Distinct accounts have distinct words.
pub proof fn lemma_account_words_injective(a: MinerAccountId, b: MinerAccountId)
    ensures
        account_words(a) == account_words(b) ==> a == b,
{
    if account_words(a) == account_words(b) {
        lemma_word_determines_bytes(a@.subrange(0, 8), b@.subrange(0, 8));
        lemma_word_determines_bytes(a@.subrange(8, 16), b@.subrange(8, 16));
        lemma_word_determines_bytes(a@.subrange(16, 24), b@.subrange(16, 24));
        lemma_word_determines_bytes(a@.subrange(24, 32), b@.subrange(24, 32));
        assert forall|i: int| 0 <= i < 32 implies a@[i] == b@[i] by {
            if i < 8 {
                assert(a@.subrange(0, 8)[i] == b@.subrange(0, 8)[i]);
            } else if i < 16 {
                assert(a@.subrange(8, 16)[i - 8] == b@.subrange(8, 16)[i - 8]);
            } else if i < 24 {
                assert(a@.subrange(16, 24)[i - 16] == b@.subrange(16, 24)[i - 16]);
            } else {
                assert(a@.subrange(24, 32)[i - 24] == b@.subrange(24, 32)[i - 24]);
            }
        }
        assert(a =~= b);
    }
}

/// The words of `a`, each read with the SCALE codec.
fn account_key(a: &MinerAccountId) -> (r: (u64, u64, u64, u64))
    ensures
        r == account_words(*a),
{
    let mut cursor: &[u8] = a.as_slice();
    assert(cursor@ == a@);
    let w0 = decode_u64(&mut cursor).unwrap();
    assert(a@.take(8) =~= a@.subrange(0, 8));
    assert(cursor@ =~= a@.subrange(8, 32));
    let w1 = decode_u64(&mut cursor).unwrap();
    assert(a@.subrange(8, 32).take(8) =~= a@.subrange(8, 16));
    assert(cursor@ =~= a@.subrange(16, 32));
    let w2 = decode_u64(&mut cursor).unwrap();
    assert(a@.subrange(16, 32).take(8) =~= a@.subrange(16, 24));
    assert(cursor@ =~= a@.subrange(24, 32));
    let w3 = decode_u64(&mut cursor).unwrap();
    assert(a@.subrange(24, 32).take(8) =~= a@.subrange(24, 32));
    (w0, w1, w2, w3)
}

/// A map from accounts to values, ordered by the accounts' words.
pub struct AccountMap<V> {
    entries: BTreeMap<(u64, u64, u64, u64), V>,
}

impl<V> View for AccountMap<V> {
    type V = Map<MinerAccountId, V>;

    closed spec fn view(&self) -> Map<MinerAccountId, V> {
        Map::new(
            |a: MinerAccountId| self.entries@.contains_key(account_words(a)),
            |a: MinerAccountId| self.entries@[account_words(a)],
        )
    }
}

impl<V> AccountMap<V> {
    /// An empty map.
    pub fn new() -> (r: AccountMap<V>)
        ensures
            r@ == Map::<MinerAccountId, V>::empty(),
    {
        let r = AccountMap { entries: BTreeMap::new() };
        assert(r@ =~= Map::<MinerAccountId, V>::empty());
        r
    }

    /// The value of `a`, if any.
    pub fn get(&self, a: &MinerAccountId) -> (r: Option<&V>)
        ensures
            match r {
                Some(v) => self@.contains_key(*a) && self@[*a] == *v,
                None => !self@.contains_key(*a),
            },
    {
        let k = account_key(a);
        self.entries.get(&k)
    }

    /// Sets the value of `a`.
    pub fn insert(&mut self, a: MinerAccountId, v: V)
        ensures
            final(self)@ == old(self)@.insert(a, v),
    {
        let k = account_key(&a);
        self.entries.insert(k, v);
        proof {
            assert forall|b: MinerAccountId| #[trigger] final(self)@.contains_key(b) == old(self)@.insert(a, v).contains_key(b)
                && (final(self)@.contains_key(b) ==> final(self)@[b] == old(self)@.insert(a, v)[b]) by {
                lemma_account_words_injective(a, b);
            }
            assert(final(self)@ =~= old(self)@.insert(a, v));
        }
    }

    /// Takes the value of `a` out, if any.
    pub fn remove(&mut self, a: &MinerAccountId) -> (r: Option<V>)
        ensures
            final(self)@ == old(self)@.remove(*a),
            match r {
                Some(v) => old(self)@.contains_key(*a) && old(self)@[*a] == v,
                None => !old(self)@.contains_key(*a),
            },
    {
        let k = account_key(a);
        let r = self.entries.remove(&k);
        proof {
            assert forall|b: MinerAccountId| #[trigger] final(self)@.contains_key(b) == old(self)@.remove(*a).contains_key(b)
                && (final(self)@.contains_key(b) ==> final(self)@[b] == old(self)@.remove(*a)[b]) by {
                lemma_account_words_injective(*a, b);
            }
            assert(final(self)@ =~= old(self)@.remove(*a));
        }
        r
    }
}

} // verus!
