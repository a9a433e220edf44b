//! Small helpers: the wallet salt of a user id, explorer links and
//! transaction ids.

use vstd::prelude::*;
use rand::distributions::Alphanumeric;
use rand::Rng;
use std::collections::hash_map::DefaultHasher;
use std::hash::{Hash, Hasher};
use crate::text::str_eq;

verus! {

/// The 64-bit digest that `DefaultHasher::new()` gives for a string.
pub uninterp spec fn default_hash_of(s: Seq<char>) -> u64;

/// Hashes `s` with a `DefaultHasher` created by `DefaultHasher::new()`.
/// Claimed: the digest is a function of the string alone (such hashers
/// start from fixed keys, unlike those a `RandomState` seeds).
#[verifier::external_body]
pub fn get_hash(s: String) -> (res: u64)
    ensures
        res == default_hash_of(s@),
{
    let mut hasher = DefaultHasher::new();
    s.hash(&mut hasher);
    hasher.finish()
}

/// The link to a transaction in the chain's explorer: the explorer's base
/// URL followed by the transaction hash.
pub fn get_explorer_url(explorer_url: &str, txn_hash: &str) -> (res: String)
    ensures
        res@ == explorer_url@ + txn_hash@,
{
    String::from_str(explorer_url).concat(txn_hash)
}

/// One of `0-9`, `A-Z`, `a-z`.
pub open spec fn is_alphanumeric(c: char) -> bool {
    ('0' <= c && c <= '9') || ('A' <= c && c <= 'Z') || ('a' <= c && c <= 'z')
}

/// Draws one character from `rand`'s `Alphanumeric` distribution with
/// the thread's generator, as a string. Claimed: one character, a letter
/// or a digit; which one is left to chance.
#[verifier::external_body]
fn random_alphanumeric() -> (res: String)
    ensures
        res@.len() == 1,
        is_alphanumeric(res@[0]),
{
    char::from(rand::thread_rng().sample(Alphanumeric)).to_string()
}

/// The number of random characters in a transaction id.
pub const TXN_ID_RANDOM_CHARS: usize = 6;

/// `id` is a transaction id made with `prefix`: the prefix, `_`, then six
/// letters or digits.
pub open spec fn is_txn_id(prefix: Seq<char>, id: Seq<char>) -> bool {
    &&& id.len() == prefix.len() + 1 + TXN_ID_RANDOM_CHARS
    &&& id.subrange(0, prefix.len() as int) == prefix
    &&& id[prefix.len() as int] == '_'
    &&& forall|i: int| prefix.len() + 1 <= i < id.len() ==> is_alphanumeric(#[trigger] id[i])
}

/// A fresh transaction id: the prefix, `_`, and six random letters or
/// digits.
pub fn generate_txn_id(prefix: &str) -> (res: String)
    ensures
        is_txn_id(prefix@, res@),
{
    let mut res = String::from_str(prefix).concat("_");
    proof {
        reveal_strlit("_");
    }
    let ghost p = prefix@;
    let mut k: usize = 0;
    while k < TXN_ID_RANDOM_CHARS
        invariant
            k <= TXN_ID_RANDOM_CHARS,
            res@.len() == p.len() + 1 + k,
            res@.subrange(0, p.len() as int) == p,
            res@[p.len() as int] == '_',
            forall|i: int| p.len() + 1 <= i < res@.len() ==> is_alphanumeric(#[trigger] res@[i]),
        decreases TXN_ID_RANDOM_CHARS - k,
    {
        let c = random_alphanumeric();
        let ghost before = res@;
        res = res.concat(c.as_str());
        proof {
            assert(res@ == before + c@);
            assert(res@.subrange(0, p.len() as int) =~= before.subrange(0, p.len() as int));
            assert(res@[p.len() as int] == before[p.len() as int]);
            assert forall|i: int| p.len() + 1 <= i < res@.len() implies is_alphanumeric(#[trigger] res@[i]) by {
                if i < before.len() {
                    assert(res@[i] == before[i]);
                } else {
                    assert(res@[i] == c@[0]);
                }
            }
        }
        k = k + 1;
    }
    res
}

/// Whether `user` is not among the administrators.
pub fn is_not_admin(admins: &Vec<String>, user: &str) -> (res: bool)
    ensures
        res == !(exists|i: int| 0 <= i < admins@.len() && #[trigger] admins@[i]@ == user@),
{
    let n = admins.len();
    let mut i: usize = 0;
    while i < n
        invariant
            n == admins@.len(),
            i <= n,
            forall|j: int| 0 <= j < i ==> #[trigger] admins@[j]@ != user@,
        decreases n - i,
    {
        if str_eq(admins[i].as_str(), user) {
            return false;
        }
        i = i + 1;
    }
    true
}

} // verus!
