//! The backer ledger of one project: who funded it, and with how much.
//!
//! Backings are held as a list of records with pairwise-distinct backer
//! identities.  `spec_balance` is the ledger's meaning: the recorded amount
//! for an identity, or nothing when the identity never funded.

use vstd::prelude::*;
use vstd::pervasive::VecAdditionalExecFns;

verus! {

/// One backer's contribution record.
#[derive(Clone, Debug)]
pub struct Backing {
    pub backer: String,
    pub amount: u128,
}

/// The recorded amount for `who`, or `None` when no record exists.
pub open spec fn spec_balance(s: Seq<Backing>, who: Seq<char>) -> Option<u128>
    decreases s.len(),
{
    if s.len() == 0 {
        None
    } else if s.last().backer@ == who {
        Some(s.last().amount)
    } else {
        spec_balance(s.drop_last(), who)
    }
}

/// The recorded amount for `who`, with an absent record reading as zero.
pub open spec fn spec_balance_or_zero(s: Seq<Backing>, who: Seq<char>) -> u128 {
    match spec_balance(s, who) {
        Some(v) => v,
        None => 0,
    }
}

/// The sum of all recorded amounts.
pub open spec fn spec_total(s: Seq<Backing>) -> int
    decreases s.len(),
{
    if s.len() == 0 {
        0
    } else {
        spec_total(s.drop_last()) + s.last().amount
    }
}

/// No two records name the same backer.
pub open spec fn unique_backers(s: Seq<Backing>) -> bool {
    forall|i: int, j: int| 0 <= i < j < s.len() ==> s[i].backer@ != s[j].backer@
}

/// In a ledger with pairwise-distinct backers, the record at each index is
/// exactly what the ledger reads under that record's backer.
pub proof fn lemma_balance_at_index(s: Seq<Backing>, i: int)
    requires
        unique_backers(s),
        0 <= i < s.len(),
    ensures
        spec_balance(s, s[i].backer@) == Some(s[i].amount),
    decreases s.len(),
{
    if i == s.len() - 1 {
    } else {
        assert(s.drop_last()[i] == s[i]);
        lemma_balance_at_index(s.drop_last(), i);
    }
}

/// An identity with no record matches no index.
pub proof fn lemma_balance_none(s: Seq<Backing>, who: Seq<char>)
    requires
        spec_balance(s, who) is None,
    ensures
        forall|i: int| 0 <= i < s.len() ==> s[i].backer@ != who,
    decreases s.len(),
{
    if s.len() > 0 {
        lemma_balance_none(s.drop_last(), who);
        assert forall|i: int| 0 <= i < s.len() implies s[i].backer@ != who by {
            if i < s.len() - 1 {
                assert(s.drop_last()[i] == s[i]);
            }
        }
    }
}

/// Every recorded amount is at most the ledger's total.
pub proof fn lemma_balance_le_total(s: Seq<Backing>, who: Seq<char>)
    requires
        spec_balance(s, who) is Some,
    ensures
        spec_balance(s, who)->0 <= spec_total(s),
        spec_total(s) >= 0,
    decreases s.len(),
{
    lemma_total_nonneg(s);
    if s.len() > 0 {
        if s.last().backer@ == who {
            lemma_total_nonneg(s.drop_last());
        } else {
            lemma_balance_le_total(s.drop_last(), who);
        }
    }
}

/// The total of a ledger of unsigned amounts is never negative.
pub proof fn lemma_total_nonneg(s: Seq<Backing>)
    ensures
        spec_total(s) >= 0,
    decreases s.len(),
{
    if s.len() > 0 {
        lemma_total_nonneg(s.drop_last());
    }
}

/// Replacing the record at `i` with one for the same backer changes that
/// backer's balance, nobody else's, and moves the total by the difference.
proof fn lemma_balance_update(s: Seq<Backing>, i: int, e: Backing)
    requires
        unique_backers(s),
        0 <= i < s.len(),
        s[i].backer@ == e.backer@,
    ensures
        unique_backers(s.update(i, e)),
        spec_balance(s.update(i, e), e.backer@) == Some(e.amount),
        forall|w: Seq<char>|
            w != e.backer@ ==> spec_balance(s.update(i, e), w) == spec_balance(s, w),
        spec_total(s.update(i, e)) == spec_total(s) - s[i].amount + e.amount,
    decreases s.len(),
{
    let t = s.update(i, e);
    assert forall|a: int, b: int| 0 <= a < b < t.len() implies t[a].backer@ != t[b].backer@ by {
        assert(s[a].backer@ != s[b].backer@);
    }
    if i == s.len() - 1 {
        assert(t.last() == e);
        assert(t.drop_last() =~= s.drop_last());
        assert forall|w: Seq<char>|
            w != e.backer@ implies spec_balance(t, w) == spec_balance(s, w) by {
            assert(spec_balance(t, w) == spec_balance(s.drop_last(), w));
            assert(s.last().backer@ == e.backer@);
            assert(spec_balance(s, w) == spec_balance(s.drop_last(), w));
        }
    } else {
        assert(t.last() == s.last());
        assert(t.drop_last() =~= s.drop_last().update(i, e));
        assert(s.drop_last()[i] == s[i]);
        lemma_balance_update(s.drop_last(), i, e);
        assert(s.last().backer@ != s[i].backer@);
        assert(spec_balance(t, e.backer@) == spec_balance(t.drop_last(), e.backer@));
        assert(spec_balance(t.drop_last(), e.backer@) == Some(e.amount));
        assert forall|w: Seq<char>|
            w != e.backer@ implies spec_balance(t, w) == spec_balance(s, w) by {
            if s.last().backer@ == w {
                assert(spec_balance(t, w) == Some(t.last().amount));
                assert(spec_balance(s, w) == Some(s.last().amount));
            } else {
                assert(spec_balance(t, w) == spec_balance(t.drop_last(), w));
                assert(spec_balance(t.drop_last(), w) == spec_balance(s.drop_last(), w));
                assert(spec_balance(s, w) == spec_balance(s.drop_last(), w));
            }
        }
        assert(spec_total(t) == spec_total(t.drop_last()) + t.last().amount);
        assert(spec_total(s) == spec_total(s.drop_last()) + s.last().amount);
    }
}

/// The recorded amount for `who`, scanning as `spec_balance` reads.
pub fn balance_of(backings: &Vec<Backing>, who: &String) -> (r: Option<u128>)
    ensures
        r == spec_balance(backings@, who@),
{
    let mut i: usize = backings.len();
    assert(backings@.take(i as int) =~= backings@);
    while i > 0
        invariant
            i <= backings@.len(),
            spec_balance(backings@, who@) == spec_balance(backings@.take(i as int), who@),
        decreases i,
    {
        let pre = Ghost(backings@.take(i as int));
        assert(pre@.last() == backings@[i - 1]);
        if backings[i - 1].backer == *who {
            return Some(backings[i - 1].amount);
        }
        assert(pre@.drop_last() =~= backings@.take(i - 1));
        i = i - 1;
    }
    None
}

/// Writes `amount` as the recorded balance of `who`, replacing the existing
/// record or appending a fresh one.  Every other backer's balance is kept,
/// and the total moves by exactly the difference.
pub fn set_balance(backings: &mut Vec<Backing>, who: &String, amount: u128)
    requires
        unique_backers(old(backings)@),
    ensures
        unique_backers(final(backings)@),
        spec_balance(final(backings)@, who@) == Some(amount),
        forall|w: Seq<char>|
            w != who@ ==> spec_balance(final(backings)@, w) == spec_balance(old(backings)@, w),
        spec_total(final(backings)@) == spec_total(old(backings)@)
            - spec_balance_or_zero(old(backings)@, who@) + amount,
{
    let n = backings.len();
    let mut i: usize = n;
    assert(backings@.take(i as int) =~= backings@);
    while i > 0
        invariant
            backings@ == old(backings)@,
            i <= backings@.len(),
            spec_balance(backings@, who@) == spec_balance(backings@.take(i as int), who@),
            unique_backers(backings@),
        decreases i,
    {
        let pre = Ghost(backings@.take(i as int));
        assert(pre@.last() == backings@[i - 1]);
        if backings[i - 1].backer == *who {
            let e = Backing { backer: (*who).clone(), amount };
            proof {
                lemma_balance_at_index(backings@, i - 1);
                lemma_balance_update(backings@, i - 1, e);
            }
            backings.set(i - 1, e);
            return ;
        }
        assert(pre@.drop_last() =~= backings@.take(i - 1));
        i = i - 1;
    }
    assert(backings@.take(0).len() == 0);
    proof {
        lemma_balance_none(backings@, who@);
    }
    let ghost pre = backings@;
    backings.push(Backing { backer: (*who).clone(), amount });
    assert(backings@.last().backer@ == who@);
    assert(backings@.drop_last() =~= pre);
}

} // verus!
