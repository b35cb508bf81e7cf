//! The factory's registry: the names of successfully created projects and
//! the addresses their creation acknowledgments bound them to.

use vstd::prelude::*;
use vstd::pervasive::VecAdditionalExecFns;

verus! {

/// One bound entry: a project name and the child address it resolved to.
#[derive(Clone, Debug)]
pub struct RegistryEntry {
    pub name: String,
    pub address: String,
}

/// The address bound under `name`, or `None` when the name is unbound.
pub open spec fn spec_address(s: Seq<RegistryEntry>, name: Seq<char>) -> Option<Seq<char>>
    decreases s.len(),
{
    if s.len() == 0 {
        None
    } else if s.last().name@ == name {
        Some(s.last().address@)
    } else {
        spec_address(s.drop_last(), name)
    }
}

/// No two entries carry the same name.
pub open spec fn unique_names(s: Seq<RegistryEntry>) -> bool {
    forall|i: int, j: int| 0 <= i < j < s.len() ==> s[i].name@ != s[j].name@
}

/// A name with no entry matches no index.
proof fn lemma_address_none(s: Seq<RegistryEntry>, name: Seq<char>)
    requires
        spec_address(s, name) is None,
    ensures
        forall|i: int| 0 <= i < s.len() ==> s[i].name@ != name,
    decreases s.len(),
{
    if s.len() > 0 {
        lemma_address_none(s.drop_last(), name);
        assert forall|i: int| 0 <= i < s.len() implies s[i].name@ != name by {
            if i < s.len() - 1 {
                assert(s.drop_last()[i] == s[i]);
            }
        }
    }
}

/// Replacing the entry at `i` with one for the same name rebinds that name,
/// no other.
proof fn lemma_address_update(s: Seq<RegistryEntry>, i: int, e: RegistryEntry)
    requires
        unique_names(s),
        0 <= i < s.len(),
        s[i].name@ == e.name@,
    ensures
        unique_names(s.update(i, e)),
        spec_address(s.update(i, e), e.name@) == Some(e.address@),
        forall|n: Seq<char>|
            n != e.name@ ==> spec_address(s.update(i, e), n) == spec_address(s, n),
    decreases s.len(),
{
    let t = s.update(i, e);
    assert forall|a: int, b: int| 0 <= a < b < t.len() implies t[a].name@ != t[b].name@ by {
        assert(s[a].name@ != s[b].name@);
    }
    if i == s.len() - 1 {
        assert(t.last() == e);
        assert(t.drop_last() =~= s.drop_last());
        assert forall|n: Seq<char>|
            n != e.name@ implies spec_address(t, n) == spec_address(s, n) by {
            assert(spec_address(t, n) == spec_address(s.drop_last(), n));
            assert(s.last().name@ == e.name@);
            assert(spec_address(s, n) == spec_address(s.drop_last(), n));
        }
    } else {
        assert(t.last() == s.last());
        assert(t.drop_last() =~= s.drop_last().update(i, e));
        assert(s.drop_last()[i] == s[i]);
        lemma_address_update(s.drop_last(), i, e);
        assert(s.last().name@ != s[i].name@);
        assert(spec_address(t, e.name@) == spec_address(t.drop_last(), e.name@));
        assert(spec_address(t.drop_last(), e.name@) == Some(e.address@));
        assert forall|n: Seq<char>|
            n != e.name@ implies spec_address(t, n) == spec_address(s, n) by {
            if s.last().name@ == n {
                assert(spec_address(t, n) == Some(t.last().address@));
                assert(spec_address(s, n) == Some(s.last().address@));
            } else {
                assert(spec_address(t, n) == spec_address(t.drop_last(), n));
                assert(spec_address(t.drop_last(), n) == spec_address(s.drop_last(), n));
                assert(spec_address(s, n) == spec_address(s.drop_last(), n));
            }
        }
    }
}

/// The address bound under `name`, cloned out of the registry.
pub fn address_of(entries: &Vec<RegistryEntry>, name: &String) -> (r: Option<String>)
    ensures
        r is Some <==> spec_address(entries@, name@) is Some,
        r is Some ==> r->0@ == spec_address(entries@, name@)->0,
{
    let mut i: usize = entries.len();
    assert(entries@.take(i as int) =~= entries@);
    while i > 0
        invariant
            i <= entries@.len(),
            spec_address(entries@, name@) == spec_address(entries@.take(i as int), name@),
        decreases i,
    {
        let pre = Ghost(entries@.take(i as int));
        assert(pre@.last() == entries@[i - 1]);
        if entries[i - 1].name == *name {
            return Some(entries[i - 1].address.clone());
        }
        assert(pre@.drop_last() =~= entries@.take(i - 1));
        i = i - 1;
    }
    None
}

/// Binds `address` under `name`, replacing the entry if the name was
/// already bound and appending a fresh one otherwise.
pub fn bind_address(entries: &mut Vec<RegistryEntry>, name: &String, address: String)
    requires
        unique_names(old(entries)@),
    ensures
        unique_names(final(entries)@),
        spec_address(final(entries)@, name@) == Some(address@),
        forall|n: Seq<char>|
            n != name@ ==> spec_address(final(entries)@, n) == spec_address(old(entries)@, n),
{
    let n = entries.len();
    let mut i: usize = n;
    assert(entries@.take(i as int) =~= entries@);
    while i > 0
        invariant
            entries@ == old(entries)@,
            i <= entries@.len(),
            spec_address(entries@, name@) == spec_address(entries@.take(i as int), name@),
            unique_names(entries@),
        decreases i,
    {
        let pre = Ghost(entries@.take(i as int));
        assert(pre@.last() == entries@[i - 1]);
        if entries[i - 1].name == *name {
            let e = RegistryEntry { name: (*name).clone(), address };
            proof {
                lemma_address_update(entries@, i - 1, e);
            }
            entries.set(i - 1, e);
            return ;
        }
        assert(pre@.drop_last() =~= entries@.take(i - 1));
        i = i - 1;
    }
    assert(entries@.take(0).len() == 0);
    proof {
        lemma_address_none(entries@, name@);
    }
    let ghost pre = entries@;
    entries.push(RegistryEntry { name: (*name).clone(), address });
    assert(entries@.last().name@ == name@);
    assert(entries@.drop_last() =~= pre);
}

} // verus!
