use vstd::prelude::*;
use vstd::string::StrSliceExecFns;

verus! {

/// The namespace that identifiers of the game itself carry.
pub open spec fn spec_namespace() -> Seq<char> {
    seq!['m', 'i', 'n', 'e', 'c', 'r', 'a', 'f', 't', ':']
}

/// `s` without a leading `minecraft:`, or `s` itself when it has none.
pub open spec fn strip_namespace_spec(s: Seq<char>) -> Seq<char> {
    if s.len() >= 10 && s.subrange(0, 10) == spec_namespace() {
        s.subrange(10, s.len() as int)
    } else {
        s
    }
}

/// Whether two strings hold the same characters.
pub fn str_equal(a: &str, b: &str) -> (r: bool)
    ensures
        r == (a@ == b@),
{
    let n = a.unicode_len();
    let m = b.unicode_len();
    if n != m {
        return false;
    }
    let mut i: usize = 0;
    while i < n
        invariant
            n == a@.len(),
            m == b@.len(),
            n == m,
            i <= n,
            forall|t: int| 0 <= t < i ==> a@[t] == b@[t],
        decreases n - i,
    {
        if a.get_char(i) != b.get_char(i) {
            return false;
        }
        i += 1;
    }
    assert(a@ =~= b@);
    true
}

/// Drops a leading `minecraft:` from an identifier.
pub fn strip_namespace(s: &str) -> (r: &str)
    ensures
        r@ == strip_namespace_spec(s@),
{
    let n = s.unicode_len();
    if n < 10 {
        return s;
    }
    let ns = ['m', 'i', 'n', 'e', 'c', 'r', 'a', 'f', 't', ':'];
    let mut i: usize = 0;
    while i < 10
        invariant
            n == s@.len(),
            n >= 10,
            i <= 10,
            ns@ == spec_namespace(),
            forall|t: int| 0 <= t < i ==> s@[t] == spec_namespace()[t],
        decreases 10 - i,
    {
        if s.get_char(i) != ns[i] {
            proof {
                assert(s@.subrange(0, 10)[i as int] != spec_namespace()[i as int]);
            }
            return s;
        }
        i += 1;
    }
    assert(s@.subrange(0, 10) =~= spec_namespace());
    s.substring_char(10, n)
}

} // verus!
