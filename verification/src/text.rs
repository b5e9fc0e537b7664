//! Small verified helpers on strings: character-wise equality and the
//! raw-identifier prefix strip applied to declared field names.

use vstd::prelude::*;
use vstd::string::StrSliceExecFns;

verus! {

/// True exactly when the two strings hold the same characters.
pub fn str_eq(a: &str, b: &str) -> (r: bool)
    ensures
        r == (a@ == b@),
{
    let alen: usize = a.unicode_len();
    let blen: usize = b.unicode_len();
    if alen != blen {
        proof {
            if a@ == b@ {
                assert(a@.len() == b@.len());
            }
        }
        return false;
    }
    let mut i: usize = 0;
    while i < alen
        invariant
            alen == a@.len(),
            blen == b@.len(),
            alen == blen,
            i <= alen,
            forall|j: int| 0 <= j < i ==> a@[j] == b@[j],
        decreases alen - i,
    {
        let ca: char = a.get_char(i);
        let cb: char = b.get_char(i);
        if ca != cb {
            proof {
                if a@ == b@ {
                    assert(a@[i as int] == b@[i as int]);
                }
            }
            return false;
        }
        i += 1;
    }
    proof {
        assert(a@ =~= b@);
    }
    true
}

/// What `remove_r` leaves of a name: the characters behind a leading `r#`,
/// or the name itself when it carries no such prefix.
pub open spec fn strip_raw_prefix(s: Seq<char>) -> Seq<char> {
    if s.len() >= 2 && s[0] == 'r' && s[1] == '#' {
        s.subrange(2, s.len() as int)
    } else {
        s
    }
}

/// Strips the raw-identifier prefix from a declared field name, so that a
/// field written `r#type` reaches statements and accessors as `type`.
pub fn remove_r(s: String) -> (r: String)
    ensures
        r@ == strip_raw_prefix(s@),
{
    let n: usize = s.as_str().unicode_len();
    if n >= 2 {
        let c0: char = s.as_str().get_char(0);
        let c1: char = s.as_str().get_char(1);
        if c0 == 'r' && c1 == '#' {
            let rest: &str = s.as_str().substring_char(2, n);
            return rest.to_owned();
        }
    }
    s
}

} // verus!
