//! Which strings can name a generated method.

use vstd::prelude::*;
use vstd::string::StrSliceExecFns;

verus! {

/// Whether a character has the Unicode property XID_Start, as
/// `unicode_ident::is_xid_start` reports it.
pub uninterp spec fn xid_start(ch: char) -> bool;

/// Whether a character has the Unicode property XID_Continue, as
/// `unicode_ident::is_xid_continue` reports it.
pub uninterp spec fn xid_continue(ch: char) -> bool;

/// `unicode_ident::is_xid_start` is a table lookup: it returns for every
/// character, and the same answer each time.
pub assume_specification[ unicode_ident::is_xid_start ](ch: char) -> (r: bool)
    ensures
        r == xid_start(ch),
;

/// `unicode_ident::is_xid_continue` is a table lookup: it returns for every
/// character, and the same answer each time.
pub assume_specification[ unicode_ident::is_xid_continue ](ch: char) -> (r: bool)
    ensures
        r == xid_continue(ch),
;

/// Whether every character of `s` is a decimal digit.
pub open spec fn all_digits(s: Seq<char>) -> bool {
    forall|i: int| 0 <= i < s.len() ==> '0' <= #[trigger] s[i] <= '9'
}

/// Whether every character of `s` after the first may continue an identifier.
pub open spec fn continues(s: Seq<char>) -> bool {
    forall|i: int| 1 <= i < s.len() ==> xid_continue(#[trigger] s[i])
}

/// Whether `s` is an identifier: not empty, not a number, starting with `_`
/// or an XID_Start character and going on with XID_Continue characters.
pub open spec fn identifier(s: Seq<char>) -> bool {
    &&& s.len() > 0
    &&& !all_digits(s)
    &&& (s[0] == '_' || xid_start(s[0]))
    &&& continues(s)
}

/// Tells whether `name` is an identifier.
pub fn is_identifier(name: &str) -> (r: bool)
    ensures
        r == identifier(name@),
{
    let n = name.unicode_len();
    if n == 0 {
        return false;
    }
    let first = name.get_char(0);
    if !(first == '_' || unicode_ident::is_xid_start(first)) {
        return false;
    }
    let mut digits = '0' <= first && first <= '9';
    let mut i: usize = 1;
    proof {
        assert(name@.take(1)[0] == first);
    }
    while i < n
        invariant
            1 <= i <= n,
            n == name@.len(),
            digits == all_digits(name@.take(i as int)),
            continues(name@.take(i as int)),
        decreases n - i,
    {
        let ch = name.get_char(i);
        if !unicode_ident::is_xid_continue(ch) {
            return false;
        }
        proof {
            let before = name@.take(i as int);
            let after = name@.take(i + 1);
            assert(after[i as int] == ch);
            assert(forall|j: int| 0 <= j < i ==> before[j] == after[j]);
        }
        digits = digits && '0' <= ch && ch <= '9';
        i = i + 1;
    }
    proof {
        assert(name@.take(n as int) =~= name@);
    }
    !digits
}

} // verus!
