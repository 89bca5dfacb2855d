//! Text helpers shared by the generator's passes.

use vstd::prelude::*;
use vstd::string::StringExecFns;

verus! {

/// `str`'s `==`: two string slices are equal exactly when they hold the same
/// characters.
#[verifier::external_body]
pub(crate) fn str_eq(a: &str, b: &str) -> (r: bool)
    ensures
        r == (a@ == b@),
{
    a == b
}

/// The text `head` followed by `tail`.
pub fn joined(head: &str, tail: &str) -> (r: String)
    ensures
        r@ == head@ + tail@,
{
    let mut out = String::from_str(head);
    out.append(tail);
    out
}

/// The pieces written one after the other.
pub open spec fn concat(pieces: Seq<Seq<char>>) -> Seq<char>
    decreases pieces.len(),
{
    if pieces.len() == 0 {
        Seq::empty()
    } else {
        concat(pieces.drop_last()) + pieces.last()
    }
}

/// Writing out one piece more appends that piece.
pub proof fn lemma_concat_step(pieces: Seq<Seq<char>>, n: int)
    requires
        0 <= n < pieces.len(),
    ensures
        concat(pieces.take(n + 1)) == concat(pieces.take(n)) + pieces[n],
{
    assert(pieces.take(n + 1).drop_last() =~= pieces.take(n));
}

} // verus!
