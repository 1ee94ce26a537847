//! Index-by-index pairing of two runs of possibly different length.

use itertools::EitherOrBoth;
use itertools::Itertools;
use vstd::prelude::*;

verus! {

/// What stands at one index of two runs laid side by side.
pub enum Aligned<T> {
    /// Both runs reach this index.
    Both(T, T),
    /// Only the left run reaches this index.
    Left(T),
    /// Only the right run reaches this index.
    Right(T),
}

/// Two runs laid side by side, up to the length of the longer one.
pub open spec fn aligned<T>(a: Seq<T>, b: Seq<T>) -> Seq<Aligned<T>> {
    Seq::new(
        if a.len() >= b.len() { a.len() } else { b.len() },
        |i: int|
            if i < a.len() && i < b.len() {
                Aligned::Both(a[i], b[i])
            } else if i < a.len() {
                Aligned::Left(a[i])
            } else {
                Aligned::Right(b[i])
            },
    )
}

/// Calls `Itertools::zip_longest` on the two vectors' items. The contract
/// claims what its iterator yields: at each index up to the longer length,
/// both items where both vectors reach, else the one item that is there.
#[verifier::external_body]
pub(crate) fn zip_longest<T>(a: Vec<T>, b: Vec<T>) -> (pairs: Vec<Aligned<T>>)
    ensures
        pairs@ == aligned(a@, b@),
{
    a.into_iter().zip_longest(b).map(|pair| match pair {
        EitherOrBoth::Both(x, y) => Aligned::Both(x, y),
        EitherOrBoth::Left(x) => Aligned::Left(x),
        EitherOrBoth::Right(y) => Aligned::Right(y),
    }).collect()
}

} // verus!
