//! Exact decimal scalars for colours, depths and coordinates.

use vstd::prelude::*;

verus! {

/// A number held exactly as a count of tenths: `Tenths(3)` is three tenths,
/// `Tenths(-50)` is minus five.
#[derive(Clone, Copy, Debug, PartialEq, Eq, Structural)]
pub struct Tenths(pub i32);

} // verus!
