//! The session score. It only ever grows during a session — by the fixed
//! kill bonus per enemy death, awarded in the combat resolver — and is reset
//! to zero when a new game starts.

use vstd::prelude::*;

verus! {

/// The game's score.
#[derive(Clone, Copy, Debug, PartialEq, Eq, Structural)]
pub struct Score(pub usize);

} // verus!
