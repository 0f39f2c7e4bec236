//! The signed-in user's data as the embed endpoint reports it.

use vstd::prelude::*;

verus! {

/// The owned-products listing: the product ids the user may download.
pub struct OwnedGamesResponse {
    pub owned: Vec<u64>,
}

} // verus!
