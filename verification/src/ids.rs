//! Fresh names for rounds and games.

use vstd::prelude::*;

verus! {

/// `uuid::Uuid::new_v4`, written out with `to_string`: the text of a random
/// identifier. Nothing is claimed of the text; whoever needs it to differ
/// from the names in use compares.
#[verifier::external_body]
pub(crate) fn fresh_id() -> (id: String) {
    uuid::Uuid::new_v4().to_string()
}

} // verus!
