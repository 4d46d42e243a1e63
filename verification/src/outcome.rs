//! How a traversal of events ends.

use vstd::prelude::*;

use crate::error::{ExtractError, ExtractErrorView};
use crate::event::EventView;
use crate::model::XmlDataView;

verus! {

/// The end of a traversal: the record as the traversal left it, the events
/// that it did not read, and whether it succeeded.
#[verifier::ext_equal]
pub struct Outcome {
    pub model: XmlDataView,
    pub rest: Seq<EventView>,
    pub result: Result<(), ExtractErrorView>,
}

/// The view of what a traversal returns.
pub open spec fn reported(r: Result<(), ExtractError>) -> Result<(), ExtractErrorView> {
    match r {
        Ok(_) => Ok(()),
        Err(error) => Err(error@),
    }
}

} // verus!
