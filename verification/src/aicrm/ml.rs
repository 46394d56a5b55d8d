//! Machine learning models.

use vstd::prelude::*;

verus! {

/// ML model interface.
pub struct MlModel;

impl MlModel {
    /// Creates a new ML model.
    pub fn new() -> (r: Self) {
        MlModel
    }
}

} // verus!
