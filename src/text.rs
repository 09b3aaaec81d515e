use vstd::prelude::*;

verus! {

/// The text of a text object in a level.
#[derive(Clone, Debug, PartialEq, Eq, Hash, PartialOrd, Ord)]
pub struct TextData {
    pub text: String,
}

} // verus!
