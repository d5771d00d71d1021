use vstd::prelude::*;

verus! {

/// One conversational message: who speaks, and what is said.
///
/// The role is carried as given by the provider and is not checked here.
#[derive(Debug, Clone)]
pub struct Message {
    pub role: String,
    pub content: String,
}

} // verus!
