use vstd::prelude::*;
use crate::gpt::GptMessage;

verus! {

/// The body of a chat request: the conversation so far.
#[derive(Debug, Clone, PartialEq)]
pub struct RequestParams {
    pub messages: Vec<GptMessage>,
}

} // verus!
