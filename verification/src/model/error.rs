//! The error document a Redfish service answers with.

use vstd::prelude::*;

use super::task::Message;

verus! {

#[derive(Debug, Clone)]
pub struct Error {
    pub error: ErrorInternal,
}

#[derive(Debug, Clone)]
pub struct ErrorInternal {
    pub code: String,
    pub message: String,
    pub extended: Vec<Message>,
}

} // verus!
