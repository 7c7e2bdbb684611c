//! What every kind of block offers, for the remote-call block: its kind and
//! an owned copy of itself.

use crate::definition::Curl;
use vstd::prelude::*;

verus! {

/// The kinds of block.
#[derive(Debug, Clone, Copy, PartialEq, Eq, Structural)]
pub enum BlockType {
    /// A block that makes a remote call.
    Curl,
}

/// The report of a failure as callers that speak JSON take it: one field
/// with the message.
#[derive(Debug, Clone)]
pub struct Error {
    pub error: String,
}

impl View for Error {
    type V = Seq<char>;

    open spec fn view(&self) -> Seq<char> {
        self.error@
    }
}

impl Curl {
    /// The kind of the block.
    pub fn block_type(&self) -> (kind: BlockType)
        ensures
            kind == BlockType::Curl,
    {
        BlockType::Curl
    }

    /// An owned copy of the definition, with the same four texts.
    pub fn clone_box(&self) -> (copy: Box<Curl>)
        ensures
            copy@ == self@,
    {
        Box::new(self.duplicate())
    }
}

} // verus!
