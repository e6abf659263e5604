//! The help command: it only answers with the help text.

use vstd::prelude::*;

use crate::model::message::Message;

verus! {

/// The message the help command answers with.
pub fn help() -> (m: Message)
    ensures
        m is Help,
{
    Message::Help
}

} // verus!
