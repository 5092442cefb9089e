//! What a tool hands back.

use vstd::prelude::*;
use vstd::string::*;

verus! {

/// What kind of effect a tool has.
#[derive(Debug, Clone, Copy, PartialEq, Eq, Structural)]
pub enum ToolCategory {
    /// Reads or writes what the agent remembers.
    Memory,
    /// Drives a connected device.
    Hardware,
}

/// The result of a tool.
#[derive(Debug)]
pub struct ToolOutput {
    /// The text for the model.
    pub for_llm: String,
    /// The text for the user, where there is one.
    pub for_user: Option<String>,
}

/// What a tool's result says.
#[verifier::ext_equal]
pub struct OutputModel {
    pub for_llm: Seq<char>,
    pub for_user: Option<Seq<char>>,
}

impl View for ToolOutput {
    type V = OutputModel;

    open spec fn view(&self) -> OutputModel {
        OutputModel {
            for_llm: self.for_llm@,
            for_user: match self.for_user {
                Some(s) => Some(s@),
                None => None,
            },
        }
    }
}

/// A result for the model alone.
pub open spec fn llm_only(text: Seq<char>) -> OutputModel {
    OutputModel { for_llm: text, for_user: None }
}

/// A result that the user sees too.
pub open spec fn user_visible(text: Seq<char>) -> OutputModel {
    OutputModel { for_llm: text, for_user: Some(text) }
}

impl ToolOutput {
    /// A result for the model alone.
    pub fn llm_only(text: String) -> (r: ToolOutput)
        ensures
            r@ == llm_only(text@),
    {
        ToolOutput { for_llm: text, for_user: None }
    }

    /// A result that the user sees too.
    pub fn user_visible(text: String) -> (r: ToolOutput)
        ensures
            r@ == user_visible(text@),
    {
        let copy = text.clone();
        ToolOutput { for_llm: text, for_user: Some(copy) }
    }
}

} // verus!
