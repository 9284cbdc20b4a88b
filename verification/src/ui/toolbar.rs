//! What the tool sidebar reports back after a frame.

use vstd::prelude::*;
use crate::tools::ToolKind;

verus! {

/// The requests the sidebar collected in one frame.
#[derive(Clone, Copy, Debug, PartialEq, Eq, Structural)]
pub struct ToolbarOutput {
    pub tool_change: Option<ToolKind>,
    pub delete_selected: bool,
    pub commit_crop: bool,
    pub cancel_crop: bool,
}

impl Default for ToolbarOutput {
    /// Nothing requested.
    fn default() -> (output: Self)
        ensures
            output == (ToolbarOutput {
                tool_change: None,
                delete_selected: false,
                commit_crop: false,
                cancel_crop: false,
            }),
    {
        ToolbarOutput { tool_change: None, delete_selected: false, commit_crop: false, cancel_crop: false }
    }
}

} // verus!
