//! What the top bar reports back after a frame.

use vstd::prelude::*;

verus! {

/// The buttons of the top bar clicked in one frame.
#[derive(Clone, Copy, Debug, PartialEq, Eq, Structural)]
pub struct TopbarOutput {
    pub save_clicked: bool,
    pub copy_clicked: bool,
    pub extract_text_clicked: bool,
    pub undo_clicked: bool,
    pub redo_clicked: bool,
    pub fit_clicked: bool,
}

impl Default for TopbarOutput {
    /// Nothing clicked.
    fn default() -> (output: Self)
        ensures
            output == (TopbarOutput {
                save_clicked: false,
                copy_clicked: false,
                extract_text_clicked: false,
                undo_clicked: false,
                redo_clicked: false,
                fit_clicked: false,
            }),
    {
        TopbarOutput {
            save_clicked: false,
            copy_clicked: false,
            extract_text_clicked: false,
            undo_clicked: false,
            redo_clicked: false,
            fit_clicked: false,
        }
    }
}

} // verus!
