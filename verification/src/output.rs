//! What a frame asks of the platform.

use vstd::prelude::*;

verus! {

/// The shape of the pointer.
#[derive(Clone, Copy, Debug, PartialEq, Eq, Structural)]
pub enum CursorIcon {
    Default,
    /// Over something that can be clicked.
    PointingHand,
    /// Over the corner of something that can be resized.
    ResizeNwSe,
    /// Over text that can be edited.
    Text,
}

/// The side effects of one frame that the platform carries out.
#[derive(Debug)]
pub struct Output {
    /// The shape that the pointer shall take.
    pub cursor_icon: CursorIcon,
    /// An address to open, if the frame asks for one.
    pub open_url: Option<String>,
    /// Text to put on the clipboard; nothing if it is empty.
    pub copied_text: String,
}

/// The mathematical content of an [`Output`].
pub struct OutputView {
    pub cursor_icon: CursorIcon,
    pub open_url: Option<Seq<char>>,
    pub copied_text: Seq<char>,
}

impl View for Output {
    type V = OutputView;

    open spec fn view(&self) -> OutputView {
        OutputView {
            cursor_icon: self.cursor_icon,
            open_url: match self.open_url {
                Some(url) => Some(url@),
                None => None,
            },
            copied_text: self.copied_text@,
        }
    }
}

impl OutputView {
    /// The output of a frame that asked for nothing.
    pub open spec fn nothing() -> OutputView {
        OutputView { cursor_icon: CursorIcon::Default, open_url: None, copied_text: Seq::empty() }
    }
}

impl Default for Output {
    fn default() -> (output: Output)
        ensures
            output@ == OutputView::nothing(),
    {
        Output { cursor_icon: CursorIcon::Default, open_url: None, copied_text: String::new() }
    }
}

impl Clone for Output {
    fn clone(&self) -> (copy: Output)
        ensures
            copy@ == self@,
    {
        Output {
            cursor_icon: self.cursor_icon,
            open_url: match &self.open_url {
                Some(url) => Some(url.clone()),
                None => None,
            },
            copied_text: self.copied_text.clone(),
        }
    }
}

} // verus!
