//! The controls a source shows on its property sheet.

use vstd::prelude::*;

verus! {

/// How a text control is shown.
#[derive(Clone, Copy, Debug, PartialEq, Eq, Hash, Structural)]
#[non_exhaustive]
pub enum TextType {
    /// One line.
    Default,
    /// Several lines.
    Multiline,
    /// One line that hides what is typed.
    Password,
}

/// What a control edits.
#[derive(Clone, Copy, Debug, PartialEq, Eq, Structural)]
pub enum ControlKind {
    /// Free text.
    Text(TextType),
    /// Yes or no.
    Bool,
}

/// One control: the setting it edits, the label shown beside it, and its kind.
#[derive(Clone, Copy, Debug)]
pub struct Control {
    pub name: &'static str,
    pub description: &'static str,
    pub kind: ControlKind,
}

/// What a control is.
pub struct ControlView {
    pub name: Seq<char>,
    pub description: Seq<char>,
    pub kind: ControlKind,
}

impl View for Control {
    type V = ControlView;

    open spec fn view(&self) -> ControlView {
        ControlView { name: self.name@, description: self.description@, kind: self.kind }
    }
}

} // verus!
