//! The style vocabulary of the presentation layer: which role a piece of
//! text, a button or a container plays.  How each role is painted is the
//! presentation layer's business; the roles themselves are plain data.

use vstd::prelude::*;

verus! {

/// The visual theme the presentation layer styles itself by.
#[derive(Debug, Clone, Copy, PartialEq, Eq, Structural)]
pub struct Fluent;

impl Default for Fluent {
    fn default() -> (r: Self)
        ensures
            r == Fluent,
    {
        Fluent
    }
}

/// The role of a piece of text.
#[derive(Debug, Clone, Copy, PartialEq, Eq, Structural)]
pub enum Text {
    Default,
    Error,
}

impl Default for Text {
    fn default() -> (r: Self)
        ensures
            r == Text::Default,
    {
        Text::Default
    }
}

/// The role of a button.
#[derive(Debug, Clone, Copy, PartialEq, Eq, Structural)]
pub enum Button {
    Secondary,
    Primary,
}

impl Default for Button {
    fn default() -> (r: Self)
        ensures
            r == Button::Secondary,
    {
        Button::Secondary
    }
}

/// The role of a container.
#[derive(Debug, Clone, Copy, PartialEq, Eq, Structural)]
pub enum Container {
    Default,
    Error,
}

impl Default for Container {
    fn default() -> (r: Self)
        ensures
            r == Container::Default,
    {
        Container::Default
    }
}

} // verus!
