//! The values that the simulation moves around: particles and the writes they make.

use vstd::prelude::*;

verus! {

/// What a particle does as it falls, and what a lane last emitted.
///
/// A lane whose last kind is `Clearing` is idle: it has either emitted nothing
/// yet or its last particle was a clearing pass.
#[derive(Clone, Copy, Debug, PartialEq, Eq, Structural)]
pub enum Kind {
    /// Paints a bright head and leaves its previous glyph behind as a dim trail.
    Raining(char),
    /// Paints blanks, erasing the trail left in its column.
    Clearing,
}

/// One falling unit on the screen.
#[derive(Clone, Copy, Debug, PartialEq, Eq, Structural)]
pub struct Particle {
    /// The terminal column it falls in (twice its lane's index).
    pub column: u16,
    /// The row it will paint next, counted from the top.
    pub row: u16,
    pub kind: Kind,
}

/// The colour a write asks for.
#[derive(Clone, Copy, Debug, PartialEq, Eq, Structural)]
pub enum Tone {
    /// The dim colour of a trail.
    Trail,
    /// The bright colour of a particle's head.
    Head,
    /// No colour change: whatever colour is current.
    Unchanged,
}

/// One glyph to put at one cell of the terminal.
#[derive(Clone, Copy, Debug, PartialEq, Eq, Structural)]
pub struct Write {
    pub column: u16,
    pub row: u16,
    pub tone: Tone,
    pub glyph: char,
}

/// The glyph that a clearing particle paints.
pub const BLANK: char = ' ';

} // verus!
