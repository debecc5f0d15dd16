//! The settings of an animation: the two per-mille odds and the glyph alphabet.

use vstd::prelude::*;

verus! {

/// Per-mille chance, per frame, that an idle lane starts a raining particle
/// (50 is five percent).
pub const RAIN_PROB: u16 = 50;

/// Per-mille chance, per frame, that a raining lane starts its clearing pass
/// (50 is five percent).
pub const CLEAR_PROB: u16 = 50;

/// The glyphs that raining particles paint by default.
pub const GLYPHS: &'static str = "abcdefghijklmnopqrstuvwxyzABCDEFGHIJKLMNOPQRSTUVWXYZ0123456789!@#$%&*()_-+=[{]}~,.<>;:|\\/?";

/// The settings of an animation.
///
/// Both odds are per mille: a lane's transition commits when a draw from
/// `0..=1000` is at most the threshold, so 1000 (or more) means every frame.
#[derive(Clone, Debug)]
pub struct Config {
    pub rain_prob: u16,
    pub clear_prob: u16,
    /// The alphabet that raining particles draw their glyphs from; it must not be empty.
    pub glyphs: Vec<char>,
}

/// Why a configuration was refused.
#[derive(Clone, Copy, Debug, PartialEq, Eq, Structural)]
pub enum ConfigError {
    /// The glyph alphabet has no glyph to draw.
    EmptyAlphabet,
}

impl Config {
    /// The default odds with the default alphabet, in the order it is written.
    pub fn standard() -> (r: Config)
        ensures
            r.rain_prob == RAIN_PROB,
            r.clear_prob == CLEAR_PROB,
            r.glyphs@ == GLYPHS@,
    {
        let text = GLYPHS;
        let n = text.unicode_len();
        let mut glyphs: Vec<char> = Vec::new();
        let mut i: usize = 0;
        while i < n
            invariant
                n == text@.len(),
                text@ == GLYPHS@,
                0 <= i <= n,
                glyphs@ == text@.take(i as int),
            decreases n - i,
        {
            let c = text.get_char(i);
            glyphs.push(c);
            assert(glyphs@ =~= text@.take(i + 1));
            i = i + 1;
        }
        assert(glyphs@ =~= text@);
        Config { rain_prob: RAIN_PROB, clear_prob: CLEAR_PROB, glyphs }
    }
}

} // verus!
