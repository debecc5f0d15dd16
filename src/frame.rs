//! One animation: its lanes, its particles, and the step that advances a frame.

use vstd::prelude::*;
use crate::config::{Config, ConfigError};
use crate::engine::{
    advanced, frame_writes, lemma_frame_writes_in_bounds, lemma_survivors_on_screen, prune, render,
    survivors,
};
use crate::particle::{Kind, Particle, Write};
use crate::random::{random_glyph, random_per_mille};
use crate::spawner::{lemma_newborns_in_lanes, next_kind, spawn, spawned};

verus! {

/// The lanes after a frame in which lane `i` drew `draws[i]` and, were it to
/// start raining, `glyphs[i]`.
pub open spec fn next_lanes(
    lanes: Seq<Kind>,
    draws: Seq<u16>,
    glyphs: Seq<char>,
    rain_prob: u16,
    clear_prob: u16,
) -> Seq<Kind> {
    Seq::new(lanes.len(), |i: int| next_kind(lanes[i], draws[i], glyphs[i], rain_prob, clear_prob))
}

/// The particle list once a frame's newborn particles are appended.
pub open spec fn with_newborns(
    lanes: Seq<Kind>,
    particles: Seq<Particle>,
    draws: Seq<u16>,
    glyphs: Seq<char>,
    rain_prob: u16,
    clear_prob: u16,
) -> Seq<Particle> {
    particles + spawned(lanes, draws, glyphs, rain_prob, clear_prob, lanes.len())
}

/// Every particle of `ps` moved by its frame; particle `i` paints `fresh[i]`.
pub open spec fn all_advanced(ps: Seq<Particle>, height: u16, fresh: Seq<char>) -> Seq<Particle> {
    Seq::new(ps.len(), |i: int| advanced(ps[i], height, fresh[i]))
}

/// A whole frame as a function of its random choices: the new lanes, the
/// particles that remain on screen, and the writes, in order.
///
/// Lane `i` draws `draws[i]` and `glyphs[i]`; the `k`-th particle of the list
/// after spawning paints `fresh[k]` as its new head.
pub open spec fn frame_outcome(
    lanes: Seq<Kind>,
    particles: Seq<Particle>,
    height: u16,
    rain_prob: u16,
    clear_prob: u16,
    draws: Seq<u16>,
    glyphs: Seq<char>,
    fresh: Seq<char>,
) -> (Seq<Kind>, Seq<Particle>, Seq<Write>) {
    let born = with_newborns(lanes, particles, draws, glyphs, rain_prob, clear_prob);
    (
        next_lanes(lanes, draws, glyphs, rain_prob, clear_prob),
        survivors(all_advanced(born, height, fresh), height),
        frame_writes(born, height, fresh, born.len()),
    )
}

/// Whether each value of `s` is a per-mille draw.
pub open spec fn all_per_mille(s: Seq<u16>) -> bool {
    forall|i: int| 0 <= i < s.len() ==> #[trigger] s[i] <= 1000
}

/// Whether each glyph of `s` belongs to `alphabet`.
pub open spec fn all_drawn_from(s: Seq<char>, alphabet: Seq<char>) -> bool {
    forall|i: int| 0 <= i < s.len() ==> alphabet.contains(#[trigger] s[i])
}

/// A running animation on a screen `width` columns wide and `height` rows tall.
///
/// There is one lane for every two columns; lane `i` drops its particles in
/// column `2 * i`.
#[derive(Clone, Debug)]
pub struct Simulation {
    pub width: u16,
    pub height: u16,
    pub config: Config,
    /// The kind that each lane emitted last (`Clearing` for a lane that is idle).
    pub lanes: Vec<Kind>,
    /// The particles in flight, oldest first.
    pub particles: Vec<Particle>,
}

impl Simulation {
    /// The state between two frames: one lane per two columns, a non-empty
    /// alphabet, and every particle inside the screen.
    pub open spec fn wf(&self) -> bool {
        &&& self.lanes.len() == self.width / 2
        &&& self.config.glyphs.len() > 0
        &&& forall|i: int|
            0 <= i < self.particles.len() ==> (#[trigger] self.particles[i]).row < self.height
                && self.particles[i].column < self.width
    }

    /// A new animation with every lane idle and no particle, or an error when
    /// the alphabet of `config` is empty.
    pub fn new(width: u16, height: u16, config: Config) -> (r: Result<Simulation, ConfigError>)
        ensures
            config.glyphs.len() == 0 <==> r == Err::<Simulation, ConfigError>(
                ConfigError::EmptyAlphabet,
            ),
            r matches Ok(s) ==> {
                &&& s.wf()
                &&& s.width == width
                &&& s.height == height
                &&& s.config.rain_prob == config.rain_prob
                &&& s.config.clear_prob == config.clear_prob
                &&& s.config.glyphs@ == config.glyphs@
                &&& s.lanes@ == Seq::new((width / 2) as nat, |i: int| Kind::Clearing)
                &&& s.particles@.len() == 0
            },
    {
        if config.glyphs.len() == 0 {
            return Err(ConfigError::EmptyAlphabet);
        }
        let n = width / 2;
        let mut lanes: Vec<Kind> = Vec::new();
        let mut i: u16 = 0;
        while i < n
            invariant
                0 <= i <= n,
                lanes@ == Seq::new(i as nat, |j: int| Kind::Clearing),
            decreases n - i,
        {
            lanes.push(Kind::Clearing);
            assert(lanes@ =~= Seq::new((i + 1) as nat, |j: int| Kind::Clearing));
            i = i + 1;
        }
        Ok(Simulation { width, height, config, lanes, particles: Vec::new() })
    }

    /// Advances the animation by one frame and returns the frame's writes, in
    /// the order they are to be painted.
    ///
    /// Every lane draws a per-mille value and a glyph of the alphabet; newborn
    /// particles are appended, then every particle paints a freshly drawn glyph
    /// and moves down one row, and finally the particles below the screen are
    /// removed. Whatever was drawn, no write leaves the screen.
    pub fn step_frame(&mut self) -> (writes: Vec<Write>)
        requires
            old(self).wf(),
        ensures
            final(self).wf(),
            final(self).width == old(self).width,
            final(self).height == old(self).height,
            final(self).config == old(self).config,
            forall|k: int|
                0 <= k < writes.len() ==> (#[trigger] writes[k]).row < old(self).height
                    && writes[k].column < old(self).width,
            exists|draws: Seq<u16>, glyphs: Seq<char>, fresh: Seq<char>|
                {
                    &&& draws.len() == old(self).lanes.len()
                    &&& glyphs.len() == old(self).lanes.len()
                    &&& all_per_mille(draws)
                    &&& all_drawn_from(glyphs, old(self).config.glyphs@)
                    &&& all_drawn_from(fresh, old(self).config.glyphs@)
                    &&& #[trigger] frame_outcome(
                        old(self).lanes@,
                        old(self).particles@,
                        old(self).height,
                        old(self).config.rain_prob,
                        old(self).config.clear_prob,
                        draws,
                        glyphs,
                        fresh,
                    ) == (final(self).lanes@, final(self).particles@, writes@)
                },
    {
        let ghost lanes0 = self.lanes@;
        let ghost parts0 = self.particles@;
        let height = self.height;
        let width = self.width;
        let rain_prob = self.config.rain_prob;
        let clear_prob = self.config.clear_prob;
        let n = self.lanes.len();

        let mut draws: Vec<u16> = Vec::new();
        let mut glyphs: Vec<char> = Vec::new();
        let mut i: usize = 0;
        while i < n
            invariant
                n == self.lanes.len(),
                self.config.glyphs.len() > 0,
                0 <= i <= n,
                draws.len() == i,
                glyphs.len() == i,
                all_per_mille(draws@),
                all_drawn_from(glyphs@, self.config.glyphs@),
            decreases n - i,
        {
            draws.push(random_per_mille());
            glyphs.push(random_glyph(&self.config.glyphs));
            i = i + 1;
        }

        spawn(&mut self.lanes, &mut self.particles, &draws, &glyphs, rain_prob, clear_prob);
        let ghost born = self.particles@;
        proof {
            lemma_newborns_in_lanes(lanes0, draws@, glyphs@, rain_prob, clear_prob, lanes0.len());
        }

        let m = self.particles.len();
        let mut fresh: Vec<char> = Vec::new();
        let mut k: usize = 0;
        while k < m
            invariant
                m == self.particles.len(),
                self.config.glyphs.len() > 0,
                0 <= k <= m,
                fresh.len() == k,
                all_drawn_from(fresh@, self.config.glyphs@),
            decreases m - k,
        {
            fresh.push(random_glyph(&self.config.glyphs));
            k = k + 1;
        }

        assert forall|j: int| 0 <= j < born.len() implies #[trigger] born[j].row < u16::MAX
            && born[j].column < width by {
            if j >= parts0.len() {
                let s = spawned(lanes0, draws@, glyphs@, rain_prob, clear_prob, lanes0.len());
                assert(born[j] == s[j - parts0.len()]);
            }
        }
        let writes = render(&mut self.particles, height, &fresh);
        let ghost moved = self.particles@;
        prune(&mut self.particles, height);

        proof {
            lemma_frame_writes_in_bounds(born, height, width, fresh@, born.len());
            lemma_survivors_on_screen(moved, height);
            assert forall|i: int| 0 <= i < self.particles.len() implies #[trigger] self.particles[i].column < width by {
                assert(self.particles@.contains(self.particles[i]));
                let j = choose|j: int| 0 <= j < moved.len() && moved[j] == self.particles[i];
                assert(moved[j].column == born[j].column);
            }
            assert(moved =~= all_advanced(born, height, fresh@));
            assert(self.lanes@ =~= next_lanes(lanes0, draws@, glyphs@, rain_prob, clear_prob));
            assert(frame_outcome(lanes0, parts0, height, rain_prob, clear_prob, draws@, glyphs@, fresh@)
                == (self.lanes@, self.particles@, writes@));
        }
        writes
    }
}

} // verus!
