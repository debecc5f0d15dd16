//! The per-lane state machine that decides when particles are born.
//!
//! Each lane remembers the kind of the last particle it emitted. An idle lane
//! (last kind `Clearing`) may start a raining particle; a raining lane may start
//! the clearing pass that follows it. Probabilities are per mille: a random draw
//! in `0..=1000` commits the transition when it is at most the threshold, so a
//! threshold of 100 means about a ten percent chance per frame, and 1000 means
//! certainty.

use vstd::prelude::*;
use crate::particle::{Kind, Particle};

verus! {

/// The per-mille threshold that applies to a lane whose last kind is `last`.
pub open spec fn threshold(last: Kind, rain_prob: u16, clear_prob: u16) -> u16 {
    match last {
        Kind::Raining(_) => clear_prob,
        Kind::Clearing => rain_prob,
    }
}

/// The kind a lane moves to when its transition commits.
pub open spec fn candidate(last: Kind, glyph: char) -> Kind {
    match last {
        Kind::Raining(_) => Kind::Clearing,
        Kind::Clearing => Kind::Raining(glyph),
    }
}

/// Whether `draw` commits the transition of a lane whose last kind is `last`.
pub open spec fn commits(last: Kind, draw: u16, rain_prob: u16, clear_prob: u16) -> bool {
    draw <= threshold(last, rain_prob, clear_prob)
}

/// The lane's last kind after one frame.
pub open spec fn next_kind(last: Kind, draw: u16, glyph: char, rain_prob: u16, clear_prob: u16) -> Kind {
    if commits(last, draw, rain_prob, clear_prob) {
        candidate(last, glyph)
    } else {
        last
    }
}

/// The particle that lane `index` emits when its transition commits.
pub open spec fn newborn(index: int, last: Kind, glyph: char) -> Particle {
    Particle { column: (2 * index) as u16, row: 0, kind: candidate(last, glyph) }
}

/// The particles that the first `n` lanes emit in one frame, in lane order.
pub open spec fn spawned(
    lanes: Seq<Kind>,
    draws: Seq<u16>,
    glyphs: Seq<char>,
    rain_prob: u16,
    clear_prob: u16,
    n: nat,
) -> Seq<Particle>
    decreases n,
{
    if n == 0 {
        seq![]
    } else {
        let i = n - 1;
        let before = spawned(lanes, draws, glyphs, rain_prob, clear_prob, i as nat);
        if commits(lanes[i], draws[i], rain_prob, clear_prob) {
            before.push(newborn(i, lanes[i], glyphs[i]))
        } else {
            before
        }
    }
}

/// Decides one lane's frame: the kind it moves to, or `None` when it stays as it is.
///
/// `draw` is the lane's random draw and `glyph` the glyph a new raining particle
/// would start with.
pub fn transition(last: Kind, draw: u16, glyph: char, rain_prob: u16, clear_prob: u16) -> (r: Option<Kind>)
    ensures
        r == (if commits(last, draw, rain_prob, clear_prob) {
            Some(candidate(last, glyph))
        } else {
            None::<Kind>
        }),
{
    let (prob, next) = match last {
        Kind::Raining(_) => (clear_prob, Kind::Clearing),
        Kind::Clearing => (rain_prob, Kind::Raining(glyph)),
    };
    if draw <= prob {
        Some(next)
    } else {
        None
    }
}

/// Runs every lane's transition for one frame.
///
/// Lane `i` uses `draws[i]` and `glyphs[i]`. Each lane that commits takes its new
/// kind, and a particle for it is appended to `particles` at row 0 in its column,
/// in lane order.
pub fn spawn(
    lanes: &mut Vec<Kind>,
    particles: &mut Vec<Particle>,
    draws: &Vec<u16>,
    glyphs: &Vec<char>,
    rain_prob: u16,
    clear_prob: u16,
)
    requires
        draws.len() == old(lanes).len(),
        glyphs.len() == old(lanes).len(),
        old(lanes).len() <= 32768,
    ensures
        final(lanes).len() == old(lanes).len(),
        forall|i: int|
            0 <= i < old(lanes).len() ==> #[trigger] final(lanes)[i] == next_kind(
                old(lanes)[i],
                draws[i],
                glyphs[i],
                rain_prob,
                clear_prob,
            ),
        final(particles)@ == old(particles)@ + spawned(
            old(lanes)@,
            draws@,
            glyphs@,
            rain_prob,
            clear_prob,
            old(lanes).len() as nat,
        ),
{
    let ghost lanes0 = lanes@;
    let ghost parts0 = particles@;
    let n = lanes.len();
    let mut i: usize = 0;
    while i < n
        invariant
            n == lanes0.len(),
            n <= 32768,
            draws.len() == n,
            glyphs.len() == n,
            0 <= i <= n,
            lanes.len() == n,
            forall|j: int| i <= j < n ==> #[trigger] lanes[j] == lanes0[j],
            forall|j: int|
                0 <= j < i ==> #[trigger] lanes[j] == next_kind(
                    lanes0[j],
                    draws[j],
                    glyphs[j],
                    rain_prob,
                    clear_prob,
                ),
            particles@ == parts0 + spawned(lanes0, draws@, glyphs@, rain_prob, clear_prob, i as nat),
        decreases n - i,
    {
        let last = lanes[i];
        match transition(last, draws[i], glyphs[i], rain_prob, clear_prob) {
            Some(next) => {
                let column = 2 * (i as u16);
                particles.push(Particle { column, row: 0, kind: next });
                lanes.set(i, next);
            },
            None => {},
        }
        proof {
            assert(particles@ =~= parts0 + spawned(
                lanes0,
                draws@,
                glyphs@,
                rain_prob,
                clear_prob,
                (i + 1) as nat,
            ));
        }
        i = i + 1;
    }
}

/// Each particle that the first `n` lanes spawn is the newborn of a lane below
/// `n` whose transition committed, standing at row 0 in that lane's column; and
/// each such lane did spawn its newborn.
pub proof fn lemma_newborns_in_lanes(
    lanes: Seq<Kind>,
    draws: Seq<u16>,
    glyphs: Seq<char>,
    rain_prob: u16,
    clear_prob: u16,
    n: nat,
)
    requires
        n <= 32768,
    ensures
        forall|j: int|
            0 <= j < spawned(lanes, draws, glyphs, rain_prob, clear_prob, n).len() ==> {
                let p = #[trigger] spawned(lanes, draws, glyphs, rain_prob, clear_prob, n)[j];
                let k = p.column / 2;
                &&& p.row == 0
                &&& p.column % 2 == 0
                &&& k < n
                &&& commits(lanes[k as int], draws[k as int], rain_prob, clear_prob)
                &&& p == newborn(k as int, lanes[k as int], glyphs[k as int])
            },
        forall|k: int|
            0 <= k < n && commits(lanes[k], draws[k], rain_prob, clear_prob) ==> spawned(
                lanes,
                draws,
                glyphs,
                rain_prob,
                clear_prob,
                n,
            ).contains(#[trigger] newborn(k, lanes[k], glyphs[k])),
    decreases n,
{
    if n > 0 {
        let i = n - 1;
        lemma_newborns_in_lanes(lanes, draws, glyphs, rain_prob, clear_prob, i as nat);
        let before = spawned(lanes, draws, glyphs, rain_prob, clear_prob, i as nat);
        let now = spawned(lanes, draws, glyphs, rain_prob, clear_prob, n);
        assert forall|k: int|
            0 <= k < n && commits(lanes[k], draws[k], rain_prob, clear_prob) implies now.contains(
            #[trigger] newborn(k, lanes[k], glyphs[k]),
        ) by {
            if k < i {
                let j = choose|j: int| 0 <= j < before.len() && before[j] == newborn(k, lanes[k], glyphs[k]);
                assert(now[j] == before[j]);
            } else {
                assert(now[now.len() - 1] == newborn(k, lanes[k], glyphs[k]));
            }
        }
    }
}

/// After a frame, a lane's last kind is the kind of the particle it spawned in
/// that frame, and stays what it was when it spawned none.
///
/// Applied frame after frame, a lane's last kind is always the kind of its most
/// recent spawn, or `Clearing` (idle) while it has spawned nothing.
pub proof fn lemma_lane_follows_last_spawn(
    lanes: Seq<Kind>,
    draws: Seq<u16>,
    glyphs: Seq<char>,
    rain_prob: u16,
    clear_prob: u16,
    i: int,
)
    requires
        0 <= i < lanes.len(),
        lanes.len() <= 32768,
        draws.len() == lanes.len(),
        glyphs.len() == lanes.len(),
    ensures
        ({
            let born = spawned(lanes, draws, glyphs, rain_prob, clear_prob, lanes.len());
            let after = next_kind(lanes[i], draws[i], glyphs[i], rain_prob, clear_prob);
            &&& forall|j: int|
                0 <= j < born.len() && (#[trigger] born[j]).column == 2 * i ==> born[j].kind == after
            &&& (forall|j: int| 0 <= j < born.len() ==> (#[trigger] born[j]).column != 2 * i) ==> after
                == lanes[i]
        }),
{
    let n = lanes.len();
    lemma_newborns_in_lanes(lanes, draws, glyphs, rain_prob, clear_prob, n);
    let born = spawned(lanes, draws, glyphs, rain_prob, clear_prob, n);
    if commits(lanes[i], draws[i], rain_prob, clear_prob) {
        let p = newborn(i, lanes[i], glyphs[i]);
        assert(born.contains(p));
        let j = choose|j: int| 0 <= j < born.len() && born[j] == p;
        assert(born[j].column == 2 * i);
    }
}

} // verus!
