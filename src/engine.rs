//! Moving and painting the particles of one frame, and dropping those that left.
//!
//! A frame first lets every particle paint and move one row down, in list order,
//! and only then removes the particles that have fallen past the bottom row. The
//! two passes are separate, so removal never skips or repeats a particle, however
//! many leave in the same frame.

use vstd::prelude::*;
use crate::particle::{Kind, Particle, Tone, Write, BLANK};

verus! {

/// The writes that particle `p` makes in a frame on a screen `height` rows tall,
/// where `fresh` is the glyph drawn for its new head.
///
/// A raining particle repaints its previous glyph one row up in the trail tone,
/// then paints `fresh` at its row in the head tone. A clearing particle paints a
/// blank at its row. No write falls outside the rows `0..height`.
pub open spec fn writes_of(p: Particle, height: u16, fresh: char) -> Seq<Write> {
    match p.kind {
        Kind::Raining(c) => {
            let trail = if 0 < p.row && p.row <= height {
                seq![Write { column: p.column, row: (p.row - 1) as u16, tone: Tone::Trail, glyph: c }]
            } else {
                seq![]
            };
            let head = if p.row < height {
                seq![Write { column: p.column, row: p.row, tone: Tone::Head, glyph: fresh }]
            } else {
                seq![]
            };
            trail + head
        },
        Kind::Clearing => if p.row < height {
            seq![Write { column: p.column, row: p.row, tone: Tone::Unchanged, glyph: BLANK }]
        } else {
            seq![]
        },
    }
}

/// Particle `p` after its frame: one row further down, and, if it painted a new
/// head, carrying that head's glyph.
pub open spec fn advanced(p: Particle, height: u16, fresh: char) -> Particle {
    Particle {
        column: p.column,
        row: (p.row + 1) as u16,
        kind: match p.kind {
            Kind::Raining(c) => if p.row < height {
                Kind::Raining(fresh)
            } else {
                Kind::Raining(c)
            },
            Kind::Clearing => Kind::Clearing,
        },
    }
}

/// The writes of the first `n` particles of `ps`, in list order; particle `i`
/// uses `fresh[i]`.
pub open spec fn frame_writes(ps: Seq<Particle>, height: u16, fresh: Seq<char>, n: nat) -> Seq<Write>
    decreases n,
{
    if n == 0 {
        seq![]
    } else {
        frame_writes(ps, height, fresh, (n - 1) as nat) + writes_of(ps[n - 1], height, fresh[n - 1])
    }
}

/// Whether a particle is still on a screen `height` rows tall.
pub open spec fn on_screen(p: Particle, height: u16) -> bool {
    p.row < height
}

/// What is left of `ps` once the particles below the screen are removed.
pub open spec fn survivors(ps: Seq<Particle>, height: u16) -> Seq<Particle> {
    ps.filter(|p: Particle| on_screen(p, height))
}

/// Paints and moves one particle, appending its writes to `out`.
pub fn step_particle(p: &mut Particle, height: u16, fresh: char, out: &mut Vec<Write>)
    requires
        old(p).row < u16::MAX,
    ensures
        *final(p) == advanced(*old(p), height, fresh),
        final(out)@ == old(out)@ + writes_of(*old(p), height, fresh),
{
    let ghost out0 = out@;
    let column = p.column;
    let row = p.row;
    match p.kind {
        Kind::Raining(c) => {
            if row > 0 && row <= height {
                out.push(Write { column, row: row - 1, tone: Tone::Trail, glyph: c });
            }
            if row < height {
                out.push(Write { column, row, tone: Tone::Head, glyph: fresh });
                p.kind = Kind::Raining(fresh);
            }
        },
        Kind::Clearing => {
            if row < height {
                out.push(Write { column, row, tone: Tone::Unchanged, glyph: BLANK });
            }
        },
    }
    p.row = row + 1;
    assert(out@ =~= out0 + writes_of(*old(p), height, fresh));
}

/// Lets every particle paint and move one row down, in list order, and returns
/// the writes of the frame. Particle `i` paints `fresh[i]` as its new head.
pub fn render(particles: &mut Vec<Particle>, height: u16, fresh: &Vec<char>) -> (writes: Vec<Write>)
    requires
        fresh.len() == old(particles).len(),
        forall|i: int| 0 <= i < old(particles).len() ==> #[trigger] old(particles)[i].row < u16::MAX,
    ensures
        final(particles).len() == old(particles).len(),
        forall|i: int|
            0 <= i < old(particles).len() ==> #[trigger] final(particles)[i] == advanced(
                old(particles)[i],
                height,
                fresh[i],
            ),
        writes@ == frame_writes(old(particles)@, height, fresh@, old(particles).len() as nat),
{
    let ghost ps0 = particles@;
    let n = particles.len();
    let mut writes: Vec<Write> = Vec::new();
    let mut i: usize = 0;
    while i < n
        invariant
            n == ps0.len(),
            fresh.len() == n,
            0 <= i <= n,
            particles.len() == n,
            forall|j: int| 0 <= j < n ==> #[trigger] ps0[j].row < u16::MAX,
            forall|j: int| i <= j < n ==> #[trigger] particles[j] == ps0[j],
            forall|j: int|
                0 <= j < i ==> #[trigger] particles[j] == advanced(ps0[j], height, fresh[j]),
            writes@ == frame_writes(ps0, height, fresh@, i as nat),
        decreases n - i,
    {
        let mut p = particles[i];
        step_particle(&mut p, height, fresh[i], &mut writes);
        particles.set(i, p);
        i = i + 1;
    }
    writes
}

/// Removes the particles that have fallen past the last row, keeping the order
/// of the others.
pub fn prune(particles: &mut Vec<Particle>, height: u16)
    ensures
        final(particles)@ == survivors(old(particles)@, height),
{
    let ghost ps0 = particles@;
    let n = particles.len();
    let mut kept: Vec<Particle> = Vec::new();
    let mut i: usize = 0;
    while i < n
        invariant
            n == ps0.len(),
            particles@ == ps0,
            0 <= i <= n,
            kept@ == survivors(ps0.take(i as int), height),
        decreases n - i,
    {
        let p = particles[i];
        proof {
            reveal(Seq::filter);
            assert(ps0.take(i + 1).drop_last() =~= ps0.take(i as int));
        }
        if p.row < height {
            kept.push(p);
        }
        i = i + 1;
    }
    assert(ps0.take(n as int) =~= ps0);
    *particles = kept;
}

/// No write of a frame leaves the screen: each lands on a row in `0..height`,
/// and in a column below `width` when every particle stands in such a column.
pub proof fn lemma_frame_writes_in_bounds(
    ps: Seq<Particle>,
    height: u16,
    width: u16,
    fresh: Seq<char>,
    n: nat,
)
    requires
        n <= ps.len(),
        n <= fresh.len(),
        forall|i: int| 0 <= i < n ==> (#[trigger] ps[i]).column < width,
    ensures
        forall|k: int|
            0 <= k < frame_writes(ps, height, fresh, n).len() ==> {
                let w = #[trigger] frame_writes(ps, height, fresh, n)[k];
                w.row < height && w.column < width
            },
    decreases n,
{
    if n > 0 {
        lemma_frame_writes_in_bounds(ps, height, width, fresh, (n - 1) as nat);
        let before = frame_writes(ps, height, fresh, (n - 1) as nat);
        let last = writes_of(ps[n - 1], height, fresh[n - 1]);
        lemma_writes_of_in_bounds(ps[n - 1], height, fresh[n - 1]);
        assert forall|k: int|
            0 <= k < frame_writes(ps, height, fresh, n).len() implies {
                let w = #[trigger] frame_writes(ps, height, fresh, n)[k];
                w.row < height && w.column < width
            } by {
            if k >= before.len() {
                assert(frame_writes(ps, height, fresh, n)[k] == last[k - before.len()]);
            } else {
                assert(frame_writes(ps, height, fresh, n)[k] == before[k]);
            }
        }
    }
}

/// Each write of a particle is in its column and on a row in `0..height`.
proof fn lemma_writes_of_in_bounds(p: Particle, height: u16, fresh: char)
    ensures
        forall|k: int|
            0 <= k < writes_of(p, height, fresh).len() ==> {
                let w = #[trigger] writes_of(p, height, fresh)[k];
                w.row < height && w.column == p.column
            },
{
    match p.kind {
        Kind::Raining(c) => {
            let ws = writes_of(p, height, fresh);
            if 0 < p.row && p.row <= height {
                assert(ws[0].row < height);
            }
        },
        Kind::Clearing => {},
    }
}

/// A particle never paints the same cell twice in one frame.
pub proof fn lemma_writes_distinct(p: Particle, height: u16, fresh: char)
    ensures
        forall|a: int, b: int|
            0 <= a < b < writes_of(p, height, fresh).len() ==> {
                let wa = #[trigger] writes_of(p, height, fresh)[a];
                let wb = #[trigger] writes_of(p, height, fresh)[b];
                wa.column != wb.column || wa.row != wb.row
            },
{
}

/// Pruning keeps exactly the particles that are still on screen: every
/// survivor is above the last row, and a particle survives if and only if it
/// was in the list and is on screen.
pub proof fn lemma_survivors_on_screen(ps: Seq<Particle>, height: u16)
    ensures
        forall|i: int|
            0 <= i < survivors(ps, height).len() ==> (#[trigger] survivors(ps, height)[i]).row
                < height,
        forall|p: Particle|
            #[trigger] survivors(ps, height).contains(p) <==> ps.contains(p) && p.row < height,
{
    broadcast use vstd::seq_lib::group_filter_ensures;
    let pred = |p: Particle| on_screen(p, height);
    assert forall|i: int| 0 <= i < survivors(ps, height).len() implies (#[trigger] survivors(
        ps,
        height,
    )[i]).row < height by {
        ps.lemma_filter_pred(pred, i);
    }
    assert forall|p: Particle|
        #[trigger] survivors(ps, height).contains(p) <==> ps.contains(p) && p.row < height by {
        if survivors(ps, height).contains(p) {
            ps.lemma_filter_contains_rev(pred, p);
        }
        if ps.contains(p) && p.row < height {
            let i = choose|i: int| 0 <= i < ps.len() && ps[i] == p;
            ps.lemma_filter_contains(pred, i);
        }
    }
}

} // verus!
