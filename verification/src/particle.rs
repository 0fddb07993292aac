use vstd::prelude::*;
use crate::color::Color;
use crate::geometry::{Size, FULL_TURN};
use crate::random::uniform_between;

verus! {

/// How far every particle drifts to the right in one frame.
pub const DRIFT_X: u32 = 1;

/// The exclusive upper end of the distance a particle falls in one frame.
pub const FALL_SPAN: u32 = 50;

/// The exclusive upper end of the angle a rotating particle turns in one
/// frame.
pub const SPIN_SPAN: u32 = 50;

/// The two kinds of particle.
#[derive(Clone, Copy, Debug, PartialEq, Eq, Structural)]
pub enum ParticleKind {
    Ambient,
    Rotating,
}

/// One drifting sprite. Both kinds have a position and a colour; a rotating
/// particle also has the angle it is currently turned by.
#[derive(Clone, Copy, Debug, PartialEq, Eq, Structural)]
pub enum Particle {
    Ambient { x: i64, y: i64, color: Color },
    Rotating { x: i64, y: i64, color: Color, rotation: u32 },
}

/// Where a coordinate at `position` stands after moving by `increment`: past
/// `limit` it re-enters at one `extent` before the origin.
pub open spec fn wrapped(position: int, increment: int, limit: int, extent: int) -> int {
    if position + increment > limit {
        -extent
    } else {
        position + increment
    }
}

/// The angle after turning `rotation` by `increment`: a turn that would
/// reach a full turn starts again at zero.
pub open spec fn turned(rotation: int, increment: int) -> int {
    if rotation + increment < FULL_TURN {
        rotation + increment
    } else {
        0
    }
}

impl Particle {
    pub open spec fn spec_kind(&self) -> ParticleKind {
        match *self {
            Particle::Ambient { .. } => ParticleKind::Ambient,
            Particle::Rotating { .. } => ParticleKind::Rotating,
        }
    }

    pub open spec fn spec_x(&self) -> i64 {
        match *self {
            Particle::Ambient { x, .. } => x,
            Particle::Rotating { x, .. } => x,
        }
    }

    pub open spec fn spec_y(&self) -> i64 {
        match *self {
            Particle::Ambient { y, .. } => y,
            Particle::Rotating { y, .. } => y,
        }
    }

    pub open spec fn spec_color(&self) -> Color {
        match *self {
            Particle::Ambient { color, .. } => color,
            Particle::Rotating { color, .. } => color,
        }
    }

    /// The angle the particle is turned by; an ambient particle is never
    /// turned.
    pub open spec fn spec_rotation(&self) -> u32 {
        match *self {
            Particle::Ambient { .. } => 0,
            Particle::Rotating { rotation, .. } => rotation,
        }
    }

    #[verifier::when_used_as_spec(spec_kind)]
    pub fn kind(&self) -> (kind: ParticleKind)
        ensures
            kind == self.spec_kind(),
    {
        match self {
            Particle::Ambient { .. } => ParticleKind::Ambient,
            Particle::Rotating { .. } => ParticleKind::Rotating,
        }
    }

    #[verifier::when_used_as_spec(spec_x)]
    pub fn x(&self) -> (x: i64)
        ensures
            x == self.spec_x(),
    {
        match self {
            Particle::Ambient { x, .. } => *x,
            Particle::Rotating { x, .. } => *x,
        }
    }

    #[verifier::when_used_as_spec(spec_y)]
    pub fn y(&self) -> (y: i64)
        ensures
            y == self.spec_y(),
    {
        match self {
            Particle::Ambient { y, .. } => *y,
            Particle::Rotating { y, .. } => *y,
        }
    }

    #[verifier::when_used_as_spec(spec_color)]
    pub fn color(&self) -> (color: Color)
        ensures
            color == self.spec_color(),
    {
        match self {
            Particle::Ambient { color, .. } => *color,
            Particle::Rotating { color, .. } => *color,
        }
    }

    #[verifier::when_used_as_spec(spec_rotation)]
    pub fn rotation(&self) -> (rotation: u32)
        ensures
            rotation == self.spec_rotation(),
    {
        match self {
            Particle::Ambient { .. } => 0,
            Particle::Rotating { rotation, .. } => *rotation,
        }
    }

    /// The particle of the given kind at the given place; `rotation` is
    /// what a rotating particle starts with and is not kept by an ambient
    /// one.
    pub open spec fn placed_at(kind: ParticleKind, x: i64, y: i64, rotation: u32, color: Color) -> Particle {
        match kind {
            ParticleKind::Ambient => Particle::Ambient { x, y, color },
            ParticleKind::Rotating => Particle::Rotating { x, y, color, rotation },
        }
    }

    pub fn placed(kind: ParticleKind, x: i64, y: i64, rotation: u32, color: Color) -> (particle:
        Particle)
        ensures
            particle == Particle::placed_at(kind, x, y, rotation, color),
    {
        match kind {
            ParticleKind::Ambient => Particle::Ambient { x, y, color },
            ParticleKind::Rotating => Particle::Rotating { x, y, color, rotation },
        }
    }

    /// The angle is below a full turn.
    pub open spec fn well_formed(&self) -> bool {
        self.rotation() < FULL_TURN
    }

    /// The particle lies between one `extent` before the origin and the far
    /// edge of the viewport, on both axes.
    pub open spec fn within(&self, extent: u32, viewport: Size) -> bool {
        &&& -extent <= self.x() <= viewport.width
        &&& -extent <= self.y() <= viewport.height
    }

    /// The particle is one that `spawn` can make for this viewport, kind
    /// and colour.
    pub open spec fn spawned_in(&self, viewport: Size, kind: ParticleKind, color: Color) -> bool {
        &&& self.kind() == kind
        &&& self.color() == color
        &&& 0 <= self.x() <= viewport.width
        &&& 0 < viewport.width ==> self.x() < viewport.width
        &&& 0 <= self.y() <= viewport.height
        &&& 0 < viewport.height ==> self.y() < viewport.height
        &&& self.rotation() < FULL_TURN
    }

    /// The particle one frame later, when it falls by `fall` and, if it
    /// rotates, turns by `spin`.
    pub open spec fn stepped(&self, fall: u32, spin: u32, extent: u32, viewport: Size) -> Particle {
        let x = wrapped(self.x() as int, DRIFT_X as int, viewport.width as int, extent as int) as i64;
        let y = wrapped(self.y() as int, fall as int, viewport.height as int, extent as int) as i64;
        match *self {
            Particle::Ambient { color, .. } => Particle::Ambient { x, y, color },
            Particle::Rotating { color, rotation, .. } => Particle::Rotating {
                x,
                y,
                color,
                rotation: turned(rotation as int, spin as int) as u32,
            },
        }
    }

    /// `self` is what `before` can become in one frame: some fall and some
    /// spin within their spans lead from one to the other.
    pub open spec fn advanced_from(&self, before: Particle, extent: u32, viewport: Size) -> bool {
        exists|fall: u32, spin: u32|
            fall < FALL_SPAN && spin < SPIN_SPAN && *self == #[trigger] before.stepped(
                fall,
                spin,
                extent,
                viewport,
            )
    }

    /// Moves the particle by one frame for the given fall and spin.
    pub fn advanced(&self, fall: u32, spin: u32, extent: u32, viewport: Size) -> (next: Particle)
        ensures
            next == self.stepped(fall, spin, extent, viewport),
    {
        let x = advance_coordinate(self.x(), DRIFT_X, viewport.width, extent);
        let y = advance_coordinate(self.y(), fall, viewport.height, extent);
        match self {
            Particle::Ambient { color, .. } => Particle::Ambient { x, y, color: *color },
            Particle::Rotating { color, rotation, .. } => Particle::Rotating {
                x,
                y,
                color: *color,
                rotation: advance_rotation(*rotation, spin),
            },
        }
    }
}

/// Moves one coordinate by `increment` and wraps it when it passes `limit`.
pub fn advance_coordinate(position: i64, increment: u32, limit: u32, extent: u32) -> (next: i64)
    ensures
        next == wrapped(position as int, increment as int, limit as int, extent as int),
{
    if position > limit as i64 - increment as i64 {
        -(extent as i64)
    } else {
        position + increment as i64
    }
}

/// Turns an angle by `increment` and resets it when it would reach a full
/// turn.
pub fn advance_rotation(rotation: u32, increment: u32) -> (next: u32)
    ensures
        next == turned(rotation as int, increment as int),
{
    if rotation < FULL_TURN && increment < FULL_TURN - rotation {
        rotation + increment
    } else {
        0
    }
}

/// Makes one particle per palette entry, each at a random position inside
/// the viewport; a rotating particle also starts at a random angle below a
/// full turn.
pub fn spawn(viewport: Size, palette: &Vec<Color>, kind: ParticleKind) -> (field: Vec<Particle>)
    ensures
        field.len() == palette.len(),
        forall|i: int|
            0 <= i < field.len() ==> (#[trigger] field[i]).spawned_in(viewport, kind, palette[i]),
{
    let mut field: Vec<Particle> = Vec::new();
    let mut made: usize = 0;
    while made < palette.len()
        invariant
            made <= palette.len(),
            field.len() == made,
            forall|i: int|
                0 <= i < made ==> (#[trigger] field[i]).spawned_in(viewport, kind, palette[i]),
        decreases palette.len() - made,
    {
        let x = uniform_between(0, viewport.width);
        let y = uniform_between(0, viewport.height);
        let rotation = match kind {
            ParticleKind::Ambient => 0,
            ParticleKind::Rotating => uniform_between(0, FULL_TURN),
        };
        field.push(Particle::placed(kind, x as i64, y as i64, rotation, palette[made]));
        made += 1;
    }
    field
}

/// Moves every particle of the field by one frame, in place. Each drifts
/// right by a fixed step and falls by its own random distance; a coordinate
/// that passes the viewport's far edge wraps to one `particle_extent` before
/// the origin. A rotating particle also turns by its own random angle.
pub fn advance(particles: &mut Vec<Particle>, particle_extent: u32, viewport: Size)
    ensures
        final(particles).len() == old(particles).len(),
        forall|i: int|
            0 <= i < old(particles).len() ==> (#[trigger] final(particles)[i]).advanced_from(
                old(particles)[i],
                particle_extent,
                viewport,
            ),
{
    let count = particles.len();
    let mut done: usize = 0;
    while done < count
        invariant
            done <= count,
            particles.len() == count,
            count == old(particles).len(),
            forall|i: int|
                0 <= i < done ==> (#[trigger] particles[i]).advanced_from(
                    old(particles)[i],
                    particle_extent,
                    viewport,
                ),
            forall|i: int| done <= i < count ==> particles[i] == old(particles)[i],
        decreases count - done,
    {
        let before = particles[done];
        let fall = uniform_between(0, FALL_SPAN);
        let spin = match before.kind() {
            ParticleKind::Ambient => 0,
            ParticleKind::Rotating => uniform_between(0, SPIN_SPAN),
        };
        let next = before.advanced(fall, spin, particle_extent, viewport);
        particles.set(done, next);
        done += 1;
    }
}

/// A freshly spawned particle lies within the bounds that drifting keeps,
/// whatever the particle extent, and its angle is below a full turn.
pub proof fn lemma_spawned_within(
    particle: Particle,
    viewport: Size,
    kind: ParticleKind,
    color: Color,
    extent: u32,
)
    requires
        particle.spawned_in(viewport, kind, color),
    ensures
        particle.within(extent, viewport),
        particle.well_formed(),
{
}

/// One frame keeps a particle within bounds: if it lay between one extent
/// before the origin and the viewport's far edge, it still does. A
/// coordinate that would pass the far edge stands at exactly minus the
/// extent afterwards. The angle afterwards is below a full turn whatever it
/// was before, and is exactly zero when the turn would have reached a full
/// turn.
pub proof fn lemma_step_within(
    before: Particle,
    fall: u32,
    spin: u32,
    extent: u32,
    viewport: Size,
)
    requires
        before.within(extent, viewport),
    ensures
        before.stepped(fall, spin, extent, viewport).within(extent, viewport),
        before.stepped(fall, spin, extent, viewport).well_formed(),
        before.stepped(fall, spin, extent, viewport).kind() == before.kind(),
        before.stepped(fall, spin, extent, viewport).color() == before.color(),
        before.x() + DRIFT_X > viewport.width ==> before.stepped(
            fall,
            spin,
            extent,
            viewport,
        ).x() == -extent,
        before.x() + DRIFT_X <= viewport.width ==> before.stepped(
            fall,
            spin,
            extent,
            viewport,
        ).x() == before.x() + DRIFT_X,
        before.y() + fall > viewport.height ==> before.stepped(fall, spin, extent, viewport).y()
            == -extent,
        before.y() + fall <= viewport.height ==> before.stepped(fall, spin, extent, viewport).y()
            == before.y() + fall,
        before.kind() == ParticleKind::Rotating && before.rotation() + spin >= FULL_TURN
            ==> before.stepped(fall, spin, extent, viewport).rotation() == 0,
        before.kind() == ParticleKind::Rotating && before.rotation() + spin < FULL_TURN
            ==> before.stepped(fall, spin, extent, viewport).rotation() == before.rotation()
            + spin,
{
}

/// Whatever is drawn, one frame keeps a particle within bounds, of its kind
/// and in its colour, and leaves its angle below a full turn.
pub proof fn lemma_advance_within(before: Particle, after: Particle, extent: u32, viewport: Size)
    requires
        after.advanced_from(before, extent, viewport),
        before.within(extent, viewport),
    ensures
        after.within(extent, viewport),
        after.well_formed(),
        after.kind() == before.kind(),
        after.color() == before.color(),
{
    let (fall, spin) = choose|fall: u32, spin: u32|
        fall < FALL_SPAN && spin < SPIN_SPAN && after == #[trigger] before.stepped(
            fall,
            spin,
            extent,
            viewport,
        );
    lemma_step_within(before, fall, spin, extent, viewport);
}

/// `trace` lists the states of one particle over successive frames: each
/// entry after the first is what its predecessor can become in one frame.
pub open spec fn drift_trace(trace: Seq<Particle>, extent: u32, viewport: Size) -> bool {
    forall|k: int|
        1 <= k < trace.len() ==> (#[trigger] trace[k]).advanced_from(
            trace[k - 1],
            extent,
            viewport,
        )
}

/// However many frames pass, a particle that started within bounds is within
/// bounds in every frame, and from the first frame on its angle is below a
/// full turn.
pub proof fn lemma_trace_within(trace: Seq<Particle>, extent: u32, viewport: Size)
    requires
        drift_trace(trace, extent, viewport),
        0 < trace.len(),
        trace[0].within(extent, viewport),
    ensures
        forall|k: int| 0 <= k < trace.len() ==> (#[trigger] trace[k]).within(extent, viewport),
        forall|k: int| 1 <= k < trace.len() ==> (#[trigger] trace[k]).well_formed(),
        forall|k: int|
            0 <= k < trace.len() ==> (#[trigger] trace[k]).kind() == trace[0].kind()
                && trace[k].color() == trace[0].color(),
    decreases trace.len(),
{
    if trace.len() > 1 {
        let last = trace.len() - 1;
        let shorter = trace.drop_last();
        assert forall|k: int| 1 <= k < shorter.len() implies (#[trigger] shorter[k]).advanced_from(
            shorter[k - 1],
            extent,
            viewport,
        ) by {
            assert(trace[k].advanced_from(trace[k - 1], extent, viewport));
        }
        lemma_trace_within(shorter, extent, viewport);
        assert(shorter[last - 1] == trace[last - 1]);
        assert(trace[last].advanced_from(trace[last - 1], extent, viewport));
        lemma_advance_within(trace[last - 1], trace[last], extent, viewport);
        assert forall|k: int| 0 <= k < trace.len() implies (#[trigger] trace[k]).within(
            extent,
            viewport,
        ) && trace[k].kind() == trace[0].kind() && trace[k].color() == trace[0].color() by {
            if k < last {
                assert(shorter[k] == trace[k]);
            }
        }
        assert forall|k: int| 1 <= k < trace.len() implies (#[trigger] trace[k]).well_formed() by {
            if k < last {
                assert(shorter[k] == trace[k]);
            }
        }
    }
}

} // verus!
