use vstd::prelude::*;
use crate::color::Color;
use crate::geometry::{Point, Size, FULL_TURN};
use crate::layout::{center_image, image_origin, is_strictly_inside, strictly_inside};
use crate::particle::{advance, lemma_advance_within, spawn, Particle, ParticleKind};
use crate::random::uniform_between;
use crate::scene::{Catalog, FocalImage, SceneDescriptor};

verus! {

/// How far the focal image turns in one frame.
pub const IMAGE_SPIN_STEP: u32 = 25;

/// The exclusive upper end of the roll that decides on a change of font.
pub const FONT_ROLL_SPAN: u32 = 100;

/// The font changes when the roll is above this.
pub const FONT_ROLL_THRESHOLD: u32 = 97;

/// What stays fixed while the sequence runs.
#[derive(Clone, Copy, Debug, PartialEq, Eq, Structural)]
pub struct ControllerConfig {
    /// How many caption fonts the renderer holds.
    pub font_count: usize,
    /// How far below its centred place the focal image stands.
    pub vertical_offset: i32,
    /// The margin at which an ambient particle re-enters after wrapping.
    pub ambient_extent: u32,
    /// The margin at which a rotating particle re-enters after wrapping.
    pub rotating_extent: u32,
}

/// What the host observed at the start of a frame.
#[derive(Clone, Copy, Debug, PartialEq, Eq, Structural)]
pub struct TickInput {
    pub viewport: Size,
    pub pointer: Point,
    pub pressed: bool,
}

/// How the focal image is to be drawn.
#[derive(Clone, Copy, Debug, PartialEq, Eq, Structural)]
pub struct ImageDraw {
    pub image: FocalImage,
    pub position: Point,
    pub rotation: u32,
    pub tint: Color,
}

/// The state of a running sequence together with the catalog it runs over.
pub struct SceneController {
    catalog: Catalog,
    config: ControllerConfig,
    scene_index: usize,
    particles: Vec<Particle>,
    image_position: Point,
    viewport: Size,
    image_rotation: u32,
    font_index: usize,
}

/// The scene that is active after a frame: the next one if the pointer was
/// pressed inside the focal image and a next scene exists, else the same.
pub open spec fn next_scene(index: int, scene_count: int, inside: bool, pressed: bool) -> int {
    if inside && pressed && index + 1 < scene_count {
        index + 1
    } else {
        index
    }
}

/// The font after `current`, going back to the first after the last.
pub open spec fn next_font(current: int, font_count: int) -> int {
    if current + 1 < font_count {
        current + 1
    } else {
        0
    }
}

/// The font that is selected after a roll.
pub open spec fn font_after_roll(roll: int, current: int, font_count: int) -> int {
    if roll > FONT_ROLL_THRESHOLD {
        next_font(current, font_count)
    } else {
        current
    }
}

/// The focal image's angle one frame later: it grows by a fixed step until
/// it has reached a full turn, then starts again at zero.
pub open spec fn next_phase(phase: int) -> int {
    if phase < FULL_TURN {
        phase + IMAGE_SPIN_STEP
    } else {
        0
    }
}

/// The field belongs to the scene: one particle per palette entry, of the
/// scene's kind and in the entry's colour, each within the bounds that
/// drifting keeps and turned by less than a full turn.
pub open spec fn field_matches(
    field: Seq<Particle>,
    scene: SceneDescriptor,
    extent: u32,
    viewport: Size,
) -> bool {
    &&& field.len() == scene.palette.len()
    &&& forall|i: int|
        0 <= i < field.len() ==> {
            &&& (#[trigger] field[i]).kind() == scene.kind
            &&& field[i].color() == scene.palette[i]
            &&& field[i].within(extent, viewport)
            &&& field[i].well_formed()
        }
}

/// The particle is one frame past a fresh spawn in the viewport.
pub open spec fn fresh_after_one_frame(
    particle: Particle,
    viewport: Size,
    kind: ParticleKind,
    color: Color,
    extent: u32,
) -> bool {
    exists|fresh: Particle|
        fresh.spawned_in(viewport, kind, color) && #[trigger] particle.advanced_from(
            fresh,
            extent,
            viewport,
        )
}

impl ControllerConfig {
    /// The re-entry margin of a particle of the given kind.
    pub open spec fn spec_particle_extent(&self, kind: ParticleKind) -> u32 {
        match kind {
            ParticleKind::Ambient => self.ambient_extent,
            ParticleKind::Rotating => self.rotating_extent,
        }
    }

    #[verifier::when_used_as_spec(spec_particle_extent)]
    pub fn particle_extent(&self, kind: ParticleKind) -> (extent: u32)
        ensures
            extent == self.spec_particle_extent(kind),
    {
        match kind {
            ParticleKind::Ambient => self.ambient_extent,
            ParticleKind::Rotating => self.rotating_extent,
        }
    }
}

/// Decides which scene is active after a frame.
pub fn next_scene_index(index: usize, scene_count: usize, inside: bool, pressed: bool) -> (next:
    usize)
    ensures
        next == next_scene(index as int, scene_count as int, inside, pressed),
{
    if inside && pressed && scene_count > 0 && index < scene_count - 1 {
        index + 1
    } else {
        index
    }
}

/// Picks the font after `current_index`, going back to the first after the
/// last.
pub fn get_next_font_index(font_count: usize, current_index: usize) -> (next: usize)
    ensures
        next == next_font(current_index as int, font_count as int),
{
    if font_count > 0 && current_index < font_count - 1 {
        current_index + 1
    } else {
        0
    }
}

/// Picks the font that is selected after a roll.
pub fn font_index_after_roll(roll: u32, font_count: usize, current_index: usize) -> (next: usize)
    ensures
        next == font_after_roll(roll as int, current_index as int, font_count as int),
{
    if roll > FONT_ROLL_THRESHOLD {
        get_next_font_index(font_count, current_index)
    } else {
        current_index
    }
}

/// Turns the focal image by one frame.
pub fn advance_phase(phase: u32) -> (next: u32)
    ensures
        next == next_phase(phase as int),
{
    if phase < FULL_TURN {
        phase + IMAGE_SPIN_STEP
    } else {
        0
    }
}

/// The sequence moves on exactly when the pointer is pressed inside the
/// focal image and the active scene is not the last; it never moves
/// anywhere but to the next scene, and never leaves the last.
pub proof fn lemma_transition(index: int, scene_count: int, inside: bool, pressed: bool)
    requires
        0 <= index < scene_count,
    ensures
        next_scene(index, scene_count, inside, pressed) == index + 1 <==> inside && pressed
            && index + 1 < scene_count,
        next_scene(index, scene_count, inside, pressed) == index || next_scene(
            index,
            scene_count,
            inside,
            pressed,
        ) == index + 1,
        next_scene(index, scene_count, inside, pressed) < scene_count,
        index == scene_count - 1 ==> next_scene(index, scene_count, inside, pressed) == index,
{
}

impl SceneController {
    pub closed spec fn spec_catalog(&self) -> &Catalog {
        &self.catalog
    }

    pub closed spec fn spec_config(&self) -> ControllerConfig {
        self.config
    }

    pub closed spec fn spec_scene_index(&self) -> usize {
        self.scene_index
    }

    pub closed spec fn spec_particles(&self) -> &Vec<Particle> {
        &self.particles
    }

    pub closed spec fn spec_image_position(&self) -> Point {
        self.image_position
    }

    pub closed spec fn spec_viewport(&self) -> Size {
        self.viewport
    }

    pub closed spec fn spec_image_rotation(&self) -> u32 {
        self.image_rotation
    }

    pub closed spec fn spec_font_index(&self) -> usize {
        self.font_index
    }

    /// The active scene.
    pub open spec fn spec_scene(&self) -> &SceneDescriptor {
        &self.catalog()@[self.scene_index() as int]
    }

    /// The re-entry margin of the active scene's particles.
    pub open spec fn extent(&self) -> u32 {
        self.config().particle_extent(self.scene().kind)
    }

    /// The pointer is strictly inside the focal image as it is placed now.
    pub open spec fn spec_pointer_on_image(&self, pointer: Point) -> bool {
        strictly_inside(pointer, self.image_position(), self.scene().image.size)
    }

    /// What holds of a controller between frames: the active scene exists,
    /// the focal image stands where the centring rule puts it for the
    /// stored viewport, the particle field is the active scene's, and the
    /// counters are in range.
    #[verifier::type_invariant]
    pub open spec fn well_formed(&self) -> bool {
        &&& self.catalog().well_formed()
        &&& self.scene_index() < self.catalog()@.len()
        &&& self.image_position() == image_origin(
            self.viewport(),
            self.scene().image.size,
            self.config().vertical_offset,
        )
        &&& field_matches(self.particles()@, *self.scene(), self.extent(), self.viewport())
        &&& self.image_rotation() < FULL_TURN + IMAGE_SPIN_STEP
        &&& self.font_index() == 0 || self.font_index() < self.config().font_count
    }

    #[verifier::when_used_as_spec(spec_catalog)]
    pub fn catalog(&self) -> (catalog: &Catalog)
        ensures
            catalog == self.spec_catalog(),
            catalog.well_formed(),
    {
        proof {
            use_type_invariant(self);
        }
        &self.catalog
    }

    #[verifier::when_used_as_spec(spec_config)]
    pub fn config(&self) -> (config: ControllerConfig)
        ensures
            config == self.spec_config(),
    {
        self.config
    }

    /// The index of the active scene.
    #[verifier::when_used_as_spec(spec_scene_index)]
    pub fn scene_index(&self) -> (index: usize)
        ensures
            index == self.spec_scene_index(),
            index < self.catalog()@.len(),
    {
        proof {
            use_type_invariant(self);
        }
        self.scene_index
    }

    /// The live particle field, in drawing order.
    #[verifier::when_used_as_spec(spec_particles)]
    pub fn particles(&self) -> (particles: &Vec<Particle>)
        ensures
            particles == self.spec_particles(),
            field_matches(particles@, *self.scene(), self.extent(), self.viewport()),
    {
        proof {
            use_type_invariant(self);
        }
        &self.particles
    }

    /// Where the focal image is drawn.
    #[verifier::when_used_as_spec(spec_image_position)]
    pub fn image_position(&self) -> (position: Point)
        ensures
            position == self.spec_image_position(),
            position == image_origin(
                self.viewport(),
                self.scene().image.size,
                self.config().vertical_offset,
            ),
    {
        proof {
            use_type_invariant(self);
        }
        self.image_position
    }

    /// The viewport size seen in the last frame.
    #[verifier::when_used_as_spec(spec_viewport)]
    pub fn viewport(&self) -> (viewport: Size)
        ensures
            viewport == self.spec_viewport(),
    {
        self.viewport
    }

    /// The angle the focal image is turned by.
    #[verifier::when_used_as_spec(spec_image_rotation)]
    pub fn image_rotation(&self) -> (rotation: u32)
        ensures
            rotation == self.spec_image_rotation(),
            rotation < FULL_TURN + IMAGE_SPIN_STEP,
    {
        proof {
            use_type_invariant(self);
        }
        self.image_rotation
    }

    /// The index of the selected caption font.
    #[verifier::when_used_as_spec(spec_font_index)]
    pub fn font_index(&self) -> (index: usize)
        ensures
            index == self.spec_font_index(),
            index == 0 || index < self.config().font_count,
    {
        proof {
            use_type_invariant(self);
        }
        self.font_index
    }

    /// The active scene.
    #[verifier::when_used_as_spec(spec_scene)]
    pub fn scene(&self) -> (scene: &SceneDescriptor)
        ensures
            scene == self.spec_scene(),
            scene.well_formed(),
    {
        proof {
            use_type_invariant(self);
        }
        self.catalog.scene(self.scene_index)
    }

    /// The colour to clear the frame to.
    pub fn background(&self) -> (color: Color)
        ensures
            color == self.scene().background,
            color.normalized(),
    {
        self.scene().background
    }

    /// Tells whether the active scene is the last, from which the sequence
    /// does not move on.
    pub fn is_terminal(&self) -> (last: bool)
        ensures
            last == (self.scene_index() + 1 == self.catalog()@.len()),
    {
        proof {
            use_type_invariant(self);
        }
        let scene_count = self.catalog.len();
        self.scene_index == scene_count - 1
    }

    /// Tells whether the pointer is strictly inside the focal image as it
    /// is placed now.
    #[verifier::when_used_as_spec(spec_pointer_on_image)]
    pub fn pointer_on_image(&self, pointer: Point) -> (inside: bool)
        ensures
            inside == self.spec_pointer_on_image(pointer),
    {
        is_strictly_inside(pointer, self.image_position, self.scene().image.size)
    }

    /// How the focal image is to be drawn: untinted, at its place, moved
    /// down by `y_offset` if one is given, and turned by its current angle.
    pub fn image_draw(&self, y_offset: Option<i32>) -> (draw: ImageDraw)
        ensures
            draw.image == self.scene().image,
            draw.position.x == self.image_position().x,
            draw.position.y == self.image_position().y + match y_offset {
                Some(offset) => offset as int,
                None => 0,
            },
            draw.rotation == self.image_rotation(),
            draw.tint == Color::white(),
    {
        proof {
            use_type_invariant(self);
        }
        let y = match y_offset {
            Some(offset) => self.image_position.y + offset as i64,
            None => self.image_position.y,
        };
        ImageDraw {
            image: self.scene().image,
            position: Point { x: self.image_position.x, y },
            rotation: self.image_rotation,
            tint: Color::white(),
        }
    }

    /// Starts the sequence at the first scene: the focal image is centred,
    /// a fresh particle field is spawned, and angle and font start at zero.
    pub fn start(catalog: Catalog, config: ControllerConfig, viewport: Size) -> (controller:
        SceneController)
        ensures
            controller.well_formed(),
            *controller.catalog() == catalog,
            controller.config() == config,
            controller.scene_index() == 0,
            controller.viewport() == viewport,
            controller.image_position() == image_origin(
                viewport,
                catalog@[0].image.size,
                config.vertical_offset,
            ),
            controller.image_rotation() == 0,
            controller.font_index() == 0,
            controller.particles()@.len() == catalog@[0].palette.len(),
            forall|i: int|
                0 <= i < controller.particles()@.len() ==> (#[trigger] controller.particles()@[i]).spawned_in(
                    viewport,
                    catalog@[0].kind,
                    catalog@[0].palette[i],
                ),
    {
        proof {
            use_type_invariant(&catalog);
        }
        let first = catalog.scene(0);
        let image_position = center_image(viewport, first.image.size, config.vertical_offset);
        let particles = spawn(viewport, &first.palette, first.kind);
        SceneController {
            catalog,
            config,
            scene_index: 0,
            particles,
            image_position,
            viewport,
            image_rotation: 0,
            font_index: 0,
        }
    }

    /// Takes in what the host observed at the start of a frame.
    ///
    /// The sequence moves to the next scene if the pointer is pressed
    /// strictly inside the focal image and a next scene exists. The
    /// viewport is taken over from the input. If the scene or the viewport
    /// changed, the focal image is centred anew and the particle field is
    /// spawned anew, both for the scene that is now active and the viewport
    /// as it is now; the old particle positions are dropped. If neither
    /// changed, nothing changes.
    pub fn respond(self, input: TickInput) -> (next: SceneController)
        ensures
            next.well_formed(),
            next.catalog() == self.catalog(),
            next.config() == self.config(),
            next.scene_index() == next_scene(
                self.scene_index() as int,
                self.catalog()@.len() as int,
                self.pointer_on_image(input.pointer),
                input.pressed,
            ),
            next.viewport() == input.viewport,
            next.image_position() == image_origin(
                input.viewport,
                next.scene().image.size,
                self.config().vertical_offset,
            ),
            next.image_rotation() == self.image_rotation(),
            next.font_index() == self.font_index(),
            next.scene_index() == self.scene_index() && input.viewport == self.viewport() ==> next
                == self,
            !(self.pointer_on_image(input.pointer) && input.pressed) && input.viewport
                == self.viewport() ==> next == self,
            self.scene_index() + 1 == self.catalog()@.len() && input.viewport == self.viewport()
                ==> next == self,
            next.scene_index() != self.scene_index() || input.viewport != self.viewport() ==> {
                &&& next.particles()@.len() == next.scene().palette.len()
                &&& forall|i: int|
                    0 <= i < next.particles()@.len() ==> (#[trigger] next.particles()@[i]).spawned_in(
                        input.viewport,
                        next.scene().kind,
                        next.scene().palette[i],
                    )
            },
    {
        proof {
            use_type_invariant(&self);
        }
        let image = self.catalog.scene(self.scene_index).image;
        let inside = is_strictly_inside(input.pointer, self.image_position, image.size);
        let next_index = next_scene_index(
            self.scene_index,
            self.catalog.len(),
            inside,
            input.pressed,
        );
        if next_index == self.scene_index && input.viewport == self.viewport {
            return self;
        }
        let SceneController {
            catalog,
            config,
            scene_index: _,
            particles: _,
            image_position: _,
            viewport: _,
            image_rotation,
            font_index,
        } = self;
        let scene = catalog.scene(next_index);
        let image_position = center_image(input.viewport, scene.image.size, config.vertical_offset);
        let particles = spawn(input.viewport, &scene.palette, scene.kind);
        SceneController {
            catalog,
            config,
            scene_index: next_index,
            particles,
            image_position,
            viewport: input.viewport,
            image_rotation,
            font_index,
        }
    }

    /// Moves the animation on by one frame: every particle drifts, the
    /// focal image turns by one step, and a roll decides whether the next
    /// caption font is selected. Scene, viewport and image position stay.
    pub fn animate(self) -> (next: SceneController)
        ensures
            next.well_formed(),
            next.catalog() == self.catalog(),
            next.config() == self.config(),
            next.scene_index() == self.scene_index(),
            next.viewport() == self.viewport(),
            next.image_position() == self.image_position(),
            next.image_rotation() == next_phase(self.image_rotation() as int),
            next.font_index() == self.font_index() || next.font_index() == next_font(
                self.font_index() as int,
                self.config().font_count as int,
            ),
            next.particles()@.len() == self.particles()@.len(),
            forall|i: int|
                0 <= i < next.particles()@.len() ==> (#[trigger] next.particles()@[i]).advanced_from(
                    self.particles()@[i],
                    self.extent(),
                    self.viewport(),
                ),
    {
        proof {
            use_type_invariant(&self);
        }
        let SceneController {
            catalog,
            config,
            scene_index,
            particles,
            image_position,
            viewport,
            image_rotation,
            font_index,
        } = self;
        let mut particles = particles;
        let scene = catalog.scene(scene_index);
        let extent = config.particle_extent(scene.kind);
        let ghost settled = particles@;
        advance(&mut particles, extent, viewport);
        proof {
            assert forall|i: int| 0 <= i < particles@.len() implies {
                &&& (#[trigger] particles@[i]).kind() == scene.kind
                &&& particles@[i].color() == scene.palette[i]
                &&& particles@[i].within(extent, viewport)
                &&& particles@[i].well_formed()
            } by {
                lemma_advance_within(settled[i], particles@[i], extent, viewport);
            }
        }
        let image_rotation = advance_phase(image_rotation);
        let roll = uniform_between(0, FONT_ROLL_SPAN);
        let font_index = font_index_after_roll(roll, config.font_count, font_index);
        SceneController {
            catalog,
            config,
            scene_index,
            particles,
            image_position,
            viewport,
            image_rotation,
            font_index,
        }
    }

    /// Runs one whole frame: first `respond`, then `animate`.
    ///
    /// So the scene index, the viewport, the image position and the image
    /// angle after the frame are fixed by the input; each particle is one
    /// frame past where it was or, if the scene or the viewport changed,
    /// one frame past a fresh spawn; the font is the same or the next.
    pub fn tick(self, input: TickInput) -> (next: SceneController)
        ensures
            next.well_formed(),
            next.catalog() == self.catalog(),
            next.config() == self.config(),
            next.scene_index() == next_scene(
                self.scene_index() as int,
                self.catalog()@.len() as int,
                self.pointer_on_image(input.pointer),
                input.pressed,
            ),
            !(self.pointer_on_image(input.pointer) && input.pressed) ==> next.scene_index()
                == self.scene_index(),
            self.scene_index() + 1 == self.catalog()@.len() ==> next.scene_index()
                == self.scene_index(),
            next.viewport() == input.viewport,
            next.image_position() == image_origin(
                input.viewport,
                next.scene().image.size,
                self.config().vertical_offset,
            ),
            next.scene_index() == self.scene_index() && input.viewport == self.viewport()
                ==> next.image_position() == self.image_position(),
            next.image_rotation() == next_phase(self.image_rotation() as int),
            next.font_index() == self.font_index() || next.font_index() == next_font(
                self.font_index() as int,
                self.config().font_count as int,
            ),
            next.particles()@.len() == next.scene().palette.len(),
            next.scene_index() == self.scene_index() && input.viewport == self.viewport()
                ==> forall|i: int|
                0 <= i < next.particles()@.len() ==> (#[trigger] next.particles()@[i]).advanced_from(
                    self.particles()@[i],
                    next.extent(),
                    input.viewport,
                ),
            next.scene_index() != self.scene_index() || input.viewport != self.viewport()
                ==> forall|i: int|
                0 <= i < next.particles()@.len() ==> fresh_after_one_frame(
                    #[trigger] next.particles()@[i],
                    input.viewport,
                    next.scene().kind,
                    next.scene().palette[i],
                    next.extent(),
                ),
    {
        let responded = self.respond(input);
        let ghost settled = responded.particles()@;
        let next = responded.animate();
        proof {
            use_type_invariant(&next);
            if next.scene_index() != self.scene_index() || input.viewport != self.viewport() {
                assert forall|i: int| 0 <= i < next.particles()@.len() implies fresh_after_one_frame(
                    #[trigger] next.particles()@[i],
                    input.viewport,
                    next.scene().kind,
                    next.scene().palette[i],
                    next.extent(),
                ) by {
                    assert(settled[i].spawned_in(
                        input.viewport,
                        next.scene().kind,
                        next.scene().palette[i],
                    ));
                    assert(next.particles()@[i].advanced_from(
                        settled[i],
                        next.extent(),
                        input.viewport,
                    ));
                }
            }
        }
        next
    }
}

} // verus!
