use vstd::prelude::*;
use crate::color::{generate_palette, palette_color, ChannelAssignment, Color};
use crate::geometry::Size;
use crate::particle::ParticleKind;

verus! {

/// A reference to a decoded image that the renderer holds: the handle names
/// it, the size is what the renderer reports for it.
#[derive(Clone, Copy, Debug, PartialEq, Eq, Structural)]
pub struct FocalImage {
    pub handle: usize,
    pub size: Size,
}

/// The two colours a caption is drawn in: the face of the letters, and the
/// outline behind them.
#[derive(Clone, Copy, Debug, PartialEq, Eq, Structural)]
pub struct TextColors {
    pub primary: Color,
    pub outline: Color,
}

/// The parameters from which a scene's palette is generated.
#[derive(Clone, Copy, Debug)]
pub struct PaletteRecipe {
    pub count: usize,
    pub main_range: (u32, u32),
    pub secondary_scale: u32,
    pub assignment: ChannelAssignment,
}

/// One entry of the declarative scene list: everything about a scene but
/// its palette, which is generated from the recipe when the catalog is
/// built.
#[derive(Debug)]
pub struct ScenePlan {
    pub kind: ParticleKind,
    pub background: Color,
    pub image: FocalImage,
    pub caption: Vec<String>,
    pub text_colors: TextColors,
    pub recipe: PaletteRecipe,
}

/// One scene: what is drawn behind, the focal image, the caption with its
/// two colours, the particle kind, and one colour per particle.
#[derive(Debug)]
pub struct SceneDescriptor {
    pub kind: ParticleKind,
    pub background: Color,
    pub image: FocalImage,
    pub caption: Vec<String>,
    pub text_colors: TextColors,
    pub palette: Vec<Color>,
}

/// Why a list of scenes is not a catalog.
#[derive(Clone, Copy, Debug, PartialEq, Eq, Structural)]
pub enum CatalogError {
    /// The list holds no scene.
    Empty,
    /// The scene at this index is the first that is not valid.
    InvalidScene(usize),
}

/// The fixed, ordered sequence of scenes. It is never empty, and every
/// colour in it is normalised.
pub struct Catalog {
    scenes: Vec<SceneDescriptor>,
}

impl PaletteRecipe {
    /// The main range runs upwards to a positive end, and the secondary
    /// scale does not exceed that end, so that every generated channel is at
    /// most full intensity.
    pub open spec fn valid(self) -> bool {
        &&& self.main_range.0 <= self.main_range.1
        &&& 0 < self.main_range.1
        &&& self.secondary_scale <= self.main_range.1
    }

    pub fn is_valid(&self) -> (yes: bool)
        ensures
            yes == self.valid(),
    {
        self.main_range.0 <= self.main_range.1 && 0 < self.main_range.1 && self.secondary_scale
            <= self.main_range.1
    }
}

impl ScenePlan {
    /// The fixed colours are normalised and the recipe is valid.
    pub open spec fn valid(&self) -> bool {
        &&& self.background.normalized()
        &&& self.text_colors.primary.normalized()
        &&& self.text_colors.outline.normalized()
        &&& self.recipe.valid()
    }

    pub fn is_valid(&self) -> (yes: bool)
        ensures
            yes == self.valid(),
    {
        self.background.is_normalized() && self.text_colors.primary.is_normalized()
            && self.text_colors.outline.is_normalized() && self.recipe.is_valid()
    }
}

impl SceneDescriptor {
    /// Every colour of the scene is normalised.
    pub open spec fn well_formed(&self) -> bool {
        &&& self.background.normalized()
        &&& self.text_colors.primary.normalized()
        &&& self.text_colors.outline.normalized()
        &&& forall|i: int| 0 <= i < self.palette.len() ==> (#[trigger] self.palette[i]).normalized()
    }

    /// The scene is what `plan` describes: the fixed parts are the plan's,
    /// and the palette holds as many colours as the recipe asks for, each
    /// one that the generator can produce from the recipe.
    pub open spec fn realizes(&self, plan: ScenePlan) -> bool {
        &&& self.kind == plan.kind
        &&& self.background == plan.background
        &&& self.image == plan.image
        &&& self.caption == plan.caption
        &&& self.text_colors == plan.text_colors
        &&& self.palette.len() == plan.recipe.count
        &&& forall|i: int|
            0 <= i < self.palette.len() ==> palette_color(
                #[trigger] self.palette[i],
                plan.recipe.main_range.0 as int,
                plan.recipe.main_range.1 as int,
                plan.recipe.secondary_scale as int,
                plan.recipe.assignment,
            )
    }

    pub fn is_well_formed(&self) -> (yes: bool)
        ensures
            yes == self.well_formed(),
    {
        if !(self.background.is_normalized() && self.text_colors.primary.is_normalized()
            && self.text_colors.outline.is_normalized()) {
            return false;
        }
        let mut checked: usize = 0;
        while checked < self.palette.len()
            invariant
                checked <= self.palette.len(),
                forall|i: int| 0 <= i < checked ==> (#[trigger] self.palette[i]).normalized(),
            decreases self.palette.len() - checked,
        {
            if !self.palette[checked].is_normalized() {
                return false;
            }
            checked += 1;
        }
        true
    }

    /// Makes the scene that a plan describes, generating its palette; a
    /// plan that is not valid makes none.
    pub fn compose(plan: ScenePlan) -> (made: Option<SceneDescriptor>)
        ensures
            made is Some <==> plan.valid(),
            made matches Some(scene) ==> scene.realizes(plan) && scene.well_formed(),
    {
        if !plan.is_valid() {
            return None;
        }
        let ScenePlan { kind, background, image, caption, text_colors, recipe } = plan;
        let palette = generate_palette(
            recipe.count,
            recipe.main_range,
            recipe.secondary_scale,
            recipe.assignment,
        );
        Some(SceneDescriptor { kind, background, image, caption, text_colors, palette })
    }
}

/// The list is not empty and every scene in it is well formed.
pub open spec fn scenes_well_formed(scenes: Seq<SceneDescriptor>) -> bool {
    &&& 0 < scenes.len()
    &&& forall|i: int| 0 <= i < scenes.len() ==> (#[trigger] scenes[i]).well_formed()
}

/// `index` is the position of the first scene of the list that is not well
/// formed.
pub open spec fn first_ill_formed(scenes: Seq<SceneDescriptor>, index: int) -> bool {
    &&& 0 <= index < scenes.len()
    &&& !scenes[index].well_formed()
    &&& forall|i: int| 0 <= i < index ==> (#[trigger] scenes[i]).well_formed()
}

/// `index` is the position of the first plan of the list that is not valid.
pub open spec fn first_invalid(plans: Seq<ScenePlan>, index: int) -> bool {
    &&& 0 <= index < plans.len()
    &&& !plans[index].valid()
    &&& forall|i: int| 0 <= i < index ==> (#[trigger] plans[i]).valid()
}

impl View for Catalog {
    type V = Seq<SceneDescriptor>;

    closed spec fn view(&self) -> Seq<SceneDescriptor> {
        self.scenes@
    }
}

impl Catalog {
    #[verifier::type_invariant]
    pub open spec fn well_formed(&self) -> bool {
        scenes_well_formed(self@)
    }

    /// Accepts a list of ready-made scenes as a catalog if it is not empty
    /// and every scene in it is well formed.
    pub fn new(scenes: Vec<SceneDescriptor>) -> (made: Result<Catalog, CatalogError>)
        ensures
            made is Ok <==> scenes_well_formed(scenes@),
            made matches Ok(catalog) ==> catalog@ == scenes@ && catalog.well_formed(),
            made == Err::<Catalog, CatalogError>(CatalogError::Empty) <==> scenes.len() == 0,
            forall|index: usize|
                made == Err::<Catalog, CatalogError>(CatalogError::InvalidScene(index))
                    <==> first_ill_formed(scenes@, index as int),
    {
        if scenes.len() == 0 {
            return Err(CatalogError::Empty);
        }
        let mut checked: usize = 0;
        while checked < scenes.len()
            invariant
                checked <= scenes.len(),
                forall|i: int| 0 <= i < checked ==> (#[trigger] scenes[i]).well_formed(),
            decreases scenes.len() - checked,
        {
            if !scenes[checked].is_well_formed() {
                return Err(CatalogError::InvalidScene(checked));
            }
            checked += 1;
        }
        Ok(Catalog { scenes })
    }

    /// Builds the catalog that a declarative list of scenes describes,
    /// generating each scene's palette from its recipe. The list must not be
    /// empty and every plan in it must be valid.
    pub fn build(plans: Vec<ScenePlan>) -> (made: Result<Catalog, CatalogError>)
        ensures
            made is Ok <==> 0 < plans.len() && forall|i: int|
                0 <= i < plans.len() ==> (#[trigger] plans[i]).valid(),
            made matches Ok(catalog) ==> {
                &&& catalog.well_formed()
                &&& catalog@.len() == plans.len()
                &&& forall|i: int|
                    0 <= i < plans.len() ==> (#[trigger] catalog@[i]).realizes(plans[i])
            },
            made == Err::<Catalog, CatalogError>(CatalogError::Empty) <==> plans.len() == 0,
            forall|index: usize|
                made == Err::<Catalog, CatalogError>(CatalogError::InvalidScene(index))
                    <==> first_invalid(plans@, index as int),
    {
        if plans.len() == 0 {
            return Err(CatalogError::Empty);
        }
        let ghost listed = plans@;
        let mut scenes: Vec<SceneDescriptor> = Vec::new();
        for plan in rest: plans
            invariant
                rest.seq() == listed,
                0 < listed.len(),
                scenes.len() == rest.index(),
                forall|i: int| 0 <= i < scenes.len() ==> (#[trigger] listed[i]).valid(),
                forall|i: int|
                    0 <= i < scenes.len() ==> (#[trigger] scenes[i]).realizes(listed[i])
                        && scenes[i].well_formed(),
        {
            let index = scenes.len();
            match SceneDescriptor::compose(plan) {
                Some(scene) => scenes.push(scene),
                None => {
                    return Err(CatalogError::InvalidScene(index));
                },
            }
        }
        Ok(Catalog { scenes })
    }

    /// The number of scenes, which is at least one.
    pub fn len(&self) -> (count: usize)
        ensures
            count == self@.len(),
            0 < count,
    {
        proof {
            use_type_invariant(self);
        }
        self.scenes.len()
    }

    /// The scene at `index`.
    pub fn scene(&self, index: usize) -> (scene: &SceneDescriptor)
        requires
            index < self@.len(),
        ensures
            *scene == self@[index as int],
            scene.well_formed(),
    {
        proof {
            use_type_invariant(self);
        }
        &self.scenes[index]
    }
}

} // verus!
