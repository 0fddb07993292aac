use vstd::prelude::*;
use crate::color::{palette_color, ChannelAssignment, Color};
use crate::geometry::Size;
use crate::particle::ParticleKind;
use crate::scene::{Catalog, FocalImage, PaletteRecipe, SceneDescriptor, ScenePlan, TextColors};

verus! {

/// How many scenes the sequence has.
pub const SCENE_COUNT: usize = 7;

/// How many particles a field of hearts holds.
pub const HEARTS_AMOUNT: usize = 100;

/// How many particles a field of stars holds.
pub const STARS_AMOUNT: usize = 150;

pub const OPENING_1: &'static str = "Азалька!!!!!";

pub const OPENING_2: &'static str = "я тебя люблю";

pub const OPENING_3: &'static str = "очень сильно!";

pub const OPENING_4: &'static str = "Сегодня я подготовил";

pub const OPENING_5: &'static str = "для тебя сюрприз <3";

pub const GIFT_1: &'static str = "У меня даже есть";

pub const GIFT_2: &'static str = "для тебя!!!";

pub const GIFT_3: &'static str = "подарок!!!";

pub const PRELUDE_1: &'static str = "Но сначала я хочу";

pub const PRELUDE_2: &'static str = "сказать тебе";

pub const PRELUDE_3: &'static str = "какая ты ...";

pub const PRAISE_1: &'static str = "Замечательная!";

pub const PRAISE_2: &'static str = "Умная! Красивая!";

pub const PRAISE_3: &'static str = "Добрая! Милая!";

pub const PRAISE_4: &'static str = "Гениальная!";

pub const PRAISE_5: &'static str = "Душещипательная!";

pub const JOY_1: &'static str = "Я так рад,";

pub const JOY_2: &'static str = "что встретил тебя";

pub const JOY_3: &'static str = "и продолжаю";

pub const JOY_4: &'static str = "встречать";

pub const JOY_5: &'static str = "уже целых 2!!!";

pub const JOY_6: &'static str = "года!!!";

pub const ALONE_1: &'static str = "Если бы не ты";

pub const ALONE_2: &'static str = "я б так и был";

pub const ALONE_3: &'static str = "холостым (фуууу)";

pub const ALONE_4: &'static str = "и одиноким :(((";

pub const SUN_1: &'static str = "ТЫ МОЕ СОЛНЫШКО!!!";

pub const SUN_2: &'static str = "я тобой очень сильно";

pub const SUN_3: &'static str = "горжусь!";

pub const SUN_4: &'static str = "И не устаю";

pub const SUN_5: &'static str = "тобой удивляться!!!";

/// What the list fixes of a scene besides its caption and its focal image.
#[derive(Clone, Copy, Debug)]
pub struct SceneEntry {
    pub kind: ParticleKind,
    pub background: Color,
    pub text_colors: TextColors,
    pub recipe: PaletteRecipe,
}

/// One row of the list: the particle kind, the background's red, green and
/// blue levels, whether the caption is dark on a light outline or light on
/// a dark one, and the palette recipe.
pub open spec fn spec_row(
    kind: ParticleKind,
    background: (u64, u64, u64),
    dark_text: bool,
    count: usize,
    main_range: (u32, u32),
    secondary_scale: u32,
    dominant: (bool, bool, bool),
) -> SceneEntry {
    SceneEntry {
        kind,
        background: Color::opaque(background.0, background.1, background.2),
        text_colors: if dark_text {
            TextColors { primary: Color::black(), outline: Color::white() }
        } else {
            TextColors { primary: Color::white(), outline: Color::black() }
        },
        recipe: PaletteRecipe {
            count,
            main_range,
            secondary_scale,
            assignment: ChannelAssignment { red: dominant.0, green: dominant.1, blue: dominant.2 },
        },
    }
}

#[verifier::when_used_as_spec(spec_row)]
pub fn row(
    kind: ParticleKind,
    background: (u64, u64, u64),
    dark_text: bool,
    count: usize,
    main_range: (u32, u32),
    secondary_scale: u32,
    dominant: (bool, bool, bool),
) -> (entry: SceneEntry)
    ensures
        entry == spec_row(
            kind,
            background,
            dark_text,
            count,
            main_range,
            secondary_scale,
            dominant,
        ),
{
    SceneEntry {
        kind,
        background: Color::opaque(background.0, background.1, background.2),
        text_colors: if dark_text {
            TextColors { primary: Color::black(), outline: Color::white() }
        } else {
            TextColors { primary: Color::white(), outline: Color::black() }
        },
        recipe: PaletteRecipe {
            count,
            main_range,
            secondary_scale,
            assignment: ChannelAssignment { red: dominant.0, green: dominant.1, blue: dominant.2 },
        },
    }
}

/// The list of scenes, row by row. An index past the last row reads as the
/// last row.
pub open spec fn spec_scene_entry(index: usize) -> SceneEntry {
    if index == 0 {
        row(ParticleKind::Ambient, (100, 200, 100), false, HEARTS_AMOUNT, (500, 1000), 200, (false, true, false))
    } else if index == 1 {
        row(ParticleKind::Rotating, (1000, 1000, 900), true, STARS_AMOUNT, (900, 1000), 500, (true, true, false))
    } else if index == 2 {
        row(ParticleKind::Ambient, (700, 700, 1000), false, HEARTS_AMOUNT, (700, 1000), 1000, (false, false, true))
    } else if index == 3 {
        row(ParticleKind::Rotating, (700, 1000, 1000), false, STARS_AMOUNT, (500, 1000), 200, (false, true, true))
    } else if index == 4 {
        row(ParticleKind::Ambient, (1000, 700, 650), false, HEARTS_AMOUNT, (700, 1000), 200, (true, false, false))
    } else if index == 5 {
        row(ParticleKind::Rotating, (330, 700, 700), true, HEARTS_AMOUNT, (850, 1000), 1000, (true, true, true))
    } else {
        row(ParticleKind::Ambient, (0, 600, 1000), true, HEARTS_AMOUNT, (999, 1000), 500, (true, true, true))
    }
}

#[verifier::when_used_as_spec(spec_scene_entry)]
pub fn scene_entry(index: usize) -> (entry: SceneEntry)
    ensures
        entry == spec_scene_entry(index),
{
    if index == 0 {
        row(ParticleKind::Ambient, (100, 200, 100), false, HEARTS_AMOUNT, (500, 1000), 200, (false, true, false))
    } else if index == 1 {
        row(ParticleKind::Rotating, (1000, 1000, 900), true, STARS_AMOUNT, (900, 1000), 500, (true, true, false))
    } else if index == 2 {
        row(ParticleKind::Ambient, (700, 700, 1000), false, HEARTS_AMOUNT, (700, 1000), 1000, (false, false, true))
    } else if index == 3 {
        row(ParticleKind::Rotating, (700, 1000, 1000), false, STARS_AMOUNT, (500, 1000), 200, (false, true, true))
    } else if index == 4 {
        row(ParticleKind::Ambient, (1000, 700, 650), false, HEARTS_AMOUNT, (700, 1000), 200, (true, false, false))
    } else if index == 5 {
        row(ParticleKind::Rotating, (330, 700, 700), true, HEARTS_AMOUNT, (850, 1000), 1000, (true, true, true))
    } else {
        row(ParticleKind::Ambient, (0, 600, 1000), true, HEARTS_AMOUNT, (999, 1000), 500, (true, true, true))
    }
}

/// The caption of each scene, line by line. An index past the last scene
/// reads as the last scene.
pub open spec fn scene_caption(index: usize) -> Seq<Seq<char>> {
    if index == 0 {
        seq![OPENING_1@, OPENING_2@, OPENING_3@, OPENING_4@, OPENING_5@]
    } else if index == 1 {
        seq![GIFT_1@, GIFT_2@, GIFT_3@]
    } else if index == 2 {
        seq![PRELUDE_1@, PRELUDE_2@, PRELUDE_3@]
    } else if index == 3 {
        seq![PRAISE_1@, PRAISE_2@, PRAISE_3@, PRAISE_4@, PRAISE_5@]
    } else if index == 4 {
        seq![JOY_1@, JOY_2@, JOY_3@, JOY_4@, JOY_5@, JOY_6@]
    } else if index == 5 {
        seq![ALONE_1@, ALONE_2@, ALONE_3@, ALONE_4@]
    } else {
        seq![SUN_1@, SUN_2@, SUN_3@, SUN_4@, SUN_5@]
    }
}

/// The caption holds exactly these lines, in this order.
pub open spec fn caption_reads(caption: Vec<String>, lines: Seq<Seq<char>>) -> bool {
    &&& caption@.len() == lines.len()
    &&& forall|i: int| 0 <= i < lines.len() ==> (#[trigger] caption@[i])@ == lines[i]
}

/// Writes out the caption of a scene.
pub fn caption_of(index: usize) -> (caption: Vec<String>)
    ensures
        caption_reads(caption, scene_caption(index)),
{
    let mut caption: Vec<String> = Vec::new();
    if index == 0 {
        caption.push(OPENING_1.to_owned());
        caption.push(OPENING_2.to_owned());
        caption.push(OPENING_3.to_owned());
        caption.push(OPENING_4.to_owned());
        caption.push(OPENING_5.to_owned());
    } else if index == 1 {
        caption.push(GIFT_1.to_owned());
        caption.push(GIFT_2.to_owned());
        caption.push(GIFT_3.to_owned());
    } else if index == 2 {
        caption.push(PRELUDE_1.to_owned());
        caption.push(PRELUDE_2.to_owned());
        caption.push(PRELUDE_3.to_owned());
    } else if index == 3 {
        caption.push(PRAISE_1.to_owned());
        caption.push(PRAISE_2.to_owned());
        caption.push(PRAISE_3.to_owned());
        caption.push(PRAISE_4.to_owned());
        caption.push(PRAISE_5.to_owned());
    } else if index == 4 {
        caption.push(JOY_1.to_owned());
        caption.push(JOY_2.to_owned());
        caption.push(JOY_3.to_owned());
        caption.push(JOY_4.to_owned());
        caption.push(JOY_5.to_owned());
        caption.push(JOY_6.to_owned());
    } else if index == 5 {
        caption.push(ALONE_1.to_owned());
        caption.push(ALONE_2.to_owned());
        caption.push(ALONE_3.to_owned());
        caption.push(ALONE_4.to_owned());
    } else {
        caption.push(SUN_1.to_owned());
        caption.push(SUN_2.to_owned());
        caption.push(SUN_3.to_owned());
        caption.push(SUN_4.to_owned());
        caption.push(SUN_5.to_owned());
    }
    caption
}

/// The plan is the one the list holds at `index`, with the focal image of
/// the given size.
pub open spec fn listed(plan: ScenePlan, index: usize, image_size: Size) -> bool {
    &&& plan.kind == scene_entry(index).kind
    &&& plan.background == scene_entry(index).background
    &&& plan.text_colors == scene_entry(index).text_colors
    &&& plan.recipe == scene_entry(index).recipe
    &&& plan.image == (FocalImage { handle: index, size: image_size })
    &&& caption_reads(plan.caption, scene_caption(index))
}

/// The scene is the one the list holds at `index`, with the focal image of
/// the given size and a palette generated from the row's recipe.
pub open spec fn staged(scene: SceneDescriptor, index: usize, image_size: Size) -> bool {
    &&& scene.kind == scene_entry(index).kind
    &&& scene.background == scene_entry(index).background
    &&& scene.text_colors == scene_entry(index).text_colors
    &&& scene.image == (FocalImage { handle: index, size: image_size })
    &&& caption_reads(scene.caption, scene_caption(index))
    &&& scene.palette.len() == scene_entry(index).recipe.count
    &&& forall|i: int|
        0 <= i < scene.palette.len() ==> palette_color(
            #[trigger] scene.palette[i],
            scene_entry(index).recipe.main_range.0 as int,
            scene_entry(index).recipe.main_range.1 as int,
            scene_entry(index).recipe.secondary_scale as int,
            scene_entry(index).recipe.assignment,
        )
}

/// Every row of the list makes a valid plan: its colours are normalised and
/// its recipe is valid.
pub proof fn lemma_rows_valid(index: usize)
    ensures
        scene_entry(index).background.normalized(),
        scene_entry(index).text_colors.primary.normalized(),
        scene_entry(index).text_colors.outline.normalized(),
        scene_entry(index).recipe.valid(),
{
}

/// Writes out the declarative list of scenes, given the size of each
/// scene's focal image in scene order. The image handles count the scenes
/// from zero.
pub fn scene_plans(image_sizes: &[Size; SCENE_COUNT]) -> (plans: Vec<ScenePlan>)
    ensures
        plans.len() == SCENE_COUNT,
        forall|i: int|
            0 <= i < SCENE_COUNT ==> (#[trigger] plans[i]).valid() && listed(
                plans[i],
                i as usize,
                image_sizes[i],
            ),
{
    let mut plans: Vec<ScenePlan> = Vec::new();
    let mut index: usize = 0;
    while index < SCENE_COUNT
        invariant
            index <= SCENE_COUNT,
            plans.len() == index,
            forall|i: int|
                0 <= i < index ==> (#[trigger] plans[i]).valid() && listed(
                    plans[i],
                    i as usize,
                    image_sizes[i],
                ),
        decreases SCENE_COUNT - index,
    {
        let entry = scene_entry(index);
        proof {
            lemma_rows_valid(index);
        }
        plans.push(
            ScenePlan {
                kind: entry.kind,
                background: entry.background,
                image: FocalImage { handle: index, size: image_sizes[index] },
                caption: caption_of(index),
                text_colors: entry.text_colors,
                recipe: entry.recipe,
            },
        );
        index += 1;
    }
    plans
}

/// Builds the catalog of the listed scenes, generating each palette.
pub fn standard_catalog(image_sizes: &[Size; SCENE_COUNT]) -> (catalog: Catalog)
    ensures
        catalog.well_formed(),
        catalog@.len() == SCENE_COUNT,
        forall|i: int|
            0 <= i < SCENE_COUNT ==> staged(#[trigger] catalog@[i], i as usize, image_sizes[i]),
{
    let plans = scene_plans(image_sizes);
    let made = Catalog::build(plans);
    assert(made is Ok);
    let catalog = made.unwrap();
    proof {
        assert forall|i: int| 0 <= i < SCENE_COUNT implies staged(
            #[trigger] catalog@[i],
            i as usize,
            image_sizes[i],
        ) by {
            assert(catalog@[i].realizes(plans[i]));
            assert(listed(plans[i], i as usize, image_sizes[i]));
        }
    }
    catalog
}

} // verus!
