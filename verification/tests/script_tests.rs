use scene_core::color::{ChannelAssignment, Color};
use scene_core::controller::{ControllerConfig, SceneController, TickInput};
use scene_core::geometry::{Point, Size};
use scene_core::particle::ParticleKind;
use scene_core::scene::{Catalog, FocalImage, TextColors};
use scene_core::script::{
    caption_of, scene_entry, scene_plans, standard_catalog, HEARTS_AMOUNT, SCENE_COUNT,
    STARS_AMOUNT,
};

fn sizes() -> [Size; SCENE_COUNT] {
    [
        Size { width: 2000, height: 3000 },
        Size { width: 1200, height: 800 },
        Size { width: 3000, height: 3000 },
        Size { width: 2560, height: 2560 },
        Size { width: 1000, height: 4000 },
        Size { width: 640, height: 480 },
        Size { width: 5120, height: 5120 },
    ]
}

const LIGHT: TextColors = TextColors {
    primary: Color { r: 1000, g: 1000, b: 1000, a: 1000 },
    outline: Color { r: 0, g: 0, b: 0, a: 1000 },
};

const DARK: TextColors = TextColors {
    primary: Color { r: 0, g: 0, b: 0, a: 1000 },
    outline: Color { r: 1000, g: 1000, b: 1000, a: 1000 },
};

#[test]
fn the_list_holds_seven_valid_plans() {
    let plans = scene_plans(&sizes());
    assert_eq!(SCENE_COUNT, 7);
    assert_eq!(plans.len(), 7);
    for (index, plan) in plans.iter().enumerate() {
        assert!(plan.is_valid());
        assert_eq!(plan.image, FocalImage { handle: index, size: sizes()[index] });
    }
}

#[test]
fn the_list_alternates_hearts_and_stars() {
    let plans = scene_plans(&sizes());
    let kinds: Vec<ParticleKind> = plans.iter().map(|plan| plan.kind).collect();
    assert_eq!(
        kinds,
        vec![
            ParticleKind::Ambient,
            ParticleKind::Rotating,
            ParticleKind::Ambient,
            ParticleKind::Rotating,
            ParticleKind::Ambient,
            ParticleKind::Rotating,
            ParticleKind::Ambient,
        ]
    );
    let counts: Vec<usize> = plans.iter().map(|plan| plan.recipe.count).collect();
    assert_eq!(counts, vec![100, 150, 100, 150, 100, 100, 100]);
    assert_eq!(HEARTS_AMOUNT, 100);
    assert_eq!(STARS_AMOUNT, 150);
}

#[test]
fn the_list_fixes_backgrounds_and_text_colors() {
    let plans = scene_plans(&sizes());
    let backgrounds: Vec<Color> = plans.iter().map(|plan| plan.background).collect();
    assert_eq!(
        backgrounds,
        vec![
            Color::opaque(100, 200, 100),
            Color::opaque(1000, 1000, 900),
            Color::opaque(700, 700, 1000),
            Color::opaque(700, 1000, 1000),
            Color::opaque(1000, 700, 650),
            Color::opaque(330, 700, 700),
            Color::opaque(0, 600, 1000),
        ]
    );
    let text_colors: Vec<TextColors> = plans.iter().map(|plan| plan.text_colors).collect();
    assert_eq!(text_colors, vec![LIGHT, DARK, LIGHT, LIGHT, LIGHT, DARK, DARK]);
}

#[test]
fn the_list_fixes_the_recipes() {
    let expected: [((u32, u32), u32, (bool, bool, bool)); 7] = [
        ((500, 1000), 200, (false, true, false)),
        ((900, 1000), 500, (true, true, false)),
        ((700, 1000), 1000, (false, false, true)),
        ((500, 1000), 200, (false, true, true)),
        ((700, 1000), 200, (true, false, false)),
        ((850, 1000), 1000, (true, true, true)),
        ((999, 1000), 500, (true, true, true)),
    ];
    for (index, (main_range, scale, dominant)) in expected.iter().enumerate() {
        let entry = scene_entry(index);
        assert_eq!(entry.recipe.main_range, *main_range);
        assert_eq!(entry.recipe.secondary_scale, *scale);
        assert_eq!(
            entry.recipe.assignment,
            ChannelAssignment { red: dominant.0, green: dominant.1, blue: dominant.2 }
        );
        assert!(entry.recipe.is_valid());
    }
    assert_eq!(scene_entry(7).recipe.main_range, (999, 1000));
}

#[test]
fn the_list_fixes_the_captions() {
    let plans = scene_plans(&sizes());
    let lengths: Vec<usize> = plans.iter().map(|plan| plan.caption.len()).collect();
    assert_eq!(lengths, vec![5, 3, 3, 5, 6, 4, 5]);
    assert_eq!(plans[0].caption[0], "Азалька!!!!!");
    assert_eq!(plans[0].caption[4], "для тебя сюрприз <3");
    assert_eq!(plans[1].caption, vec!["У меня даже есть", "для тебя!!!", "подарок!!!"]);
    assert_eq!(plans[4].caption[5], "года!!!");
    assert_eq!(plans[6].caption[0], "ТЫ МОЕ СОЛНЫШКО!!!");
    for (index, plan) in plans.iter().enumerate() {
        assert_eq!(plan.caption, caption_of(index));
    }
}

#[test]
fn the_standard_catalog_stages_every_scene() {
    macroquad::rand::srand(51);
    let catalog: Catalog = standard_catalog(&sizes());
    assert_eq!(catalog.len(), 7);
    let plans = scene_plans(&sizes());
    for (index, plan) in plans.iter().enumerate() {
        let scene = catalog.scene(index);
        assert!(scene.is_well_formed());
        assert_eq!(scene.kind, plan.kind);
        assert_eq!(scene.background, plan.background);
        assert_eq!(scene.image, plan.image);
        assert_eq!(scene.caption, plan.caption);
        assert_eq!(scene.text_colors, plan.text_colors);
        assert_eq!(scene.palette.len(), plan.recipe.count);
    }
    // green alone is dominant in the opening scene
    for color in catalog.scene(0).palette.iter() {
        assert!(color.g >= 500 && color.g < 1000);
        assert!(color.r < 200 && color.r == color.b);
    }
    // every channel is dominant in the last scene
    for color in catalog.scene(6).palette.iter() {
        assert_eq!(*color, Color::opaque(999, 999, 999));
    }
}

#[test]
fn the_sequence_runs_through_the_standard_catalog() {
    let config = ControllerConfig {
        font_count: 3,
        vertical_offset: 1500,
        ambient_extent: 320,
        rotating_extent: 480,
    };
    let viewport = Size { width: 10000, height: 10000 };
    let mut controller = SceneController::start(standard_catalog(&sizes()), config, viewport);
    for index in 0..7usize {
        assert_eq!(controller.scene_index(), index);
        assert_eq!(controller.is_terminal(), index == 6);
        assert_eq!(controller.particles().len(), controller.scene().palette.len());
        let origin = controller.image_position();
        let pointer = Point { x: origin.x + 1, y: origin.y + 1 };
        assert!(controller.pointer_on_image(pointer));
        controller = controller.tick(TickInput { viewport, pointer, pressed: true });
    }
    assert_eq!(controller.scene_index(), 6);
    assert_eq!(controller.background(), Color::opaque(0, 600, 1000));
}
