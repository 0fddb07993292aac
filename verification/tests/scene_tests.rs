use scene_core::color::{ChannelAssignment, Color};
use scene_core::geometry::Size;
use scene_core::particle::ParticleKind;
use scene_core::scene::{
    Catalog, CatalogError, FocalImage, PaletteRecipe, SceneDescriptor, ScenePlan, TextColors,
};

fn recipe(count: usize, scale: u32) -> PaletteRecipe {
    PaletteRecipe {
        count,
        main_range: (500, 1000),
        secondary_scale: scale,
        assignment: ChannelAssignment { red: false, green: true, blue: false },
    }
}

fn plan(kind: ParticleKind, count: usize, scale: u32) -> ScenePlan {
    ScenePlan {
        kind,
        background: Color::opaque(100, 200, 100),
        image: FocalImage { handle: 3, size: Size { width: 2000, height: 3000 } },
        caption: vec![String::from("first line"), String::from("second line")],
        text_colors: TextColors { primary: Color::white(), outline: Color::black() },
        recipe: recipe(count, scale),
    }
}

fn scene(palette: Vec<Color>) -> SceneDescriptor {
    SceneDescriptor {
        kind: ParticleKind::Ambient,
        background: Color::black(),
        image: FocalImage { handle: 0, size: Size { width: 10, height: 10 } },
        caption: Vec::new(),
        text_colors: TextColors { primary: Color::white(), outline: Color::black() },
        palette,
    }
}

#[test]
fn recipe_validity() {
    assert!(recipe(100, 200).is_valid());
    assert!(recipe(0, 1000).is_valid());
    assert!(!recipe(100, 1001).is_valid());
    let mut reversed = recipe(100, 200);
    reversed.main_range = (1000, 500);
    assert!(!reversed.is_valid());
    let mut zero = recipe(100, 0);
    zero.main_range = (0, 0);
    assert!(!zero.is_valid());
    let mut single = recipe(100, 0);
    single.main_range = (1000, 1000);
    assert!(single.is_valid());
    let mut widest = recipe(100, u32::MAX);
    widest.main_range = (0, u32::MAX);
    assert!(widest.is_valid());
    widest.main_range = (0, u32::MAX - 1);
    assert!(!widest.is_valid());
}

#[test]
fn plan_validity() {
    assert!(plan(ParticleKind::Ambient, 10, 200).is_valid());
    assert!(!plan(ParticleKind::Ambient, 10, 2000).is_valid());
    let mut bright = plan(ParticleKind::Ambient, 10, 200);
    bright.background = Color { r: 1001, g: 0, b: 0, a: 1000 };
    assert!(!bright.is_valid());
    let mut face = plan(ParticleKind::Ambient, 10, 200);
    face.text_colors.primary = Color { r: 0, g: 0, b: 2000, a: 1000 };
    assert!(!face.is_valid());
    let mut outline = plan(ParticleKind::Ambient, 10, 200);
    outline.text_colors.outline = Color { r: 0, g: 0, b: 0, a: 1001 };
    assert!(!outline.is_valid());
}

#[test]
fn compose_generates_the_palette() {
    let made = SceneDescriptor::compose(plan(ParticleKind::Rotating, 150, 200));
    let scene = made.expect("a valid plan makes a scene");
    assert_eq!(scene.kind, ParticleKind::Rotating);
    assert_eq!(scene.background, Color::opaque(100, 200, 100));
    assert_eq!(scene.image, FocalImage { handle: 3, size: Size { width: 2000, height: 3000 } });
    assert_eq!(scene.caption, vec![String::from("first line"), String::from("second line")]);
    assert_eq!(
        scene.text_colors,
        TextColors { primary: Color::white(), outline: Color::black() }
    );
    assert_eq!(scene.palette.len(), 150);
    assert!(scene.is_well_formed());
    for color in scene.palette.iter() {
        assert!(color.g >= 500 && color.g < 1000);
        assert_eq!(color.r, color.b);
        assert!(color.r < 200);
    }
}

#[test]
fn compose_refuses_an_invalid_plan() {
    assert!(SceneDescriptor::compose(plan(ParticleKind::Rotating, 150, 1001)).is_none());
}

#[test]
fn descriptor_well_formedness() {
    assert!(scene(Vec::new()).is_well_formed());
    assert!(scene(vec![Color::white(), Color::black()]).is_well_formed());
    assert!(!scene(vec![Color::white(), Color { r: 0, g: 1001, b: 0, a: 1000 }]).is_well_formed());
    let mut bright = scene(Vec::new());
    bright.background = Color { r: 0, g: 0, b: 0, a: 1001 };
    assert!(!bright.is_well_formed());
}

#[test]
fn catalog_of_ready_scenes() {
    let made = Catalog::new(vec![scene(vec![Color::white()]), scene(Vec::new())]);
    let catalog = made.ok().expect("two well-formed scenes");
    assert_eq!(catalog.len(), 2);
    assert_eq!(catalog.scene(0).palette, vec![Color::white()]);
    assert!(catalog.scene(1).palette.is_empty());
}

#[test]
fn catalog_must_not_be_empty() {
    assert!(matches!(Catalog::new(Vec::new()), Err(CatalogError::Empty)));
    assert!(matches!(Catalog::build(Vec::new()), Err(CatalogError::Empty)));
}

#[test]
fn catalog_names_the_first_ill_formed_scene() {
    let bad = Color { r: 5000, g: 0, b: 0, a: 1000 };
    let made = Catalog::new(vec![scene(Vec::new()), scene(vec![bad]), scene(vec![bad])]);
    assert!(matches!(made, Err(CatalogError::InvalidScene(1))));
    let made = Catalog::new(vec![scene(vec![Color::white(), bad])]);
    assert!(matches!(made, Err(CatalogError::InvalidScene(0))));
}

#[test]
fn build_names_the_first_invalid_plan() {
    let plans = vec![
        plan(ParticleKind::Ambient, 10, 200),
        plan(ParticleKind::Rotating, 10, 200),
        plan(ParticleKind::Ambient, 10, 5000),
        plan(ParticleKind::Rotating, 10, 5000),
    ];
    assert!(matches!(Catalog::build(plans), Err(CatalogError::InvalidScene(2))));
}

#[test]
fn build_keeps_the_order_of_the_plans() {
    let plans = vec![
        plan(ParticleKind::Ambient, 100, 200),
        plan(ParticleKind::Rotating, 150, 500),
        plan(ParticleKind::Ambient, 0, 1000),
    ];
    let catalog = Catalog::build(plans).ok().expect("three valid plans");
    assert_eq!(catalog.len(), 3);
    assert_eq!(catalog.scene(0).kind, ParticleKind::Ambient);
    assert_eq!(catalog.scene(0).palette.len(), 100);
    assert_eq!(catalog.scene(1).kind, ParticleKind::Rotating);
    assert_eq!(catalog.scene(1).palette.len(), 150);
    assert_eq!(catalog.scene(2).palette.len(), 0);
    for index in 0..3 {
        let scene = catalog.scene(index);
        assert!(scene.is_well_formed());
        assert_eq!(scene.caption.len(), 2);
        assert_eq!(scene.background, Color::opaque(100, 200, 100));
    }
}
