use scene_core::color::{generate_palette, ChannelAssignment, Color};
use scene_core::geometry::{Size, FULL_TURN};
use scene_core::particle::{
    advance, advance_coordinate, advance_rotation, spawn, Particle, ParticleKind, DRIFT_X,
    FALL_SPAN, SPIN_SPAN,
};

fn some_palette(count: usize) -> Vec<Color> {
    generate_palette(count, (500, 1000), 200, ChannelAssignment {
        red: false,
        green: true,
        blue: false,
    })
}

#[test]
fn spawn_makes_one_particle_per_color() {
    macroquad::rand::srand(21);
    for (width, height, count) in [(10000u32, 10000u32, 100usize), (8000, 6000, 150), (1, 1, 5), (10000, 10000, 0)] {
        let palette = some_palette(count);
        let viewport = Size { width, height };
        let field = spawn(viewport, &palette, ParticleKind::Ambient);
        assert_eq!(field.len(), count);
        for (particle, color) in field.iter().zip(palette.iter()) {
            assert_eq!(particle.kind(), ParticleKind::Ambient);
            assert_eq!(particle.color(), *color);
            assert!(0 <= particle.x() && particle.x() < width as i64);
            assert!(0 <= particle.y() && particle.y() < height as i64);
            assert_eq!(particle.rotation(), 0);
        }
    }
}

#[test]
fn spawn_rotating_seeds_rotation_below_full_turn() {
    macroquad::rand::srand(22);
    let palette = some_palette(400);
    let viewport = Size { width: 10000, height: 10000 };
    let field = spawn(viewport, &palette, ParticleKind::Rotating);
    assert_eq!(field.len(), 400);
    for particle in field.iter() {
        assert_eq!(particle.kind(), ParticleKind::Rotating);
        assert!(particle.rotation() < FULL_TURN);
        assert!(0 <= particle.x() && particle.x() < 10000);
        assert!(0 <= particle.y() && particle.y() < 10000);
    }
    assert!(field.iter().any(|particle| particle.rotation() > 0));
}

#[test]
fn spawn_positions_vary() {
    macroquad::rand::srand(23);
    let palette = some_palette(200);
    let field = spawn(Size { width: 10000, height: 10000 }, &palette, ParticleKind::Ambient);
    assert!(field.iter().any(|particle| particle.x() > 0));
    assert!(field.iter().any(|particle| particle.y() > 0));
    let first = field[0];
    assert!(field.iter().any(|particle| particle.x() != first.x()));
}

#[test]
fn spawn_in_an_empty_viewport_stays_at_the_origin() {
    let palette = some_palette(10);
    let field = spawn(Size { width: 0, height: 0 }, &palette, ParticleKind::Ambient);
    assert_eq!(field.len(), 10);
    for particle in field.iter() {
        assert_eq!(particle.x(), 0);
        assert_eq!(particle.y(), 0);
    }
}

#[test]
fn advance_keeps_particles_within_bounds() {
    macroquad::rand::srand(24);
    let palette = some_palette(60);
    let viewport = Size { width: 3000, height: 2000 };
    let extent: u32 = 320;
    let mut field = spawn(viewport, &palette, ParticleKind::Rotating);
    let mut wrapped_x = false;
    let mut wrapped_y = false;
    for _ in 0..4000 {
        let before = field.clone();
        advance(&mut field, extent, viewport);
        assert_eq!(field.len(), before.len());
        for (old, new) in before.iter().zip(field.iter()) {
            assert!(-(extent as i64) <= new.x() && new.x() <= viewport.width as i64);
            assert!(-(extent as i64) <= new.y() && new.y() <= viewport.height as i64);
            assert!(new.rotation() < FULL_TURN);
            assert_eq!(new.kind(), old.kind());
            assert_eq!(new.color(), old.color());
            if old.x() + DRIFT_X as i64 > viewport.width as i64 {
                assert_eq!(new.x(), -(extent as i64));
                wrapped_x = true;
            } else {
                assert_eq!(new.x(), old.x() + DRIFT_X as i64);
            }
            let fall = new.y() - old.y();
            if fall < 0 {
                assert_eq!(new.y(), -(extent as i64));
                assert!(old.y() + FALL_SPAN as i64 > viewport.height as i64);
                wrapped_y = true;
            } else {
                assert!(fall < FALL_SPAN as i64);
            }
            if new.rotation() != 0 {
                let spin = new.rotation() - old.rotation();
                assert!(spin < SPIN_SPAN);
            } else {
                assert!(old.rotation() == 0 || old.rotation() + SPIN_SPAN > FULL_TURN);
            }
        }
    }
    assert!(wrapped_x);
    assert!(wrapped_y);
}

#[test]
fn advance_leaves_ambient_particles_unturned() {
    macroquad::rand::srand(25);
    let palette = some_palette(30);
    let viewport = Size { width: 5000, height: 5000 };
    let mut field = spawn(viewport, &palette, ParticleKind::Ambient);
    for _ in 0..200 {
        advance(&mut field, 100, viewport);
        for particle in field.iter() {
            assert_eq!(particle.kind(), ParticleKind::Ambient);
            assert_eq!(particle.rotation(), 0);
        }
    }
}

#[test]
fn advance_of_an_empty_field() {
    let mut field: Vec<Particle> = Vec::new();
    advance(&mut field, 100, Size { width: 5000, height: 5000 });
    assert!(field.is_empty());
}

#[test]
fn advance_falls_by_varying_distances() {
    macroquad::rand::srand(26);
    let palette = some_palette(100);
    let viewport = Size { width: 100000, height: 100000 };
    let mut field = spawn(viewport, &palette, ParticleKind::Ambient);
    let before = field.clone();
    advance(&mut field, 100, viewport);
    let falls: Vec<i64> = before.iter().zip(field.iter()).map(|(old, new)| new.y() - old.y()).collect();
    assert!(falls.iter().any(|fall| *fall > 0));
    assert!(falls.iter().any(|fall| *fall != falls[0]));
}

#[test]
fn advanced_wraps_to_minus_extent() {
    let white = Color::white();
    let viewport = Size { width: 10000, height: 8000 };
    let at_edge = Particle::Ambient { x: 10000, y: 20, color: white };
    assert_eq!(at_edge.advanced(49, 7, 320, viewport), Particle::Ambient { x: -320, y: 69, color: white });
    let before_edge = Particle::Ambient { x: 9999, y: 7951, color: white };
    assert_eq!(
        before_edge.advanced(49, 0, 320, viewport),
        Particle::Ambient { x: 10000, y: 8000, color: white }
    );
    let falls_out = Particle::Ambient { x: 0, y: 7952, color: white };
    assert_eq!(falls_out.advanced(49, 0, 320, viewport), Particle::Ambient { x: 1, y: -320, color: white });
    let re_entering = Particle::Ambient { x: -320, y: -320, color: white };
    assert_eq!(re_entering.advanced(0, 0, 320, viewport), Particle::Ambient { x: -319, y: -320, color: white });
}

#[test]
fn advanced_resets_rotation_at_a_full_turn() {
    let white = Color::white();
    let viewport = Size { width: 10000, height: 8000 };
    let star = Particle::Rotating { x: 5, y: 7990, color: white, rotation: 6250 };
    // 6.283 radians are still short of a full turn
    assert_eq!(
        star.advanced(11, 33, 320, viewport),
        Particle::Rotating { x: 6, y: -320, color: white, rotation: 6283 }
    );
    assert_eq!(
        star.advanced(10, 32, 320, viewport),
        Particle::Rotating { x: 6, y: 8000, color: white, rotation: 6282 }
    );
    // 6.284 radians are past it
    assert_eq!(
        star.advanced(0, 34, 320, viewport),
        Particle::Rotating { x: 6, y: 7990, color: white, rotation: 0 }
    );
    assert_eq!(
        star.advanced(0, 49, 320, viewport),
        Particle::Rotating { x: 6, y: 7990, color: white, rotation: 0 }
    );
}

#[test]
fn advance_coordinate_values() {
    assert_eq!(advance_coordinate(0, 1, 10000, 320), 1);
    assert_eq!(advance_coordinate(9999, 1, 10000, 320), 10000);
    assert_eq!(advance_coordinate(10000, 1, 10000, 320), -320);
    assert_eq!(advance_coordinate(10000, 0, 10000, 320), 10000);
    assert_eq!(advance_coordinate(-320, 49, 10000, 320), -271);
    assert_eq!(advance_coordinate(i64::MAX, 1, 10000, 320), -320);
    assert_eq!(advance_coordinate(i64::MIN, 49, 0, 0), i64::MIN + 49);
    assert_eq!(advance_coordinate(5, 49, 0, 0), 0);
}

#[test]
fn advance_rotation_values() {
    assert_eq!(FULL_TURN, 6284);
    assert_eq!(advance_rotation(0, 0), 0);
    assert_eq!(advance_rotation(0, 49), 49);
    assert_eq!(advance_rotation(6233, 49), 6282);
    assert_eq!(advance_rotation(6234, 49), 6283);
    assert_eq!(advance_rotation(6235, 49), 0);
    assert_eq!(advance_rotation(6250, 33), 6283);
    assert_eq!(advance_rotation(6250, 34), 0);
    assert_eq!(advance_rotation(6282, 1), 6283);
    assert_eq!(advance_rotation(6283, 0), 6283);
    assert_eq!(advance_rotation(6283, 1), 0);
    assert_eq!(advance_rotation(6284, 0), 0);
    assert_eq!(advance_rotation(7000, 0), 0);
    assert_eq!(advance_rotation(u32::MAX, u32::MAX), 0);
}

#[test]
fn spawn_in_the_widest_viewport_stays_inside() {
    macroquad::rand::srand(27);
    let palette = some_palette(300);
    let viewport = Size { width: u32::MAX, height: u32::MAX };
    let field = spawn(viewport, &palette, ParticleKind::Rotating);
    assert_eq!(field.len(), 300);
    for particle in field.iter() {
        assert!(0 <= particle.x() && particle.x() < u32::MAX as i64);
        assert!(0 <= particle.y() && particle.y() < u32::MAX as i64);
        assert!(particle.rotation() < FULL_TURN);
    }
    assert!(field.iter().any(|particle| particle.x() > 1_048_576));
}

#[test]
fn placed_keeps_rotation_only_when_rotating() {
    let white = Color::white();
    assert_eq!(
        Particle::placed(ParticleKind::Ambient, 3, 4, 99, white),
        Particle::Ambient { x: 3, y: 4, color: white }
    );
    assert_eq!(
        Particle::placed(ParticleKind::Rotating, 3, 4, 99, white),
        Particle::Rotating { x: 3, y: 4, color: white, rotation: 99 }
    );
}
