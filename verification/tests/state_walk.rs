use disc_art::circle::{Circle, RADIUS};
use disc_art::color::{Color, ColorBit};
use disc_art::position::Position;
use disc_art::random::ScriptedRandom;
use disc_art::ArtError;

#[test]
fn walk_step_from_center_moves_by_exact_offsets() {
    // Region 0..500 x 0..250, start (250, 125), step 2.64 — in hundredths.
    // Far from every boundary, all 8 candidates are retained; the scripted
    // draw selects index 3, the candidate that keeps x and lowers y.
    let mut p = Position { x: 25000, y: 12500 };
    let mut rng = ScriptedRandom::new(vec![3]);
    let res = p.update(264, &mut rng);
    assert!(res.is_ok());
    assert_eq!(p, Position { x: 25000, y: 12500 - 264 });
    // The result differs from the start by (±264 or 0) per axis, not both 0,
    // and satisfies the bounds invariant.
    assert!(p != Position { x: 25000, y: 12500 });
    assert!(0 < p.x && p.x < 50000 && 0 < p.y && p.y < 25000);
}

#[test]
fn walk_step_near_boundary_discards_outside_candidates() {
    // x - 200 would land at -100, outside the region: the three candidates
    // that lower x are discarded, leaving five. Index 2 of the retained list
    // is (x + step, y - step).
    let mut p = Position { x: 100, y: 12500 };
    let mut rng = ScriptedRandom::new(vec![2]);
    let res = p.update(200, &mut rng);
    assert!(res.is_ok());
    assert_eq!(p, Position { x: 300, y: 12300 });
}

#[test]
fn walk_step_spanning_region_reports_invalid_region() {
    // A step of 300 covers the whole region from anywhere: every candidate
    // falls outside, the walk stays put and surfaces the error.
    let mut p = Position { x: 25000, y: 12500 };
    let mut rng = ScriptedRandom::new(vec![0]);
    let res = p.update(30000, &mut rng);
    assert_eq!(res, Err(ArtError::InvalidRegion));
    assert_eq!(p, Position { x: 25000, y: 12500 });
}

#[test]
fn walk_zero_step_stays_in_place() {
    let mut p = Position { x: 44, y: 55 };
    let mut rng = ScriptedRandom::new(vec![6]);
    let res = p.update(0, &mut rng);
    assert!(res.is_ok());
    assert_eq!(p, Position { x: 44, y: 55 });
}

#[test]
fn random_placement_is_strictly_inside() {
    let mut rng = ScriptedRandom::new(vec![0, 0]);
    let p = Position::rand(&mut rng);
    // Draw 0 on each axis places at the lowest valid coordinate, strictly
    // inside the open interval.
    assert_eq!(p, Position { x: 1, y: 1 });
    assert!(p.validate());
}

#[test]
fn channel_add_clamps_at_top() {
    // value 250, delta 10, an odd draw forces the "add" branch: 255, not 260.
    let mut c = ColorBit { bit: 250 };
    let mut rng = ScriptedRandom::new(vec![1]);
    c.update(10, &mut rng);
    assert_eq!(c.bit, 255);
}

#[test]
fn channel_sub_clamps_at_bottom() {
    // value 5, delta 10, an even draw forces the "subtract" branch: 0.
    let mut c = ColorBit { bit: 5 };
    let mut rng = ScriptedRandom::new(vec![0]);
    c.update(10, &mut rng);
    assert_eq!(c.bit, 0);
}

#[test]
fn channel_touches_extremum_only_when_passing_it() {
    let mut c = ColorBit { bit: 245 };
    c.shift(10, true);
    assert_eq!(c.bit, 255);
    let mut c = ColorBit { bit: 244 };
    c.shift(10, true);
    assert_eq!(c.bit, 254);
    let mut c = ColorBit { bit: 10 };
    c.shift(10, false);
    assert_eq!(c.bit, 0);
    let mut c = ColorBit { bit: 11 };
    c.shift(10, false);
    assert_eq!(c.bit, 1);
}

#[test]
fn color_channels_draw_independent_directions() {
    // One draw per channel, in red, green, blue order: odd, even, odd sends
    // red up, green down, blue up — no shared draw forces one direction.
    let mut c = Color {
        r: ColorBit { bit: 100 },
        g: ColorBit { bit: 100 },
        b: ColorBit { bit: 100 },
    };
    let mut rng = ScriptedRandom::new(vec![1, 0, 3]);
    c.update(10, &mut rng);
    assert_eq!(c.r.bit, 110);
    assert_eq!(c.g.bit, 90);
    assert_eq!(c.b.bit, 110);
}

#[test]
fn renderable_form_is_exact() {
    let c = Color { r: ColorBit { bit: 12 }, g: ColorBit { bit: 0 }, b: ColorBit { bit: 255 } };
    assert_eq!(c.to_renderable(), "rgb(12, 0, 255)");
    let c = Color { r: ColorBit { bit: 5 }, g: ColorBit { bit: 100 }, b: ColorBit { bit: 37 } };
    assert_eq!(c.to_renderable(), "rgb(5, 100, 37)");
}

#[test]
fn new_circle_is_valid_with_fixed_radius() {
    let mut rng = ScriptedRandom::new(vec![100, 200, 5, 6, 7]);
    let c = Circle::new(&mut rng);
    assert_eq!(c.x_position(), 101);
    assert_eq!(c.y_position(), 201);
    assert_eq!(c.radius(), RADIUS);
    assert_eq!(c.color(), "rgb(5, 6, 7)");
}

#[test]
fn circle_update_moves_position_then_color_once_each() {
    let mut c = Circle {
        position: Position { x: 25000, y: 12500 },
        color: Color { r: ColorBit { bit: 100 }, g: ColorBit { bit: 120 }, b: ColorBit { bit: 140 } },
        radius: RADIUS,
    };
    // One index draw for the position, then one coin per channel.
    let mut rng = ScriptedRandom::new(vec![0, 1, 1, 0]);
    let res = c.update(264, 10, &mut rng);
    assert!(res.is_ok());
    assert_eq!(c.position, Position { x: 25000 - 264, y: 12500 - 264 });
    assert_eq!(c.color(), "rgb(110, 130, 130)");
    assert_eq!(c.radius(), RADIUS);
}

#[test]
fn circle_update_leaves_color_untouched_on_invalid_region() {
    let mut c = Circle {
        position: Position { x: 25000, y: 12500 },
        color: Color { r: ColorBit { bit: 100 }, g: ColorBit { bit: 120 }, b: ColorBit { bit: 140 } },
        radius: RADIUS,
    };
    let mut rng = ScriptedRandom::new(vec![1, 1, 1, 1]);
    let res = c.update(30000, 10, &mut rng);
    assert_eq!(res, Err(ArtError::InvalidRegion));
    assert_eq!(c.position, Position { x: 25000, y: 12500 });
    assert_eq!(c.color(), "rgb(100, 120, 140)");
}
