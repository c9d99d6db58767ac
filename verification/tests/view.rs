use fractality::input::{DragState, FractalInputState};
use fractality::shader_float::Vec2Bits;
use fractality::view_math::{
    cursor_normalized, lines_to_pixels, pan_offset, pixels_per_unit, rat_add, rat_eq, rat_lt,
    rat_mul, rat_sub, viewport_usable, zoom_step, Rat, RatVec2,
};

fn rat(n: i64) -> Rat {
    Rat::from_int(n)
}

fn ratio(n: i64, d: i64) -> Rat {
    Rat::from_ratio(n, d)
}

fn approx(r: Rat) -> f64 {
    r.num as f64 / r.den as f64
}

/// The exact dyadic fraction a finite positive f64 stands for.
fn dyadic(v: f64) -> Rat {
    assert!(v.is_finite() && v > 0.0);
    let bits = v.to_bits();
    let exp = ((bits >> 52) & 0x7ff) as i64 - 1023 - 52;
    let mant = ((bits & 0x000f_ffff_ffff_ffff) | (1 << 52)) as i64;
    assert!((-62..0).contains(&exp), "test value out of the helper's range");
    ratio(mant, 1i64 << (-exp))
}

#[test]
fn pixels_per_unit_is_half_the_larger_extent() {
    let vp = RatVec2 { x: rat(800), y: rat(600) };
    let ppu = pixels_per_unit(vp);
    assert!(rat_eq(ppu, rat(400)));
    let tall = RatVec2 { x: rat(600), y: rat(900) };
    assert!(rat_eq(pixels_per_unit(tall), rat(450)));
}

#[test]
fn pan_scenario_drag_right() {
    // Drag from (100,100) to (150,100), scale 2, viewport 800x600.
    let start_cursor = RatVec2 { x: rat(100), y: rat(100) };
    let cursor = RatVec2 { x: rat(150), y: rat(100) };
    let total_delta = RatVec2 {
        x: rat_sub(start_cursor.x, cursor.x),
        y: rat_sub(start_cursor.y, cursor.y),
    };
    assert!(rat_eq(total_delta.x, rat(-50)));
    assert!(rat_eq(total_delta.y, rat(0)));
    let ppu = pixels_per_unit(RatVec2 { x: rat(800), y: rat(600) });
    let start_offset = RatVec2 { x: rat(0), y: rat(0) };
    let moved = pan_offset(start_offset, total_delta, ppu, rat(2));
    // offset.x = 0 + (-50 / 400) * 2 = -1/4
    assert!(rat_eq(moved.x, ratio(-1, 4)));
    assert!(rat_eq(moved.y, rat(0)));
    assert!((approx(moved.x) + 0.25).abs() < 1e-15);
}

#[test]
fn pan_anchoring_returns_exactly() {
    // Drag from A to B and back to A: the recompute from the fixed
    // anchor restores the starting offset exactly.
    let a = RatVec2 { x: rat(100), y: rat(100) };
    let b = RatVec2 { x: rat(137), y: rat(203) };
    let ppu = pixels_per_unit(RatVec2 { x: rat(800), y: rat(600) });
    let start_offset = RatVec2 { x: ratio(3, 8), y: ratio(-7, 16) };
    let scale = ratio(1, 2);
    // Away to B: the offset moves.
    let away = pan_offset(
        start_offset,
        RatVec2 { x: rat_sub(a.x, b.x), y: rat_sub(a.y, b.y) },
        ppu,
        scale,
    );
    assert!(!rat_eq(away.x, start_offset.x));
    // Back at A: the total delta is zero, and the offset is restored.
    let back = pan_offset(
        start_offset,
        RatVec2 { x: rat_sub(a.x, a.x), y: rat_sub(a.y, a.y) },
        ppu,
        scale,
    );
    assert!(rat_eq(back.x, start_offset.x));
    assert!(rat_eq(back.y, start_offset.y));
    assert_eq!(approx(back.x), approx(start_offset.x));
    assert_eq!(approx(back.y), approx(start_offset.y));
}

#[test]
fn cursor_normalized_centers_and_flips() {
    let vp = RatVec2 { x: rat(800), y: rat(600) };
    let ppu = pixels_per_unit(vp);
    let center = cursor_normalized(RatVec2 { x: rat(400), y: rat(300) }, vp, ppu);
    assert!(rat_eq(center.x, rat(0)));
    assert!(rat_eq(center.y, rat(0)));
    let off = cursor_normalized(RatVec2 { x: rat(500), y: rat(200) }, vp, ppu);
    assert!(rat_eq(off.x, ratio(1, 4)));
    assert!(rat_eq(off.y, ratio(1, 4)));
}

#[test]
fn zoom_scenario_cursor_at_center() {
    // scale 2, offset (0,0), viewport 800x600, one line scrolled up at
    // the viewport center; 12 pixels per line, half-scale constant 50.
    let vp = RatVec2 { x: rat(800), y: rat(600) };
    let ppu = pixels_per_unit(vp);
    let n = cursor_normalized(RatVec2 { x: rat(400), y: rat(300) }, vp, ppu);
    let pixels = lines_to_pixels(rat(1));
    assert!(rat_eq(pixels, rat(12)));
    // The exponential factor 2^(-12/50) itself comes from floating
    // point; carried in exactly as the dyadic value it is.
    let factor_value = (-(approx(pixels)) / 50.0).exp2();
    let factor = dyadic(factor_value);
    let (new_scale, new_offset) = zoom_step(rat(2), RatVec2 { x: rat(0), y: rat(0) }, n, factor);
    // new_scale = 2 * 2^(-12/50) = 1.6935...
    assert!((approx(new_scale) - 2.0 * factor_value).abs() < 1e-12);
    assert!((approx(new_scale) - 1.6935).abs() < 1e-3);
    // The cursor sat at the center, so the offset is unchanged.
    assert_eq!(new_offset.x.num, 0);
    assert_eq!(new_offset.y.num, 0);
}

#[test]
fn zoom_keeps_the_point_under_the_cursor() {
    let scale = rat(2);
    let offset = RatVec2 { x: ratio(1, 2), y: ratio(-3, 4) };
    let n = RatVec2 { x: ratio(7, 16), y: ratio(-3, 8) };
    let factor = ratio(3, 4);
    let world_x = rat_add(rat_mul(n.x, scale), offset.x);
    let world_y = rat_add(rat_mul(n.y, scale), offset.y);
    let (new_scale, new_offset) = zoom_step(scale, offset, n, factor);
    let world_x_after = rat_add(rat_mul(n.x, new_scale), new_offset.x);
    let world_y_after = rat_add(rat_mul(n.y, new_scale), new_offset.y);
    assert!(rat_eq(world_x_after, world_x));
    assert!(rat_eq(world_y_after, world_y));
}

#[test]
fn zoom_scale_moves_strictly_and_stays_positive() {
    let offset = RatVec2 { x: rat(0), y: rat(0) };
    let n = RatVec2 { x: ratio(1, 8), y: ratio(1, 8) };
    // Positive scroll: factor below one, scale strictly decreases.
    let (smaller, _) = zoom_step(rat(2), offset, n, ratio(431, 500));
    assert!(rat_lt(smaller, rat(2)));
    assert!(smaller.num > 0 && smaller.den > 0);
    // Negative scroll: factor above one, scale strictly increases.
    let (larger, _) = zoom_step(rat(2), offset, n, ratio(5, 4));
    assert!(rat_lt(rat(2), larger));
    assert!(larger.num > 0 && larger.den > 0);
}

#[test]
fn scroll_sign_drives_the_factor() {
    // The exponential zoom factor 2^(-pixels / 50) lies below one for a
    // positive scroll and above one for a negative scroll; either way
    // the scale stays strictly positive.
    let offset = RatVec2 { x: rat(0), y: rat(0) };
    let n = RatVec2 { x: ratio(1, 8), y: ratio(1, 8) };
    for lines in [1i64, 3, 10] {
        let pixels = approx(lines_to_pixels(rat(lines)));
        let factor_value = (-pixels / 50.0).exp2();
        assert!(0.0 < factor_value && factor_value < 1.0);
        let (shrunk, _) = zoom_step(rat(2), offset, n, dyadic(factor_value));
        assert!(rat_lt(shrunk, rat(2)));
        assert!(shrunk.num > 0 && shrunk.den > 0);

        let grow_value = (pixels / 50.0).exp2();
        assert!(grow_value > 1.0);
        let (grown, _) = zoom_step(rat(2), offset, n, dyadic(grow_value));
        assert!(rat_lt(rat(2), grown));
        assert!(grown.num > 0 && grown.den > 0);
    }
}

#[test]
fn lines_to_pixels_is_twelve_per_line() {
    assert!(rat_eq(lines_to_pixels(rat(1)), rat(12)));
    assert!(rat_eq(lines_to_pixels(ratio(-3, 2)), rat(-18)));
}

#[test]
fn degenerate_viewport_is_rejected() {
    assert!(viewport_usable(RatVec2 { x: rat(800), y: rat(600) }));
    assert!(!viewport_usable(RatVec2 { x: rat(0), y: rat(600) }));
    assert!(!viewport_usable(RatVec2 { x: rat(800), y: rat(0) }));
    assert!(!viewport_usable(RatVec2 { x: rat(-5), y: rat(600) }));
}

#[test]
fn drag_state_machine_transitions() {
    let mut state = FractalInputState::default();
    assert!(state.drag_state.is_none());

    let cursor = Vec2Bits { x: 100.0f64.to_bits(), y: 100.0f64.to_bits() };
    let offset = Vec2Bits { x: 0.0f64.to_bits(), y: 0.0f64.to_bits() };

    // A press outside the viewport changes nothing.
    state.on_button_pressed(cursor, false, offset);
    assert!(state.drag_state.is_none());

    // A press inside the viewport captures the anchor.
    state.on_button_pressed(cursor, true, offset);
    assert_eq!(
        state.drag_state,
        Some(DragState {
            start_cursor_pos: cursor,
            previous_cursor_pos: cursor,
            start_offset: offset,
        })
    );
    assert_eq!(state.previous_cursor_pos(), Some(cursor));

    // A held move past the noise threshold hands out the anchor and
    // records the new cursor position.
    let moved_to = Vec2Bits { x: 150.0f64.to_bits(), y: 100.0f64.to_bits() };
    let anchor = state.pan_step(true, moved_to, true);
    assert_eq!(anchor, Some((cursor, offset)));
    assert_eq!(state.previous_cursor_pos(), Some(moved_to));

    // A move below the noise threshold changes nothing.
    assert_eq!(state.pan_step(true, cursor, false), None);
    assert_eq!(state.previous_cursor_pos(), Some(moved_to));

    // Without the button held there is no pan.
    assert_eq!(state.pan_step(false, cursor, true), None);

    // Release always clears the drag.
    state.on_button_released();
    assert!(state.drag_state.is_none());
    assert_eq!(state.pan_step(true, cursor, true), None);
}
