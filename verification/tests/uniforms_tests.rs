use shapes_renderer::uniforms::Uniforms;

fn ratio(width: u32, height: u32) -> u32 {
    (width as f32 / height as f32).to_bits()
}

/// The comparison the caller makes, in single precision.
fn differs(current: u32, stored: u32) -> bool {
    (f32::from_bits(current) - f32::from_bits(stored)).abs() > f32::EPSILON
}

/// The per-frame check as the caller runs it against a live viewport.
fn check(uniforms: &mut Uniforms, width: u32, height: u32) -> bool {
    let current = ratio(width, height);
    let found = differs(current, uniforms.aspect_ratio);
    uniforms.reconcile(current, found)
}

#[test]
fn reconcile_takes_over_the_live_ratio_on_a_difference() {
    let mut uniforms = Uniforms { aspect_ratio: ratio(800, 600) };
    assert!(uniforms.reconcile(ratio(1920, 1080), true));
    assert_eq!(uniforms.aspect_ratio, ratio(1920, 1080));
    assert_eq!(f32::from_bits(uniforms.aspect_ratio), 1920.0f32 / 1080.0f32);
}

#[test]
fn reconcile_keeps_the_stored_ratio_without_a_difference() {
    let mut uniforms = Uniforms { aspect_ratio: ratio(800, 600) };
    assert!(!uniforms.reconcile(ratio(1920, 1080), false));
    assert_eq!(uniforms.aspect_ratio, ratio(800, 600));
}

#[test]
fn equal_proportions_need_no_upload() {
    let mut uniforms = Uniforms { aspect_ratio: ratio(800, 600) };
    assert!(!check(&mut uniforms, 400, 300));
    assert_eq!(uniforms.aspect_ratio, ratio(800, 600));
}

#[test]
fn different_proportions_need_an_upload() {
    let mut uniforms = Uniforms { aspect_ratio: ratio(800, 600) };
    assert!(check(&mut uniforms, 801, 600));
    assert_eq!(uniforms.aspect_ratio, ratio(801, 600));
}

#[test]
fn reconcile_twice_changes_nothing_the_second_time() {
    for (width, height) in [(1920u32, 1080u32), (800, 600), (1, 1), (640, 0), (0, 0), (5797, 2898)] {
        let mut uniforms = Uniforms { aspect_ratio: ratio(800, 600) };
        check(&mut uniforms, width, height);
        let after_first = uniforms;
        assert!(!check(&mut uniforms, width, height));
        assert_eq!(uniforms, after_first);
    }
}

#[test]
fn a_viewport_without_height_is_taken_over_once() {
    let mut uniforms = Uniforms { aspect_ratio: ratio(800, 600) };
    assert!(check(&mut uniforms, 640, 0));
    assert_eq!(f32::from_bits(uniforms.aspect_ratio), f32::INFINITY);
    assert!(!check(&mut uniforms, 640, 0));
}

#[test]
fn a_viewport_without_any_size_is_never_taken_over() {
    let mut uniforms = Uniforms { aspect_ratio: ratio(800, 600) };
    assert!(!check(&mut uniforms, 0, 0));
    assert_eq!(uniforms.aspect_ratio, ratio(800, 600));
}
