use mandelrust::palette::{Palette, HUE_STEPS};
use mandelrust::protocol::{
    Region, RenderType, DEFAULT_IM0, DEFAULT_IM1, DEFAULT_RE0, DEFAULT_RE1, PREVIEW_HEIGHT,
    PREVIEW_WIDTH,
};

#[test]
fn preview_resolution_is_fixed() {
    assert_eq!(PREVIEW_WIDTH, 256);
    assert_eq!(PREVIEW_HEIGHT, 256);
    assert_eq!(RenderType::PreviewRender.resolution(640, 480), (256, 256));
    assert_eq!(RenderType::PreviewRender.resolution(0, 0), (256, 256));
}

#[test]
fn full_resolution_is_the_framebuffer() {
    assert_eq!(RenderType::FullRender.resolution(640, 480), (640, 480));
    assert_eq!(RenderType::FullRender.resolution(0, 7), (0, 7));
}

#[test]
fn initial_region_holds_the_default_bounds() {
    let r = Region::initial();
    assert_eq!(f32::from_bits(r.re0), -1.4f32);
    assert_eq!(f32::from_bits(r.re1), 0.6f32);
    assert_eq!(f32::from_bits(r.im0), -1.0f32);
    assert_eq!(f32::from_bits(r.im1), 1.0f32);
    assert_eq!(r, Region { re0: DEFAULT_RE0, re1: DEFAULT_RE1, im0: DEFAULT_IM0, im1: DEFAULT_IM1 });
}

#[test]
fn palette_has_720_entries() {
    let p = Palette::build();
    assert_eq!(HUE_STEPS, 720);
    assert_eq!(p.len(), 720);
}

#[test]
fn palette_corners_of_the_hue_sweep() {
    let p = Palette::build();
    assert_eq!(p.color_at(0), (255, 0, 0));
    assert_eq!(p.color_at(60), (255, 255, 0));
    assert_eq!(p.color_at(120), (0, 255, 0));
    assert_eq!(p.color_at(180), (0, 255, 255));
    assert_eq!(p.color_at(240), (0, 0, 255));
    assert_eq!(p.color_at(300), (255, 0, 255));
}

#[test]
fn palette_ramps_between_the_corners() {
    let p = Palette::build();
    // 255 * 1 / 60 = 4.25, 255 * 4 / 60 = 17, 255 * 59 / 60 = 250.75
    assert_eq!(p.color_at(1), (255, 4, 0));
    assert_eq!(p.color_at(4), (255, 17, 0));
    assert_eq!(p.color_at(59), (255, 250, 0));
    assert_eq!(p.color_at(61), (250, 255, 0));
    assert_eq!(p.color_at(90), (127, 255, 0));
    assert_eq!(p.color_at(150), (0, 255, 127));
    assert_eq!(p.color_at(210), (0, 127, 255));
    assert_eq!(p.color_at(270), (127, 0, 255));
    assert_eq!(p.color_at(330), (255, 0, 127));
    assert_eq!(p.color_at(359), (255, 0, 4));
}

#[test]
fn palette_is_black_from_360_on() {
    let p = Palette::build();
    let mut h: u32 = 360;
    while h < 720 {
        assert_eq!(p.color_at(h), (0, 0, 0));
        h += 1;
    }
}

#[test]
fn palette_lookup_wraps_at_its_length() {
    let p = Palette::build();
    let mut h: u32 = 0;
    while h < 720 {
        assert_eq!(p.color_at(h + 720), p.color_at(h));
        assert_eq!(p.color_at(h + 7200), p.color_at(h));
        h += 1;
    }
    // 4294967295 = 720 * 5965232 + 255
    assert_eq!(p.color_at(u32::MAX), p.color_at(255));
    assert_eq!(p.color_at(500), (0, 0, 0));
}

#[test]
fn palette_is_the_same_every_time() {
    let a = Palette::build();
    let b = Palette::build();
    let mut h: u32 = 0;
    while h < 720 {
        assert_eq!(a.color_at(h), b.color_at(h));
        h += 1;
    }
}

fn hue_in_single_precision(h: u32) -> (f32, f32, f32) {
    let c = 1.0f32;
    let hp = h as f32 / 60.0;
    let x = c * (1.0 - (hp % 2.0 - 1.0).abs());
    if hp < 1.0 {
        (c, x, 0.0)
    } else if hp < 2.0 {
        (x, c, 0.0)
    } else if hp < 3.0 {
        (0.0, c, x)
    } else if hp < 4.0 {
        (0.0, x, c)
    } else if hp < 5.0 {
        (x, 0.0, c)
    } else if hp < 6.0 {
        (c, 0.0, x)
    } else {
        (0.0, 0.0, 0.0)
    }
}

#[test]
fn palette_agrees_with_the_sweep_in_single_precision_within_one_level() {
    let p = Palette::build();
    let mut h: u32 = 0;
    while h < 720 {
        let (r, g, b) = hue_in_single_precision(h);
        let (pr, pg, pb) = p.color_at(h);
        let near = |exact: u8, approx: f32| {
            let level = approx * 255.0;
            (exact as f32 - level).abs() <= 1.0
        };
        assert!(near(pr, r), "red at {}", h);
        assert!(near(pg, g), "green at {}", h);
        assert!(near(pb, b), "blue at {}", h);
        h += 1;
    }
}
