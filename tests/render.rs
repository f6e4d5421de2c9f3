use indicator_panel::buffer::{DrawError, PixelBuffer};
use indicator_panel::display::Display;
use indicator_panel::geometry::{Bounds, Indicator, PANEL_HEIGHT, PANEL_WIDTH};
use indicator_panel::glyph::{Glyph, GlyphTable};

const ORDER: [Indicator; 7] = [
    Indicator::Clock,
    Indicator::Bell,
    Indicator::CapsLock,
    Indicator::Compose,
    Indicator::ScrollLock,
    Indicator::NumLock,
    Indicator::Buzzer,
];

/// A glyph of the given size whose bytes follow a pattern unique to `seed`.
fn patterned(width: u32, height: u32, seed: u8) -> Glyph {
    let stride = ((width + 7) / 8) as usize;
    let mut data = Vec::new();
    for i in 0..stride * height as usize {
        data.push(seed.wrapping_mul(37).wrapping_add((i as u8).wrapping_mul(11)) ^ 0x5a);
    }
    Glyph::new(data, width)
}

fn bit(g: &Glyph, x: u32, y: u32) -> bool {
    let stride = ((g.width + 7) / 8) as usize;
    let byte = g.data[y as usize * stride + (x / 8) as usize];
    byte & (0x80 >> (x % 8)) != 0
}

fn glyph_sets() -> (Vec<Glyph>, Vec<Glyph>) {
    let mut lit = Vec::new();
    let mut unlit = Vec::new();
    for (i, ind) in ORDER.iter().enumerate() {
        let b = ind.bounds();
        lit.push(patterned(b.width, b.height, 2 * i as u8 + 1));
        if *ind != Indicator::Buzzer {
            unlit.push(patterned(b.width, b.height, 2 * i as u8 + 2));
        }
    }
    (lit, unlit)
}

fn table() -> GlyphTable {
    let (lit, unlit) = glyph_sets();
    GlyphTable::new(lit, unlit).unwrap()
}

fn state_from_bits(bits: u32) -> Display {
    Display {
        clk: bits & 1 != 0,
        bel: bits & 2 != 0,
        cap: bits & 4 != 0,
        cmp: bits & 8 != 0,
        scr: bits & 16 != 0,
        num: bits & 32 != 0,
        buzzer: bits & 64 != 0,
    }
}

fn flag(d: &Display, ind: Indicator) -> bool {
    match ind {
        Indicator::Clock => d.clk,
        Indicator::Bell => d.bel,
        Indicator::CapsLock => d.cap,
        Indicator::Compose => d.cmp,
        Indicator::ScrollLock => d.scr,
        Indicator::NumLock => d.num,
        Indicator::Buzzer => d.buzzer,
    }
}

fn inside(b: &Bounds, x: u32, y: u32) -> bool {
    b.x <= x && x < b.x + b.width && b.y <= y && y < b.y + b.height
}

/// A buffer with a checkerboard background, so untouched pixels are visible.
fn checkered(width: u32, height: u32) -> PixelBuffer {
    let mut buf = PixelBuffer::new(width, height);
    let dot = Glyph::new(vec![0x80], 1);
    for y in 0..height {
        for x in 0..width {
            if (x + y) % 2 == 0 {
                buf.blit(&dot, x, y).unwrap();
            }
        }
    }
    buf
}

fn snapshot(buf: &PixelBuffer) -> Vec<Vec<bool>> {
    (0..buf.height())
        .map(|y| (0..buf.width()).map(|x| buf.get(x, y)).collect())
        .collect()
}

/// Checks every pixel of `after` against the drawing of `state` over `before`.
fn assert_rendered(state: &Display, glyphs: &GlyphTable, before: &[Vec<bool>], after: &PixelBuffer) {
    for y in 0..after.height() {
        for x in 0..after.width() {
            let mut expected = before[y as usize][x as usize];
            for ind in ORDER {
                let b = ind.bounds();
                if inside(&b, x, y) {
                    let on = flag(state, ind);
                    if on || ind != Indicator::Buzzer {
                        expected = bit(glyphs.get(ind, on), x - b.x, y - b.y);
                    }
                }
            }
            assert_eq!(after.get(x, y), expected, "pixel ({}, {})", x, y);
        }
    }
}

#[test]
fn caps_and_buzzer_scenario() {
    let glyphs = table();
    let state = Display { clk: false, bel: false, cap: true, cmp: false, scr: false, num: false, buzzer: true };
    let mut buf = PixelBuffer::new(PANEL_WIDTH, PANEL_HEIGHT);
    assert_eq!(state.draw(&glyphs, &mut buf), Ok(()));
    let (lit, unlit) = glyph_sets();
    for (i, ind) in ORDER.iter().enumerate() {
        let b = ind.bounds();
        let g = if *ind == Indicator::CapsLock || *ind == Indicator::Buzzer { &lit[i] } else { &unlit[i] };
        for y in 0..b.height {
            for x in 0..b.width {
                assert_eq!(buf.get(b.x + x, b.y + y), bit(g, x, y));
            }
        }
    }
    for y in 0..PANEL_HEIGHT {
        for x in 0..PANEL_WIDTH {
            if !ORDER.iter().any(|ind| inside(&ind.bounds(), x, y)) {
                assert!(!buf.get(x, y));
            }
        }
    }
}

#[test]
fn all_clear_scenario() {
    let glyphs = table();
    let state = state_from_bits(0);
    let before = checkered(PANEL_WIDTH, PANEL_HEIGHT);
    let mut buf = before.clone();
    assert_eq!(state.draw(&glyphs, &mut buf), Ok(()));
    let (_, unlit) = glyph_sets();
    for (i, ind) in ORDER.iter().enumerate() {
        let b = ind.bounds();
        for y in 0..b.height {
            for x in 0..b.width {
                let expected = if *ind == Indicator::Buzzer {
                    before.get(b.x + x, b.y + y)
                } else {
                    bit(&unlit[i], x, y)
                };
                assert_eq!(buf.get(b.x + x, b.y + y), expected);
            }
        }
    }
}

#[test]
fn every_flag_combination_draws_only_its_glyphs() {
    let glyphs = table();
    let background = checkered(PANEL_WIDTH, PANEL_HEIGHT);
    let before = snapshot(&background);
    for bits in 0..128u32 {
        let state = state_from_bits(bits);
        let mut buf = background.clone();
        assert_eq!(state.draw(&glyphs, &mut buf), Ok(()));
        assert_rendered(&state, &glyphs, &before, &buf);
    }
}

#[test]
fn drawing_twice_matches_drawing_once() {
    let glyphs = table();
    for bits in [0u32, 5, 64, 127, 42] {
        let state = state_from_bits(bits);
        let mut once = checkered(PANEL_WIDTH, PANEL_HEIGHT);
        state.draw(&glyphs, &mut once).unwrap();
        let mut twice = once.clone();
        state.draw(&glyphs, &mut twice).unwrap();
        assert_eq!(snapshot(&once), snapshot(&twice));
    }
}

#[test]
fn larger_buffer_keeps_pixels_beyond_panel() {
    let glyphs = table();
    let state = state_from_bits(127);
    let background = checkered(PANEL_WIDTH + 8, PANEL_HEIGHT + 4);
    let before = snapshot(&background);
    let mut buf = background.clone();
    assert_eq!(state.draw(&glyphs, &mut buf), Ok(()));
    assert_rendered(&state, &glyphs, &before, &buf);
}

#[test]
fn narrow_buffer_is_rejected() {
    let glyphs = table();
    let state = state_from_bits(0);
    let mut buf = checkered(PANEL_WIDTH - 1, PANEL_HEIGHT);
    let before = snapshot(&buf);
    assert_eq!(state.draw(&glyphs, &mut buf), Err(DrawError::OutOfBounds));
    assert_eq!(buf.width(), PANEL_WIDTH - 1);
    for y in 0..buf.height() {
        for x in 0..buf.width() {
            if !ORDER.iter().any(|ind| inside(&ind.bounds(), x, y)) {
                assert_eq!(buf.get(x, y), before[y as usize][x as usize]);
            }
        }
    }
}

#[test]
fn short_buffer_is_rejected() {
    let glyphs = table();
    let mut buf = PixelBuffer::new(PANEL_WIDTH, PANEL_HEIGHT - 1);
    assert_eq!(state_from_bits(127).draw(&glyphs, &mut buf), Err(DrawError::OutOfBounds));
}
