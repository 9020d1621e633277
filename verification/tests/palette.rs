use colors::color::{blue_of, green_of, pack_rgb, red_of};
use colors::palette::{extra_color, generate_palette};

const LEVELS: [u32; 6] = [0x00, 0x33, 0x66, 0x99, 0xCC, 0xFF];

const EXTRAS: [u32; 14] = [
    0xFF6B6B, 0x4ECDC4, 0x45B7D1, 0x96CEB4, 0xFFA07A, 0xDDA0DD, 0x20B2AA, 0x778899, 0xBC8F8F,
    0xF0E68C, 0xE6E6FA, 0xFFF0F5, 0x2F4F4F, 0x191970,
];

#[test]
fn palette_has_254_entries() {
    let palette = generate_palette();
    assert_eq!(palette.len(), 254);
}

#[test]
fn cube_is_row_major_and_complete() {
    let palette = generate_palette();
    assert_eq!(palette[0], 0x000000);
    assert_eq!(palette[215], 0xFFFFFF);
    for (ri, &r) in LEVELS.iter().enumerate() {
        for (gi, &g) in LEVELS.iter().enumerate() {
            for (bi, &b) in LEVELS.iter().enumerate() {
                let idx = ri * 36 + gi * 6 + bi;
                assert_eq!(palette[idx], (r << 16) | (g << 8) | b);
            }
        }
    }
}

#[test]
fn cube_entries_are_unique() {
    let palette = generate_palette();
    for i in 0..216 {
        for j in 0..i {
            assert_ne!(palette[i], palette[j]);
        }
    }
}

#[test]
fn grayscale_follows_skip_rule() {
    let palette = generate_palette();
    let mut expected = Vec::new();
    for i in 1u32..=24 {
        let v = (i * 255) / 25;
        if !LEVELS.contains(&v) {
            expected.push((v << 16) | (v << 8) | v);
        }
    }
    assert_eq!(expected.len(), 20);
    for (k, &c) in expected.iter().enumerate() {
        assert_eq!(palette[216 + k], c);
    }
}

#[test]
fn grayscale_first_step_kept_and_levels_skipped() {
    let palette = generate_palette();
    // i = 1 gives v = 255 / 25 = 10, which is no cube level: appended first.
    assert_eq!((1 * 255) / 25, 10);
    assert_eq!(palette[216], 0x0A0A0A);
    // Steps 5, 10, 15, 20 land exactly on cube levels and are skipped.
    for i in 1u32..=24 {
        let v = (i * 255) / 25;
        let skipped = LEVELS.contains(&v);
        assert_eq!(skipped, i % 5 == 0);
    }
    // A skipped value never starts a new grayscale entry: the entry
    // after v = 40 (step 4) is v = 61 (step 6), not 51.
    assert_eq!(palette[219], 0x282828);
    assert_eq!(palette[220], 0x3D3D3D);
}

#[test]
fn extras_in_listed_order_then_zero_fill() {
    let palette = generate_palette();
    for (k, &c) in EXTRAS.iter().enumerate() {
        assert_eq!(palette[236 + k], c);
    }
    for k in 250..254 {
        assert_eq!(palette[k], 0x000000);
    }
}

#[test]
fn packing_round_trips_for_every_entry() {
    let palette = generate_palette();
    for &c in palette.iter() {
        let r = ((c >> 16) & 0xFF) as u8;
        let g = ((c >> 8) & 0xFF) as u8;
        let b = (c & 0xFF) as u8;
        assert_eq!((r as u32) << 16 | (g as u32) << 8 | (b as u32), c);
        assert_eq!(pack_rgb(red_of(c), green_of(c), blue_of(c)), c);
    }
}

#[test]
fn pack_and_unpack_channels() {
    assert_eq!(pack_rgb(0x01, 0x02, 0x03), 0x010203);
    assert_eq!(pack_rgb(255, 255, 255), 0xFFFFFF);
    assert_eq!(red_of(0xABCDEF), 0xAB);
    assert_eq!(green_of(0xABCDEF), 0xCD);
    assert_eq!(blue_of(0xABCDEF), 0xEF);
}

#[test]
fn extra_color_matches_list() {
    for (j, &c) in EXTRAS.iter().enumerate() {
        assert_eq!(extra_color(j), c);
    }
}
