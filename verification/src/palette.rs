//! The 254-entry palette: a 6x6x6 RGB cube, a grayscale ramp that skips
//! values already present in the cube, fourteen extra colors, and a
//! zero fill for the remaining slots.

use vstd::prelude::*;
use vstd::arithmetic::div_mod::lemma_fundamental_div_mod_converse;
use crate::color::{spec_pack, pack_rgb, lemma_unpack_pack, spec_red, spec_green, spec_blue};

verus! {

/// The cube intensity level for index `i` in 0..6: 0x00, 0x33, 0x66,
/// 0x99, 0xCC, 0xFF, that is 51 * i.
pub open spec fn cube_level(i: int) -> u8 {
    (51 * i) as u8
}

/// Whether a channel value is one of the six cube levels.
pub open spec fn is_cube_level(v: int) -> bool {
    v == 0x00 || v == 0x33 || v == 0x66 || v == 0x99 || v == 0xCC || v == 0xFF
}

/// The cube entry at index `k` in 0..216: the cube is enumerated
/// row-major, red outermost, blue innermost.
pub open spec fn cube_color(k: int) -> u32 {
    spec_pack(cube_level(k / 36), cube_level((k / 6) % 6), cube_level(k % 6))
}

/// The 216 cube entries, in order.
pub open spec fn cube_seq() -> Seq<u32> {
    Seq::new(216, |k: int| cube_color(k))
}

/// The grayscale value for step `i`: (i * 255) / 25, floor division.
pub open spec fn gray_value(i: int) -> int {
    (i * 255) / 25
}

/// The grayscale entries appended for steps 1..=n: each step's value
/// that is not already a cube level, packed as (v, v, v), in increasing
/// step order.
pub open spec fn gray_prefix(n: int) -> Seq<u32>
    decreases n,
{
    if n <= 0 {
        Seq::empty()
    } else {
        let v = gray_value(n);
        if is_cube_level(v) {
            gray_prefix(n - 1)
        } else {
            gray_prefix(n - 1).push(spec_pack(v as u8, v as u8, v as u8))
        }
    }
}

/// The grayscale entries for the full ramp, steps 1..=24.
pub open spec fn gray_seq() -> Seq<u32> {
    gray_prefix(24)
}

/// The fourteen hand-picked extra colors, in listed order.
pub open spec fn extras_seq() -> Seq<u32> {
    seq![
        0xFF6B6Bu32,
        0x4ECDC4u32,
        0x45B7D1u32,
        0x96CEB4u32,
        0xFFA07Au32,
        0xDDA0DDu32,
        0x20B2AAu32,
        0x778899u32,
        0xBC8F8Fu32,
        0xF0E68Cu32,
        0xE6E6FAu32,
        0xFFF0F5u32,
        0x2F4F4Fu32,
        0x191970u32,
    ]
}

/// The whole palette: cube, then grayscale, then extras, with any
/// remaining slots zero-filled (black) up to 254 entries.
pub open spec fn palette_spec() -> Seq<u32> {
    let base = cube_seq() + gray_seq() + extras_seq();
    base + Seq::new((254 - base.len()) as nat, |k: int| 0u32)
}

/// The grayscale ramp, written out: steps 5, 10, 15 and 20 land on cube
/// levels (51, 102, 153, 204) and are skipped; the other twenty values
/// are kept in increasing order.
pub proof fn lemma_gray_values()
    ensures
        gray_seq() == seq![
            spec_pack(10, 10, 10),
            spec_pack(20, 20, 20),
            spec_pack(30, 30, 30),
            spec_pack(40, 40, 40),
            spec_pack(61, 61, 61),
            spec_pack(71, 71, 71),
            spec_pack(81, 81, 81),
            spec_pack(91, 91, 91),
            spec_pack(112, 112, 112),
            spec_pack(122, 122, 122),
            spec_pack(132, 132, 132),
            spec_pack(142, 142, 142),
            spec_pack(163, 163, 163),
            spec_pack(173, 173, 173),
            spec_pack(183, 183, 183),
            spec_pack(193, 193, 193),
            spec_pack(214, 214, 214),
            spec_pack(224, 224, 224),
            spec_pack(234, 234, 234),
            spec_pack(244, 244, 244),
        ],
        gray_seq().len() == 20,
{
    reveal_with_fuel(gray_prefix, 25);
    assert(gray_seq() =~= seq![
        spec_pack(10, 10, 10),
        spec_pack(20, 20, 20),
        spec_pack(30, 30, 30),
        spec_pack(40, 40, 40),
        spec_pack(61, 61, 61),
        spec_pack(71, 71, 71),
        spec_pack(81, 81, 81),
        spec_pack(91, 91, 91),
        spec_pack(112, 112, 112),
        spec_pack(122, 122, 122),
        spec_pack(132, 132, 132),
        spec_pack(142, 142, 142),
        spec_pack(163, 163, 163),
        spec_pack(173, 173, 173),
        spec_pack(183, 183, 183),
        spec_pack(193, 193, 193),
        spec_pack(214, 214, 214),
        spec_pack(224, 224, 224),
        spec_pack(234, 234, 234),
        spec_pack(244, 244, 244),
    ]);
}

/// A grayscale step's value coincides with a cube level exactly for
/// steps 5, 10, 15 and 20; every other step in 1..=24 contributes a new
/// grayscale entry.
pub proof fn lemma_gray_skip_rule(i: int)
    requires
        1 <= i <= 24,
    ensures
        is_cube_level(gray_value(i)) <==> (i == 5 || i == 10 || i == 15 || i == 20),
{
}

/// Builds the palette: 216 cube colors, the grayscale ramp, the extra
/// colors, and zeros for the remaining slots; exactly 254 entries.
pub fn generate_palette() -> (palette: Vec<u32>)
    ensures
        palette@ == palette_spec(),
        palette@.len() == 254,
{
    let mut palette: Vec<u32> = Vec::new();

    // 216 colors: the 6x6x6 RGB cube, red outermost, blue innermost.
    for idx in 0..216usize
        invariant
            palette@.len() == idx,
            forall|k: int| 0 <= k < idx ==> palette@[k] == cube_color(k),
    {
        let r = (51 * (idx / 36)) as u8;
        let g = (51 * ((idx / 6) % 6)) as u8;
        let b = (51 * (idx % 6)) as u8;
        palette.push(pack_rgb(r, g, b));
    }
    proof {
        assert(palette@ =~= cube_seq());
    }

    // Grayscale ramp: skip values that are already cube levels.
    let mut i: usize = 1;
    while i <= 24
        invariant
            1 <= i <= 25,
            palette@ == cube_seq() + gray_prefix(i - 1),
        decreases 25 - i,
    {
        let v = (i * 255) / 25;
        if v != 0x00 && v != 0x33 && v != 0x66 && v != 0x99 && v != 0xCC && v != 0xFF {
            palette.push(pack_rgb(v as u8, v as u8, v as u8));
            proof {
                assert(palette@ =~= cube_seq() + gray_prefix(i as int));
            }
        }
        i += 1;
    }
    proof {
        lemma_gray_values();
        assert(palette@.len() == 236);
    }

    // The extra colors, while room remains.
    let mut j: usize = 0;
    while j < 14
        invariant
            j <= 14,
            palette@.len() == 236 + j,
            palette@ == cube_seq() + gray_seq() + extras_seq().take(j as int),
        decreases 14 - j,
    {
        if palette.len() < 254 {
            palette.push(extra_color(j));
            proof {
                assert(extras_seq().take(j as int).push(extras_seq()[j as int])
                    =~= extras_seq().take(j + 1));
                assert(palette@ =~= cube_seq() + gray_seq() + extras_seq().take(j + 1));
            }
        }
        j += 1;
    }
    proof {
        assert(extras_seq().take(14) =~= extras_seq());
    }

    // Zero-fill the remaining slots.
    while palette.len() < 254
        invariant
            250 <= palette@.len() <= 254,
            palette@ == cube_seq() + gray_seq() + extras_seq()
                + Seq::new((palette@.len() - 250) as nat, |k: int| 0u32),
        decreases 254 - palette@.len(),
    {
        palette.push(0);
        proof {
            let n = (palette@.len() - 250) as nat;
            assert(Seq::new((n - 1) as nat, |k: int| 0u32).push(0u32)
                =~= Seq::new(n, |k: int| 0u32));
            assert(palette@ =~= cube_seq() + gray_seq() + extras_seq()
                + Seq::new(n, |k: int| 0u32));
        }
    }
    proof {
        assert(palette@ =~= palette_spec());
    }

    palette
}

/// The extra color at position `j` of the listed fourteen.
pub fn extra_color(j: usize) -> (c: u32)
    requires
        j < 14,
    ensures
        c == extras_seq()[j as int],
{
    if j == 0 {
        0xFF6B6B
    } else if j == 1 {
        0x4ECDC4
    } else if j == 2 {
        0x45B7D1
    } else if j == 3 {
        0x96CEB4
    } else if j == 4 {
        0xFFA07A
    } else if j == 5 {
        0xDDA0DD
    } else if j == 6 {
        0x20B2AA
    } else if j == 7 {
        0x778899
    } else if j == 8 {
        0xBC8F8F
    } else if j == 9 {
        0xF0E68C
    } else if j == 10 {
        0xE6E6FA
    } else if j == 11 {
        0xFFF0F5
    } else if j == 12 {
        0x2F4F4F
    } else {
        0x191970
    }
}

/// The cube combination (ri, gi, bi) stands at palette index
/// ri*36 + gi*6 + bi, packed from the three cube levels: every
/// combination of the six levels appears, in row-major order.
pub proof fn lemma_cube_index(ri: int, gi: int, bi: int)
    requires
        0 <= ri < 6,
        0 <= gi < 6,
        0 <= bi < 6,
    ensures
        0 <= ri * 36 + gi * 6 + bi < 216,
        palette_spec()[ri * 36 + gi * 6 + bi]
            == spec_pack(cube_level(ri), cube_level(gi), cube_level(bi)),
{
    let k = ri * 36 + gi * 6 + bi;
    lemma_fundamental_div_mod_converse(k, 36, ri, gi * 6 + bi);
    lemma_fundamental_div_mod_converse(k, 6, ri * 6 + gi, bi);
    lemma_fundamental_div_mod_converse(ri * 6 + gi, 6, ri, gi);
    assert(k / 36 == ri);
    assert((k / 6) % 6 == gi);
    assert(k % 6 == bi);
    assert(palette_spec()[k] == cube_color(k));
}

/// No cube entry repeats: distinct indices in 0..216 hold distinct
/// colors, so indices 0..216 hold each combination exactly once.
pub proof fn lemma_cube_injective(k1: int, k2: int)
    requires
        0 <= k1 < 216,
        0 <= k2 < 216,
        palette_spec()[k1] == palette_spec()[k2],
    ensures
        k1 == k2,
{
    assert(palette_spec()[k1] == cube_color(k1));
    assert(palette_spec()[k2] == cube_color(k2));
    lemma_cube_decompose(k1);
    lemma_cube_decompose(k2);
    lemma_unpack_pack(cube_level(k1 / 36), cube_level((k1 / 6) % 6), cube_level(k1 % 6));
    lemma_unpack_pack(cube_level(k2 / 36), cube_level((k2 / 6) % 6), cube_level(k2 % 6));
    assert(cube_level(k1 / 36) == cube_level(k2 / 36));
    assert(cube_level((k1 / 6) % 6) == cube_level((k2 / 6) % 6));
    assert(cube_level(k1 % 6) == cube_level(k2 % 6));
}

/// The palette's regions: the cube fills indices 0..216, the twenty
/// grayscale entries follow at 216..236, the fourteen extras stand in
/// listed order immediately after the last grayscale entry at
/// 236..250, and the remaining four slots are zero.
pub proof fn lemma_palette_layout()
    ensures
        palette_spec().len() == 254,
        palette_spec().subrange(0, 216) == cube_seq(),
        palette_spec().subrange(216, 236) == gray_seq(),
        palette_spec().subrange(236, 250) == extras_seq(),
        palette_spec().subrange(250, 254) == Seq::new(4, |k: int| 0u32),
{
    lemma_gray_values();
    assert(palette_spec().subrange(0, 216) =~= cube_seq());
    assert(palette_spec().subrange(216, 236) =~= gray_seq());
    assert(palette_spec().subrange(236, 250) =~= extras_seq());
    assert(palette_spec().subrange(250, 254) =~= Seq::new(4, |k: int| 0u32));
}

/// Every palette entry is a 24-bit value, so decomposing it into its
/// three channels and re-packing them reproduces the entry exactly.
pub proof fn lemma_palette_round_trip(k: int)
    requires
        0 <= k < 254,
    ensures
        palette_spec()[k] <= 0xFFFFFF,
        spec_pack(
            spec_red(palette_spec()[k]),
            spec_green(palette_spec()[k]),
            spec_blue(palette_spec()[k]),
        ) == palette_spec()[k],
{
    lemma_gray_values();
    let c = palette_spec()[k];
    if k < 216 {
        assert(c == cube_color(k));
    } else if k < 236 {
        assert(c == gray_seq()[k - 216]);
    } else if k < 250 {
        assert(c == extras_seq()[k - 236]);
    } else {
        assert(c == 0);
    }
    assert(c <= 0xFFFFFF);
    crate::color::lemma_pack_unpack(c);
}

/// A cube index decomposes into its three digits in base 6.
proof fn lemma_cube_decompose(k: int)
    requires
        0 <= k < 216,
    ensures
        0 <= k / 36 < 6,
        0 <= (k / 6) % 6 < 6,
        0 <= k % 6 < 6,
        k == (k / 36) * 36 + ((k / 6) % 6) * 6 + k % 6,
{
    vstd::arithmetic::div_mod::lemma_fundamental_div_mod(k, 36);
    vstd::arithmetic::div_mod::lemma_fundamental_div_mod(k % 36, 6);
    lemma_fundamental_div_mod_converse(k, 6, 6 * (k / 36) + (k % 36) / 6, (k % 36) % 6);
    lemma_fundamental_div_mod_converse(k / 6, 6, k / 36, (k % 36) / 6);
}

} // verus!
