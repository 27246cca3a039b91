//! What the display side computes before talking to the panel: where a
//! key's region lies on the shared panel, and the RGB565 pixels of a key
//! image.

use vstd::prelude::*;
use crate::image::{rgb888_to_rgb565, rgb888_to_rgb565_spec};

verus! {

/// Inclusive panel window `(x0, y0, x1, y1)` of key `key_id` in a grid
/// `cols` keys wide, each `key_size` pixels square.
pub open spec fn key_window_spec(key_id: int, cols: int, key_size: int) -> (int, int, int, int) {
    let x0 = (key_id % cols) * key_size;
    let y0 = (key_id / cols) * key_size;
    (x0, y0, x0 + key_size - 1, y0 + key_size - 1)
}

/// The panel window of a key, or `None` for a key the device lacks.
pub fn key_window(key_id: u8, keys: usize, cols: usize, key_size: usize) -> (r: Option<(usize, usize, usize, usize)>)
    requires
        keys <= 32,
        key_size <= 4096,
    ensures
        r is Some <==> (key_id < keys && cols > 0 && key_size > 0),
        r matches Some(w) ==> (w.0 as int, w.1 as int, w.2 as int, w.3 as int) == key_window_spec(
            key_id as int,
            cols as int,
            key_size as int,
        ),
{
    if key_id as usize >= keys || cols == 0 || key_size == 0 {
        return None;
    }
    let k = key_id as usize;
    let col = k % cols;
    let row = k / cols;
    proof {
        vstd::arithmetic::div_mod::lemma_fundamental_div_mod(k as int, cols as int);
        vstd::arithmetic::div_mod::lemma_mod_pos_bound(k as int, cols as int);
        vstd::arithmetic::div_mod::lemma_div_pos_is_pos(k as int, cols as int);
        assert(row <= k && col <= k) by (nonlinear_arith)
            requires
                k == cols * row + col,
                cols >= 1,
                row >= 0,
                col >= 0,
        ;
    }
    assert(col * key_size <= 32 * 4096 && row * key_size <= 32 * 4096) by (nonlinear_arith)
        requires
            col <= k,
            row <= k,
            k < 32,
            key_size <= 4096,
    ;
    let x0 = col * key_size;
    let y0 = row * key_size;
    Some((x0, y0, x0 + key_size - 1, y0 + key_size - 1))
}

/// The RGB data of a key image: after the 54-byte header when the image is
/// a BMP file, the whole image otherwise.
pub open spec fn bmp_payload(d: Seq<u8>) -> Seq<u8> {
    if d.len() > 54 && d[0] == 0x42 && d[1] == 0x4d {
        d.skip(54)
    } else {
        d
    }
}

/// RGB565 pixels of a `key_size`-square key image, or `None` when the
/// image holds too little RGB data.
pub fn key_pixels(image_data: &[u8], key_size: usize) -> (r: Option<Vec<u8>>)
    requires
        key_size <= 4096,
    ensures
        ({
            let rgb = bmp_payload(image_data@);
            let need = key_size * key_size * 3;
            &&& r is Some <==> rgb.len() >= need
            &&& r matches Some(v) ==> v@ == rgb888_to_rgb565_spec(rgb.subrange(0, need))
        }),
{
    let offset: usize = if image_data.len() > 54 && image_data[0] == 0x42 && image_data[1] == 0x4d {
        54
    } else {
        0
    };
    let rgb = &image_data[offset..image_data.len()];
    assert(rgb@ =~= bmp_payload(image_data@));
    assert(key_size * key_size <= 4096 * 4096) by (nonlinear_arith)
        requires
            key_size <= 4096,
    ;
    let need = key_size * key_size * 3;
    if rgb.len() < need {
        return None;
    }
    Some(rgb888_to_rgb565(&rgb[0..need]))
}

} // verus!
