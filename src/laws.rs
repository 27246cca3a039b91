//! Properties that relate several calls of the library, stated over the
//! spec functions its contracts use and proved by Verus.

use vstd::prelude::*;
use vstd::math::min;
use crate::buffer::IMAGE_BUFFER_CAPACITY;
use crate::command::le_u16;
use crate::handler::{HandlerView, output_step, reset_view};
use crate::image::{rotate_270_spec, rotate_source, rotated};
use vstd::arithmetic::div_mod::{
    lemma_fundamental_div_mod, lemma_fundamental_div_mod_converse, lemma_mod_pos_bound, lemma_div_pos_is_pos,
};
use crate::module6::{CHUNK_HEADER_LEN, m6_step};
use crate::report::{ImageState, Outcome, idle_image, logical_source, mapped_states};
use crate::v1::v1_step;
use crate::v2::{v2_header, v2_step};

verus! {

/// Resetting a handler twice leaves the same state as resetting it once.
pub proof fn lemma_reset_idempotent(v: HandlerView)
    ensures
        reset_view(reset_view(v)) == reset_view(v),
{
}

/// A V1 image packet `[0x02, 0x01, packet, 0, 0, key, 0, 0, payload...]`.
pub open spec fn v1_packet(packet: u8, key: u8, payload: Seq<u8>) -> Seq<u8> {
    seq![0x02u8, 0x01, packet, 0x00, 0x00, key, 0x00, 0x00] + payload
}

/// V1 round trip: packet 1 then packet 2 for the same key give that key's
/// image, the two payloads joined, exactly once: the first packet only
/// starts the upload, and the handler is idle afterwards, so a repeated
/// second packet yields nothing.
pub proof fn lemma_v1_round_trip(s: ImageState, key: u8, a: Seq<u8>, b: Seq<u8>)
    requires
        a.len() + b.len() <= IMAGE_BUFFER_CAPACITY,
    ensures
        v1_step(s, v1_packet(1, key, a)).1 == Outcome::Incomplete,
        v1_step(v1_step(s, v1_packet(1, key, a)).0, v1_packet(2, key, b)) == (
            idle_image(),
            Outcome::Complete { key_id: key, image: a + b },
        ),
        v1_step(idle_image(), v1_packet(2, key, b)).1 == Outcome::Unhandled,
{
    assert(v1_packet(1, key, a).skip(8) =~= a);
    assert(v1_packet(2, key, b).skip(8) =~= b);
}

/// A V2 image packet with its report id, key, last flag, declared payload
/// length and sequence number, both little-endian.
pub open spec fn v2_packet(key: u8, last: bool, len: u16, sequence: u16, payload: Seq<u8>) -> Seq<u8> {
    seq![
        0x02u8,
        0x07,
        key,
        if last { 1u8 } else { 0u8 },
        (len & 0xffu16) as u8,
        (len >> 8u16) as u8,
        (sequence & 0xffu16) as u8,
        (sequence >> 8u16) as u8,
    ] + payload
}

proof fn lemma_le_u16_split(x: u16)
    ensures
        le_u16((x & 0xffu16) as u8, (x >> 8u16) as u8) == x,
{
    assert(((((x & 0xffu16) as u8) as u16) | ((((x >> 8u16) as u8) as u16) << 8u16)) as u16 == x)
        by (bit_vector);
}

proof fn lemma_v2_packet_header(key: u8, last: bool, len: u16, sequence: u16, payload: Seq<u8>)
    ensures
        v2_header(v2_packet(key, last, len, sequence, payload)) == Some(
            (key, last, len, sequence, 8int),
        ),
        v2_packet(key, last, len, sequence, payload).len() == 8 + payload.len(),
        v2_packet(key, last, len, sequence, payload).subrange(8, 8 + min(len as int, payload.len() as int))
            == payload.subrange(0, min(len as int, payload.len() as int)),
{
    lemma_le_u16_split(len);
    lemma_le_u16_split(sequence);
    assert(v2_packet(key, last, len, sequence, payload).subrange(8, 8 + min(len as int, payload.len() as int))
        =~= payload.subrange(0, min(len as int, payload.len() as int)));
}

/// V2 sequence enforcement: after sequence 0, a packet for the same key
/// that skips to sequence 2 resets the handler and yields no image; a new
/// sequence 0 afterwards is taken up normally.
pub proof fn lemma_v2_gap_resets(
    s: ImageState,
    key: u8,
    la: u16,
    a: Seq<u8>,
    last_b: bool,
    lb: u16,
    b: Seq<u8>,
    last_c: bool,
    lc: u16,
    c: Seq<u8>,
)
    requires
        a.len() <= IMAGE_BUFFER_CAPACITY,
        c.len() <= IMAGE_BUFFER_CAPACITY,
    ensures
        ({
            let (s1, o1) = v2_step(s, v2_packet(key, false, la, 0, a));
            let (s2, o2) = v2_step(s1, v2_packet(key, last_b, lb, 2, b));
            &&& o1 == Outcome::Incomplete
            &&& o2 == Outcome::Unhandled
            &&& s2 == idle_image()
            &&& v2_step(s2, v2_packet(key, last_c, lc, 0, c)).1 != Outcome::Unhandled
        }),
{
    lemma_v2_packet_header(key, false, la, 0, a);
    lemma_v2_packet_header(key, last_b, lb, 2, b);
    lemma_v2_packet_header(key, last_c, lc, 0, c);
}

/// With keys numbered left to right, the mapping is the identity on the
/// grid and reads released past it.
pub proof fn lemma_left_to_right_identity(physical: Seq<bool>, cols: int, rows: int, j: int)
    requires
        0 <= j < 32,
    ensures
        mapped_states(physical, cols, rows, true, 32)[j] == (j < cols * rows && j < physical.len()
            && physical[j]),
{
}

/// Reassembly never holds more than the buffer's capacity: every family's
/// step keeps the bound, and no completed image exceeds it.
pub proof fn lemma_output_step_bounded(v: HandlerView, d: Seq<u8>)
    requires
        match v {
            HandlerView::V1 { image, .. } => image.wf(),
            HandlerView::V2 { image, .. } => image.wf(),
            HandlerView::Module6Keys { image, .. } => image.wf(),
            HandlerView::Module15_32Keys { .. } => true,
        },
    ensures
        match output_step(v, d).0 {
            HandlerView::V1 { image, .. } => image.wf(),
            HandlerView::V2 { image, .. } => image.wf(),
            HandlerView::Module6Keys { image, .. } => image.wf(),
            HandlerView::Module15_32Keys { .. } => true,
        },
        match output_step(v, d).1 {
            Outcome::Complete { image, .. } => image.len() <= IMAGE_BUFFER_CAPACITY,
            _ => true,
        },
{
}

/// A V1 second packet whose payload does not fit resets the handler and
/// yields nothing.
pub proof fn lemma_v1_overflow_resets(s: ImageState, key: u8, b: Seq<u8>)
    requires
        s.receiving,
        s.key == key,
        s.buffer.len() + b.len() > IMAGE_BUFFER_CAPACITY,
    ensures
        v1_step(s, v1_packet(2, key, b)) == (idle_image(), Outcome::Unhandled),
{
    assert(v1_packet(2, key, b).skip(8) =~= b);
}

/// A V2 packet that continues the upload but whose payload does not fit
/// resets the handler and yields nothing.
pub proof fn lemma_v2_overflow_resets(s: ImageState, last: bool, len: u16, sequence: u16, payload: Seq<u8>)
    requires
        s.receiving,
        sequence != 0,
        s.next == sequence,
        s.buffer.len() + min(len as int, payload.len() as int) > IMAGE_BUFFER_CAPACITY,
    ensures
        v2_step(s, v2_packet(s.key, last, len, sequence, payload)) == (
            idle_image(),
            Outcome::Unhandled,
        ),
{
    lemma_v2_packet_header(s.key, last, len, sequence, payload);
}

/// A chunk report `[0x02, 0x01, chunk, 0, 0, key, 0, 0, 0, 0, payload...]`.
pub open spec fn chunk_packet(chunk: u8, key: u8, payload: Seq<u8>) -> Seq<u8> {
    seq![0x02u8, 0x01, chunk, 0x00, 0x00, key, 0x00, 0x00, 0x00, 0x00] + payload
}

/// A chunk that continues the upload but does not fit resets the handler
/// and yields nothing.
pub proof fn lemma_chunk_overflow_resets(s: ImageState, payload: Seq<u8>)
    requires
        s.receiving,
        0 < s.next < 256,
        s.buffer.len() + payload.len() > IMAGE_BUFFER_CAPACITY,
    ensures
        m6_step(s, chunk_packet(s.next as u8, s.key, payload)) == (idle_image(), Outcome::Unhandled),
{
    assert(chunk_packet(s.next as u8, s.key, payload).skip(CHUNK_HEADER_LEN as int) =~= payload);
}

/// Pixel `p` of a `w`-wide image seen in row `p / w`, column `p % w`.
proof fn lemma_split(p: int, w: int)
    requires
        0 <= p,
        0 < w,
    ensures
        p == (p / w) * w + p % w,
        0 <= p % w < w,
        0 <= p / w,
{
    lemma_fundamental_div_mod(p, w);
    lemma_mod_pos_bound(p, w);
    lemma_div_pos_is_pos(p, w);
    assert(w * (p / w) == (p / w) * w) by (nonlinear_arith);
}

proof fn lemma_rotate_source_range(p: int, w: int, h: int)
    requires
        0 < w,
        0 < h,
        0 <= p < w * h,
    ensures
        0 <= rotate_source(p, w, h) < w * h,
{
    lemma_split(p, h);
    let a = p / h;
    let b = p % h;
    assert(a < w) by (nonlinear_arith)
        requires
            p == a * h + b,
            0 <= b,
            p < w * h,
            0 < h,
    ;
    assert(b * w + (w - 1 - a) < w * h) by (nonlinear_arith)
        requires
            0 <= b < h,
            0 <= a < w,
    ;
    assert(0 <= b * w) by (nonlinear_arith)
        requires
            0 <= b,
            0 < w,
    ;
}

/// Source pixel of pixel `p` after two rotations: the image turned half way.
pub open spec fn half_turn_source(p: int, w: int, h: int) -> int {
    (h - 1 - p / w) * w + (w - 1 - p % w)
}

proof fn lemma_two_sources(p: int, w: int, h: int)
    requires
        0 < w,
        0 < h,
        0 <= p < w * h,
    ensures
        rotate_source(rotate_source(p, h, w), w, h) == half_turn_source(p, w, h),
        0 <= half_turn_source(p, w, h) < w * h,
        half_turn_source(half_turn_source(p, w, h), w, h) == p,
{
    lemma_split(p, w);
    let a = p / w;
    let b = p % w;
    assert(a < h) by (nonlinear_arith)
        requires
            p == a * w + b,
            0 <= b,
            p < w * h,
            0 < w,
    ;
    lemma_fundamental_div_mod_converse(b * h + (h - 1 - a), h, b, h - 1 - a);
    let q = (h - 1 - a) * w + (w - 1 - b);
    lemma_fundamental_div_mod_converse(q, w, h - 1 - a, w - 1 - b);
    assert(q < w * h) by (nonlinear_arith)
        requires
            0 <= a < h,
            0 <= b < w,
            q == (h - 1 - a) * w + (w - 1 - b),
    ;
    assert(0 <= q) by (nonlinear_arith)
        requires
            0 <= a < h,
            0 <= b < w,
            q == (h - 1 - a) * w + (w - 1 - b),
    ;
}

/// Byte `i` of the rotation of a whole image.
pub open spec fn rotated_byte(s: Seq<u8>, w: int, h: int, i: int) -> u8 {
    s[rotate_source(i / 3, w, h) * 3 + i % 3]
}

proof fn lemma_rotated_prefix(s: Seq<u8>, w: int, h: int, n: nat)
    requires
        0 < w,
        0 < h,
        s.len() == w * h * 3,
        n <= w * h,
    ensures
        rotated(s, w, h, n).len() == 3 * n,
        forall|i: int| 0 <= i < 3 * n ==> #[trigger] rotated(s, w, h, n)[i] == rotated_byte(s, w, h, i),
    decreases n,
{
    if n > 0 {
        let m = (n - 1) as nat;
        lemma_rotated_prefix(s, w, h, m);
        let k = rotate_source(m as int, w, h);
        lemma_rotate_source_range(m as int, w, h);
        assert(k * 3 + 2 < s.len()) by (nonlinear_arith)
            requires
                k < w * h,
                s.len() == w * h * 3,
        ;
        assert forall|i: int| 0 <= i < 3 * n implies #[trigger] rotated(s, w, h, n)[i] == rotated_byte(s, w, h, i) by {
            if i >= 3 * m {
                lemma_fundamental_div_mod_converse(i, 3, m as int, i - 3 * m);
            }
        }
    }
}

proof fn lemma_rotated_whole(s: Seq<u8>, w: int, h: int)
    requires
        0 < w,
        0 < h,
        s.len() == w * h * 3,
    ensures
        rotate_270_spec(s, w, h).len() == w * h * 3,
        forall|i: int| 0 <= i < w * h * 3 ==> #[trigger] rotate_270_spec(s, w, h)[i] == rotated_byte(s, w, h, i),
{
    assert(0 <= w * h) by (nonlinear_arith)
        requires
            0 < w,
            0 < h,
    ;
    lemma_rotated_prefix(s, w, h, (w * h) as nat);
}

proof fn lemma_byte_of_pixel(k: int, c: int)
    requires
        0 <= c < 3,
    ensures
        (k * 3 + c) / 3 == k,
        (k * 3 + c) % 3 == c,
{
    lemma_fundamental_div_mod_converse(k * 3 + c, 3, k, c);
}

/// Two rotations of a whole image turn it half way.
proof fn lemma_two_rotations(s: Seq<u8>, w: int, h: int)
    requires
        0 < w,
        0 < h,
        s.len() == w * h * 3,
    ensures
        rotate_270_spec(rotate_270_spec(s, w, h), h, w).len() == w * h * 3,
        forall|i: int| 0 <= i < w * h * 3 ==> #[trigger] rotate_270_spec(rotate_270_spec(s, w, h), h, w)[i]
            == s[half_turn_source(i / 3, w, h) * 3 + i % 3],
{
    let t = rotate_270_spec(s, w, h);
    lemma_rotated_whole(s, w, h);
    assert(t.len() == h * w * 3) by (nonlinear_arith)
        requires
            t.len() == w * h * 3,
    ;
    lemma_rotated_whole(t, h, w);
    assert(h * w * 3 == w * h * 3) by (nonlinear_arith);
    assert forall|i: int| 0 <= i < w * h * 3 implies #[trigger] rotate_270_spec(t, h, w)[i]
        == s[half_turn_source(i / 3, w, h) * 3 + i % 3] by {
        lemma_split(i, 3);
        let p = i / 3;
        let c = i % 3;
        assert(p < w * h) by (nonlinear_arith)
            requires
                i == p * 3 + c,
                0 <= c,
                i < w * h * 3,
        ;
        assert(p < h * w) by (nonlinear_arith)
            requires
                p < w * h,
        ;
        let k = rotate_source(p, h, w);
        lemma_rotate_source_range(p, h, w);
        lemma_byte_of_pixel(k, c);
        assert(k * 3 + c < w * h * 3) by (nonlinear_arith)
            requires
                k < h * w,
                0 <= c < 3,
        ;
        lemma_two_sources(p, w, h);
    }
}

/// Rotating a whole `w`×`h` image by 270° four times, swapping the
/// dimensions each time, gives back the original image.
pub proof fn lemma_rotate_four_times(s: Seq<u8>, w: int, h: int)
    requires
        0 < w,
        0 < h,
        s.len() == w * h * 3,
    ensures
        rotate_270_spec(rotate_270_spec(rotate_270_spec(rotate_270_spec(s, w, h), h, w), w, h), h, w) == s,
{
    let t = rotate_270_spec(rotate_270_spec(s, w, h), h, w);
    lemma_two_rotations(s, w, h);
    lemma_two_rotations(t, w, h);
    let u = rotate_270_spec(rotate_270_spec(t, w, h), h, w);
    assert forall|i: int| 0 <= i < s.len() implies #[trigger] u[i] == s[i] by {
        lemma_split(i, 3);
        let p = i / 3;
        let c = i % 3;
        assert(p < w * h) by (nonlinear_arith)
            requires
                i == p * 3 + c,
                0 <= c,
                i < w * h * 3,
        ;
        lemma_two_sources(p, w, h);
        let q = half_turn_source(p, w, h);
        lemma_byte_of_pixel(q, c);
        assert(q * 3 + c < w * h * 3) by (nonlinear_arith)
            requires
                q < w * h,
                0 <= c < 3,
        ;
    }
    assert(u =~= s);
}

/// Mirroring a row-major grid twice gives back every key: mapping the
/// logical states of a right-to-left grid as physical states again yields
/// the original states in left-to-right order.
pub proof fn lemma_mirror_twice(physical: Seq<bool>, cols: int, rows: int)
    requires
        0 < cols,
        0 <= rows,
        physical.len() == cols * rows,
        cols * rows <= 32,
    ensures
        mapped_states(
            mapped_states(physical, cols, rows, false, 32).subrange(0, cols * rows),
            cols,
            rows,
            false,
            32,
        ) == mapped_states(physical, cols, rows, true, 32),
{
    let n = cols * rows;
    let q = mapped_states(physical, cols, rows, false, 32).subrange(0, n);
    assert forall|j: int| 0 <= j < 32 implies #[trigger] mapped_states(q, cols, rows, false, 32)[j]
        == mapped_states(physical, cols, rows, true, 32)[j] by {
        if j < n {
            lemma_split(j, cols);
            let a = j / cols;
            let b = j % cols;
            let m = a * cols + (cols - 1 - b);
            assert(m < n) by (nonlinear_arith)
                requires
                    j == a * cols + b,
                    j < n,
                    n == cols * rows,
                    0 <= b < cols,
                    m == a * cols + (cols - 1 - b),
            ;
            assert(0 <= m) by (nonlinear_arith)
                requires
                    0 <= a,
                    0 <= b < cols,
                    m == a * cols + (cols - 1 - b),
            ;
            lemma_fundamental_div_mod_converse(m, cols, a, cols - 1 - b);
            assert(logical_source(j, cols, false) == m);
            assert(logical_source(m, cols, false) == j);
        }
    }
    assert(mapped_states(q, cols, rows, false, 32) =~= mapped_states(physical, cols, rows, true, 32));
}

} // verus!
