//! Pieces shared by every protocol family: button mapping, report framing
//! helpers and the image-reassembly state model.

use vstd::prelude::*;
use crate::buffer::IMAGE_BUFFER_CAPACITY;

verus! {

/// Button states in the order a protocol reports them.
#[derive(Debug)]
pub struct ButtonMapping {
    pub mapped_buttons: [bool; 32],
    pub active_count: usize,
}

impl ButtonMapping {
    pub open spec fn wf(&self) -> bool {
        self.active_count <= 32
    }
}

/// Physical index whose state lands at logical index `j`: the same index
/// when keys are numbered left to right, the mirrored column of the same
/// row otherwise.
pub open spec fn logical_source(j: int, cols: int, left_to_right: bool) -> int {
    if left_to_right {
        j
    } else {
        (j / cols) * cols + (cols - 1 - j % cols)
    }
}

/// Logical button states for a `cols`×`rows` grid: entry `j` is the state
/// of its physical source key, for `j` under both the grid size and
/// `limit`; every other entry, and every source past the end of
/// `physical`, reads as released.
pub open spec fn mapped_states(
    physical: Seq<bool>,
    cols: int,
    rows: int,
    left_to_right: bool,
    limit: int,
) -> Seq<bool> {
    Seq::new(
        32,
        |j: int|
            if j < limit && j < cols * rows && logical_source(j, cols, left_to_right)
                < physical.len() {
                physical[logical_source(j, cols, left_to_right)]
            } else {
                false
            },
    )
}

proof fn lemma_row_col(a: int, b: int, n: int)
    requires
        0 <= b < n,
    ensures
        (a * n + b) / n == a,
        (a * n + b) % n == b,
{
    vstd::arithmetic::div_mod::lemma_fundamental_div_mod_converse(a * n + b, n, a, b);
}

/// Fills the logical state array for a grid, keeping entries below `limit`.
pub fn map_grid(physical: &[bool], cols: usize, rows: usize, left_to_right: bool, limit: usize) -> (r: [bool; 32])
    requires
        cols * rows <= usize::MAX,
    ensures
        r@ == mapped_states(physical@, cols as int, rows as int, left_to_right, limit as int),
{
    let mut mapped = [false; 32];
    let mut y: usize = 0;
    while y < rows
        invariant
            y <= rows,
            cols * rows <= usize::MAX,
            mapped@.len() == 32,
            forall|j: int|
                0 <= j < 32 ==> #[trigger] mapped@[j] == (j < y * cols && mapped_states(
                    physical@,
                    cols as int,
                    rows as int,
                    left_to_right,
                    limit as int,
                )[j]),
        decreases rows - y,
    {
        let mut x: usize = 0;
        while x < cols
            invariant
                y < rows,
                x <= cols,
                cols * rows <= usize::MAX,
                mapped@.len() == 32,
                forall|j: int|
                    0 <= j < 32 ==> #[trigger] mapped@[j] == (j < y * cols + x && mapped_states(
                        physical@,
                        cols as int,
                        rows as int,
                        left_to_right,
                        limit as int,
                    )[j]),
            decreases cols - x,
        {
            proof {
                assert(y * cols + x < cols * rows) by (nonlinear_arith)
                    requires
                        y < rows,
                        x < cols,
                ;
                assert(y * cols + cols <= cols * rows) by (nonlinear_arith)
                    requires
                        y < rows,
                ;
                lemma_row_col(y as int, x as int, cols as int);
            }
            let src_index = if left_to_right {
                y * cols + x
            } else {
                y * cols + (cols - 1 - x)
            };
            let dst_index = y * cols + x;
            if src_index < physical.len() && dst_index < limit && dst_index < 32 {
                mapped[dst_index] = physical[src_index];
            }
            x = x + 1;
        }
        assert((y + 1) * cols == y * cols + cols) by (nonlinear_arith);
        y = y + 1;
    }
    proof {
        assert forall|j: int| 0 <= j < 32 implies mapped@[j] == mapped_states(
            physical@,
            cols as int,
            rows as int,
            left_to_right,
            limit as int,
        )[j] by {
            if j >= rows * cols {
                assert(rows * cols == cols * rows) by (nonlinear_arith);
            }
        }
        assert(mapped@ =~= mapped_states(physical@, cols as int, rows as int, left_to_right, limit as int));
    }
    mapped
}

/// One byte per key: 1 when pressed, 0 when released.
pub open spec fn state_bytes(m: Seq<bool>, n: int) -> Seq<u8> {
    Seq::new(n as nat, |i: int| if m[i] { 1u8 } else { 0u8 })
}

pub open spec fn zeros(n: int) -> Seq<u8> {
    Seq::new(n as nat, |i: int| 0u8)
}

pub fn key_state_bytes(m: &[bool; 32], n: usize) -> (r: Vec<u8>)
    requires
        n <= 32,
    ensures
        r@ == state_bytes(m@, n as int),
{
    let mut out: Vec<u8> = Vec::new();
    let mut i: usize = 0;
    while i < n
        invariant
            i <= n <= 32,
            out@ =~= state_bytes(m@, i as int),
        decreases n - i,
    {
        out.push(if m[i] { 1u8 } else { 0u8 });
        i = i + 1;
    }
    out
}

pub fn zero_bytes(n: usize) -> (r: Vec<u8>)
    ensures
        r@ == zeros(n as int),
{
    let mut out: Vec<u8> = Vec::new();
    let mut i: usize = 0;
    while i < n
        invariant
            i <= n,
            out@ =~= zeros(i as int),
        decreases n - i,
    {
        out.push(0u8);
        i = i + 1;
    }
    out
}

/// Appends `tail` to `v`.
pub fn append_bytes(v: &mut Vec<u8>, tail: &Vec<u8>)
    ensures
        final(v)@ == old(v)@ + tail@,
{
    let mut i: usize = 0;
    while i < tail.len()
        invariant
            i <= tail@.len(),
            v@ == old(v)@ + tail@.subrange(0, i as int),
        decreases tail@.len() - i,
    {
        v.push(tail[i]);
        assert(v@ =~= old(v)@ + tail@.subrange(0, i + 1));
        i = i + 1;
    }
    assert(tail@.subrange(0, tail@.len() as int) =~= tail@);
}

/// Copies as much of `content` as fits to the front of `buf`; returns how
/// many bytes were written.
pub fn write_front(buf: &mut [u8], content: &Vec<u8>) -> (r: usize)
    ensures
        r == if content@.len() < old(buf)@.len() { content@.len() } else { old(buf)@.len() },
        final(buf)@ == content@.subrange(0, r as int) + old(buf)@.skip(r as int),
{
    let n = if content.len() < buf.len() { content.len() } else { buf.len() };
    let mut i: usize = 0;
    while i < n
        invariant
            n <= content@.len(),
            n <= old(buf)@.len(),
            i <= n,
            buf@.len() == old(buf)@.len(),
            buf@ =~= content@.subrange(0, i as int) + old(buf)@.skip(i as int),
        decreases n - i,
    {
        buf[i] = content[i];
        assert(buf@ =~= content@.subrange(0, i + 1) + old(buf)@.skip(i + 1));
        i = i + 1;
    }
    n
}

/// A 32-byte feature-report envelope: `head` at the front, `text` from
/// offset `at`, zeros elsewhere.
pub open spec fn envelope(head: Seq<u8>, at: int, text: Seq<u8>) -> Seq<u8> {
    Seq::new(
        32,
        |i: int|
            if i < head.len() {
                head[i]
            } else if at <= i < at + text.len() {
                text[i - at]
            } else {
                0u8
            },
    )
}

pub fn make_envelope(head: &[u8], at: usize, text: &[u8]) -> (r: Vec<u8>)
    requires
        head@.len() <= at,
        at + text@.len() <= 32,
    ensures
        r@ == envelope(head@, at as int, text@),
{
    let mut out: Vec<u8> = Vec::new();
    let mut i: usize = 0;
    while i < 32
        invariant
            head@.len() <= at,
            at + text@.len() <= 32,
            i <= 32,
            out@.len() == i,
            forall|k: int| 0 <= k < i ==> out@[k] == envelope(head@, at as int, text@)[k],
        decreases 32 - i,
    {
        let b = if i < head.len() {
            head[i]
        } else if at <= i && i < at + text.len() {
            text[i - at]
        } else {
            0u8
        };
        out.push(b);
        i = i + 1;
    }
    assert(out@ =~= envelope(head@, at as int, text@));
    out
}

/// Largest feature-report envelope, in bytes.
pub const ENVELOPE_LEN: usize = 32;

/// Image reassembly state of a handler: the bytes gathered so far, whether
/// an upload is in flight, the key it is for, the next sequence or chunk
/// index expected and, where the family has one, the expected chunk count.
pub ghost struct ImageState {
    pub buffer: Seq<u8>,
    pub receiving: bool,
    pub key: u8,
    pub next: int,
    pub total: int,
}

/// The state no upload is in.
pub open spec fn idle_image() -> ImageState {
    ImageState { buffer: Seq::empty(), receiving: false, key: 0, next: 0, total: 0 }
}

impl ImageState {
    /// The buffer never holds more than its fixed capacity.
    pub open spec fn wf(&self) -> bool {
        self.buffer.len() <= IMAGE_BUFFER_CAPACITY
    }
}

/// What one output report led to.
pub ghost enum Outcome {
    Complete { key_id: u8, image: Seq<u8> },
    Incomplete,
    Unhandled,
}

/// What one output report led to: a whole key image, an accepted chunk of
/// an upload still in flight, or nothing.
#[derive(Debug)]
pub enum OutputReportResult {
    KeyImageComplete { key_id: u8, image: Vec<u8> },
    Incomplete,
    Unhandled,
}

impl View for OutputReportResult {
    type V = Outcome;

    open spec fn view(&self) -> Outcome {
        match self {
            OutputReportResult::KeyImageComplete { key_id, image } => Outcome::Complete {
                key_id: *key_id,
                image: image@,
            },
            OutputReportResult::Incomplete => Outcome::Incomplete,
            OutputReportResult::Unhandled => Outcome::Unhandled,
        }
    }
}

} // verus!
