//! Bitmaps as the oscilloscope sends them, and the frame buffer they are
//! expanded into.
//!
//! A bitmap has three bytes per pixel, row by row, without padding. A frame
//! has four: the three colour bytes followed by one filler byte that the
//! conversion never writes.

use vstd::prelude::*;

verus! {

/// Width of the frame before the first bitmap has arrived.
pub const INITIAL_WIDTH: u32 = 800;

/// Height of the frame before the first bitmap has arrived.
pub const INITIAL_HEIGHT: u32 = 480;

/// The byte a buffer is filled with where nothing has been written yet.
pub const FILLER: u8 = 0xff;

/// Bytes in a bitmap of the given dimensions.
pub open spec fn bitmap_len(width: nat, height: nat) -> nat {
    3 * width * height
}

/// Bytes in a frame of the given dimensions.
pub open spec fn frame_len(width: nat, height: nat) -> nat {
    4 * width * height
}

/// Dimensions whose frame length and line size can be stored in a `u32`.
pub open spec fn fits(width: nat, height: nat) -> bool {
    4 * width <= u32::MAX && frame_len(width, height) <= u32::MAX
}

/// The bitmap byte that lands on frame position `j`, for `j % 4 != 3`.
pub open spec fn source_index(j: int) -> int {
    3 * (j / 4) + j % 4
}

/// The frame position that bitmap byte `i` lands on.
pub open spec fn target_index(i: int) -> int {
    i + i / 3
}

/// `dst` after the bytes of `src` have been written over it, one filler
/// position skipped after every three bytes. Filler positions, and positions
/// that `src` does not reach, keep what `dst` held.
pub open spec fn expanded(dst: Seq<u8>, src: Seq<u8>) -> Seq<u8> {
    Seq::new(
        dst.len(),
        |j: int|
            if j % 4 != 3 && source_index(j) < src.len() {
                src[source_index(j)]
            } else {
                dst[j]
            },
    )
}

/// `dst` with the colour bytes of its first `n` positions set to zero.
pub open spec fn blanked(dst: Seq<u8>, n: nat) -> Seq<u8> {
    Seq::new(
        dst.len(),
        |j: int|
            if j < n && j % 4 != 3 {
                0u8
            } else {
                dst[j]
            },
    )
}

/// `dst` extended with filler bytes to at least `n` bytes. A buffer that is
/// long enough is left as it is: it never shrinks.
pub open spec fn grown(dst: Seq<u8>, n: nat) -> Seq<u8> {
    if dst.len() < n {
        dst + Seq::new((n - dst.len()) as nat, |i: int| FILLER)
    } else {
        dst
    }
}

/// Expansion is exact. When `src` holds `3 * n` bytes and `dst` at least
/// `4 * n`, byte `i` of `src` stands at position `i + i / 3` of the result,
/// so the positions below `4 * n` that are not 3 modulo 4 hold the bytes of
/// `src` in order. Every position that is 3 modulo 4, and every position from
/// `4 * n` on, holds what `dst` held.
pub proof fn lemma_expansion_exact(dst: Seq<u8>, src: Seq<u8>, n: nat)
    requires
        src.len() == 3 * n,
        dst.len() >= 4 * n,
    ensures
        expanded(dst, src).len() == dst.len(),
        forall|i: int|
            #![trigger src[i]]
            0 <= i < src.len() ==> expanded(dst, src)[target_index(i)] == src[i],
        forall|j: int|
            #![trigger expanded(dst, src)[j]]
            0 <= j < 4 * n && j % 4 != 3 ==> expanded(dst, src)[j] == src[source_index(j)],
        forall|j: int|
            #![trigger expanded(dst, src)[j]]
            0 <= j < dst.len() && j % 4 == 3 ==> expanded(dst, src)[j] == dst[j],
        forall|j: int|
            #![trigger expanded(dst, src)[j]]
            4 * n <= j < dst.len() ==> expanded(dst, src)[j] == dst[j],
{
    assert forall|i: int| #![trigger src[i]] 0 <= i < src.len() implies expanded(
        dst,
        src,
    )[target_index(i)] == src[i] by {
        let j = target_index(i);
        assert(0 <= j < 4 * n);
        assert(j % 4 != 3 && source_index(j) == i);
    }
}

/// Blanking is exact: below `n` every colour byte is zero, and every other
/// byte holds what `dst` held.
pub proof fn lemma_blanking_exact(dst: Seq<u8>, n: nat)
    ensures
        blanked(dst, n).len() == dst.len(),
        forall|j: int|
            #![trigger blanked(dst, n)[j]]
            0 <= j < dst.len() && j < n && j % 4 != 3 ==> blanked(dst, n)[j] == 0,
        forall|j: int|
            #![trigger blanked(dst, n)[j]]
            0 <= j < dst.len() && (j >= n || j % 4 == 3) ==> blanked(dst, n)[j] == dst[j],
{
}

/// Growing, expanding and blanking never shorten a buffer.
pub proof fn lemma_buffer_never_shrinks(dst: Seq<u8>, src: Seq<u8>, n: nat)
    ensures
        grown(dst, n).len() >= dst.len(),
        grown(dst, n).len() >= n,
        grown(dst, n).take(dst.len() as int) == dst,
        expanded(dst, src).len() == dst.len(),
        blanked(dst, n).len() == dst.len(),
{
    assert(grown(dst, n).take(dst.len() as int) =~= dst);
}

/// What a bitmap is: its dimensions and its bytes.
pub struct BitmapView {
    pub width: nat,
    pub height: nat,
    pub data: Seq<u8>,
}

impl BitmapView {
    /// The bytes cover the dimensions exactly, and the frame made from them
    /// has a length that fits.
    pub open spec fn wf(self) -> bool {
        &&& fits(self.width, self.height)
        &&& self.data.len() == bitmap_len(self.width, self.height)
    }
}

/// A decoded screen grab: three bytes per pixel, row-major, no padding.
pub struct Bitmap {
    width: u32,
    height: u32,
    data: Vec<u8>,
}

impl View for Bitmap {
    type V = BitmapView;

    closed spec fn view(&self) -> BitmapView {
        BitmapView { width: self.width as nat, height: self.height as nat, data: self.data@ }
    }
}

/// The product of two `u32` values fits in a `u64` with room to multiply by four.
proof fn lemma_area_bound(w: u32, h: u32)
    ensures
        0 <= w * h <= 0xffff_fffe_0000_0001,
{
    assert(0 <= w * h <= 0xffff_ffff * 0xffff_ffff) by (nonlinear_arith)
        requires
            0 <= w <= 0xffff_ffff,
            0 <= h <= 0xffff_ffff,
    ;
}

/// Whether a frame of these dimensions can be described with `u32` sizes.
pub fn dimensions_fit(width: u32, height: u32) -> (ok: bool)
    ensures
        ok == fits(width as nat, height as nat),
{
    proof {
        lemma_area_bound(width, height);
    }
    let area: u64 = (width as u64) * (height as u64);
    assert(4 * (width as nat) * (height as nat) == 4 * (area as nat)) by (nonlinear_arith)
        requires
            area == width * height,
    ;
    width <= u32::MAX / 4 && area <= (u32::MAX / 4) as u64
}

impl Bitmap {
    pub open spec fn wf(&self) -> bool {
        self@.wf()
    }

    /// Wraps the bytes of a grab. The bitmap is made exactly when the bytes
    /// cover `width` by `height` pixels and the dimensions fit.
    pub fn new(width: u32, height: u32, data: Vec<u8>) -> (r: Option<Bitmap>)
        ensures
            r is Some <==> fits(width as nat, height as nat) && data@.len() == bitmap_len(
                width as nat,
                height as nat,
            ),
            r matches Some(b) ==> b.wf() && b@ == (BitmapView {
                width: width as nat,
                height: height as nat,
                data: data@,
            }),
    {
        if !dimensions_fit(width, height) {
            return None;
        }
        proof {
            lemma_area_bound(width, height);
        }
        let area: u64 = (width as u64) * (height as u64);
        assert(3 * (width as nat) * (height as nat) == 3 * (area as nat)) by (nonlinear_arith)
            requires
                area == width * height,
        ;
        assert(4 * (width as nat) * (height as nat) == 4 * (area as nat)) by (nonlinear_arith)
            requires
                area == width * height,
        ;
        if data.len() as u64 != 3 * area {
            return None;
        }
        Some(Bitmap { width, height, data })
    }

    /// Pixels per row.
    pub fn width(&self) -> (w: u32)
        ensures
            w == self@.width,
    {
        self.width
    }

    /// Number of rows.
    pub fn height(&self) -> (h: u32)
        ensures
            h == self@.height,
    {
        self.height
    }

    /// The pixel bytes.
    pub fn data(&self) -> (d: &Vec<u8>)
        ensures
            d@ == self@.data,
    {
        &self.data
    }
}

/// What a frame is: the dimensions in use and every byte of the buffer behind
/// them, the bytes past the frame included.
pub struct FrameView {
    pub width: nat,
    pub height: nat,
    pub data: Seq<u8>,
}

impl FrameView {
    /// The buffer holds at least one frame of the dimensions in use.
    pub open spec fn wf(self) -> bool {
        &&& fits(self.width, self.height)
        &&& self.data.len() >= frame_len(self.width, self.height)
    }

    /// The frame before any bitmap has arrived: every byte is filler.
    pub open spec fn initial() -> FrameView {
        FrameView {
            width: INITIAL_WIDTH as nat,
            height: INITIAL_HEIGHT as nat,
            data: Seq::new(
                frame_len(INITIAL_WIDTH as nat, INITIAL_HEIGHT as nat),
                |i: int| FILLER,
            ),
        }
    }

    /// The frame after a bitmap has been loaded into it: the dimensions are
    /// the bitmap's, the buffer has grown where it was too short, and the
    /// bitmap's bytes are expanded over it.
    pub open spec fn loaded(self, bitmap: BitmapView) -> FrameView {
        FrameView {
            width: bitmap.width,
            height: bitmap.height,
            data: expanded(
                grown(self.data, frame_len(bitmap.width, bitmap.height)),
                bitmap.data,
            ),
        }
    }

    /// The frame after its visible part has been painted black.
    pub open spec fn cleared(self) -> FrameView {
        FrameView {
            width: self.width,
            height: self.height,
            data: blanked(self.data, frame_len(self.width, self.height)),
        }
    }
}

/// A growable buffer of four-byte pixels together with the dimensions of the
/// frame it currently holds.
pub struct Frame {
    width: u32,
    height: u32,
    data: Vec<u8>,
}

impl View for Frame {
    type V = FrameView;

    closed spec fn view(&self) -> FrameView {
        FrameView { width: self.width as nat, height: self.height as nat, data: self.data@ }
    }
}

/// Writes `src` over `data`, skipping one position after every three bytes.
fn expand_into(data: &mut Vec<u8>, src: &Vec<u8>)
    requires
        src@.len() % 3 == 0,
        old(data)@.len() >= src@.len() / 3 * 4,
    ensures
        final(data)@ == expanded(old(data)@, src@),
{
    let n = src.len();
    let mut i: usize = 0;
    while i < n
        invariant
            n == src@.len(),
            n % 3 == 0,
            i <= n,
            data@.len() == old(data)@.len(),
            data@.len() >= n / 3 * 4,
            data@ == expanded(old(data)@, src@.take(i as int)),
        decreases n - i,
    {
        assert(i / 3 + i < n / 3 * 4 <= data.len());
        let dst = i / 3 + i;
        data.set(dst, src[i]);
        assert(data@ =~= expanded(old(data)@, src@.take(i + 1))) by {
            assert forall|j: int| 0 <= j < data@.len() implies data@[j] == expanded(
                old(data)@,
                src@.take(i + 1),
            )[j] by {
                if j % 4 != 3 && source_index(j) == i {
                    assert(j == dst);
                }
            }
        }
        i += 1;
    }
    assert(src@.take(n as int) =~= src@);
}

/// Sets the colour bytes of the first `n` positions of `data` to zero.
fn blank_prefix(data: &mut Vec<u8>, n: usize)
    requires
        n <= old(data)@.len(),
    ensures
        final(data)@ == blanked(old(data)@, n as nat),
{
    let mut i: usize = 0;
    while i < n
        invariant
            i <= n <= data@.len(),
            data@.len() == old(data)@.len(),
            data@ == blanked(old(data)@, i as nat),
        decreases n - i,
    {
        if i % 4 != 3 {
            data.set(i, 0);
        }
        assert(data@ =~= blanked(old(data)@, (i + 1) as nat));
        i += 1;
    }
}

impl Frame {
    pub open spec fn wf(&self) -> bool {
        self@.wf()
    }

    /// The frame a worker starts with: 800 by 480, all filler.
    pub fn new() -> (f: Frame)
        ensures
            f.wf(),
            f@ == FrameView::initial(),
    {
        let data: Vec<u8> = vec![FILLER; 1_536_000];
        assert(data@ =~= FrameView::initial().data);
        Frame { width: INITIAL_WIDTH, height: INITIAL_HEIGHT, data }
    }

    /// Pixels per row of the frame in use.
    pub fn width(&self) -> (w: u32)
        ensures
            w == self@.width,
    {
        self.width
    }

    /// Rows of the frame in use.
    pub fn height(&self) -> (h: u32)
        ensures
            h == self@.height,
    {
        self.height
    }

    /// Bytes per row of the frame in use.
    pub fn linesize(&self) -> (l: u32)
        requires
            self.wf(),
        ensures
            l == 4 * self@.width,
    {
        4 * self.width
    }

    /// The whole buffer. The frame in use is its first `4 * width * height`
    /// bytes.
    pub fn data(&self) -> (d: &Vec<u8>)
        ensures
            d@ == self@.data,
    {
        &self.data
    }

    /// Takes the dimensions of `bitmap`, grows the buffer if it is too short
    /// for them, and expands the bitmap's pixels into it. Filler bytes keep
    /// whatever the buffer held before.
    pub fn load(&mut self, bitmap: &Bitmap)
        requires
            old(self).wf(),
            bitmap.wf(),
        ensures
            final(self).wf(),
            final(self)@ == old(self)@.loaded(bitmap@),
            final(self)@.data.len() >= old(self)@.data.len(),
    {
        proof {
            lemma_area_bound(bitmap.width, bitmap.height);
        }
        let area: u64 = (bitmap.width as u64) * (bitmap.height as u64);
        assert(3 * (bitmap.width as nat) * (bitmap.height as nat) == 3 * (area as nat))
            by (nonlinear_arith)
            requires
                area == bitmap.width * bitmap.height,
        ;
        assert(4 * (bitmap.width as nat) * (bitmap.height as nat) == 4 * (area as nat))
            by (nonlinear_arith)
            requires
                area == bitmap.width * bitmap.height,
        ;
        let newsize: usize = (4 * area) as usize;
        if self.data.len() < newsize {
            self.data.resize(newsize, FILLER);
        }
        assert(self.data@ =~= grown(old(self)@.data, newsize as nat));
        self.width = bitmap.width;
        self.height = bitmap.height;
        expand_into(&mut self.data, &bitmap.data);
    }

    /// Paints the frame in use black: every colour byte of its
    /// `4 * width * height` bytes becomes zero, every filler byte stays.
    pub fn blank(&mut self)
        requires
            old(self).wf(),
        ensures
            final(self).wf(),
            final(self)@ == old(self)@.cleared(),
            final(self)@.data.len() == old(self)@.data.len(),
    {
        proof {
            lemma_area_bound(self.width, self.height);
        }
        let area: u64 = (self.width as u64) * (self.height as u64);
        assert(4 * (self.width as nat) * (self.height as nat) == 4 * (area as nat))
            by (nonlinear_arith)
            requires
                area == self.width * self.height,
        ;
        let n: usize = (4 * area) as usize;
        blank_prefix(&mut self.data, n);
    }
}

} // verus!
