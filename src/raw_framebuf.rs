//! A framebuffer that stores pixels as raw bytes, ready to be streamed to a
//! panel as they are.
use vstd::prelude::*;

use embedded_graphics_core::pixelcolor::raw::{RawData, RawU16};
use embedded_graphics_core::pixelcolor::{Rgb565, Rgb888, RgbColor};

verus! {

/// Declares embedded-graphics-core's `Rgb565` color, which is only passed on.
#[verifier::external_type_specification]
#[verifier::external_body]
pub struct ExRgb565(Rgb565);

/// Declares embedded-graphics-core's `Rgb888` color, which is only passed on.
#[verifier::external_type_specification]
#[verifier::external_body]
pub struct ExRgb888(Rgb888);

/// A color that can be stored as `N` raw bytes.
pub trait IntoRawBytes<const N: usize>: Sized {
    /// The bytes of the color, as the panel expects them.
    fn into_raw_bytes(self) -> [u8; N];
}

/// Relies on embedded-graphics-core's `RawU16::from(Rgb565)` and
/// `into_inner`: the color's 16-bit storage value, most significant byte first.
#[verifier::external_body]
fn rgb565_bytes(color: Rgb565) -> [u8; 2] {
    RawU16::from(color).into_inner().to_be_bytes()
}

/// Relies on embedded-graphics-core's `RgbColor` accessors `r`, `g` and `b`
/// for `Rgb888`: the three channels in that order.
#[verifier::external_body]
fn rgb888_bytes(color: Rgb888) -> [u8; 3] {
    [color.r(), color.g(), color.b()]
}

impl IntoRawBytes<2> for Rgb565 {
    fn into_raw_bytes(self) -> [u8; 2] {
        rgb565_bytes(self)
    }
}

impl IntoRawBytes<3> for Rgb888 {
    fn into_raw_bytes(self) -> [u8; 3] {
        rgb888_bytes(self)
    }
}

/// Storage for the framebuffer's bytes.
pub trait RawBufferBackendMut {
    /// The bytes held.
    spec fn spec_bytes(&self) -> Seq<u8>;

    /// The bytes, to change them.
    fn as_mut_u8_slice(&mut self) -> (r: &mut [u8])
        ensures
            r@ == old(self).spec_bytes(),
            final(self).spec_bytes() == final(r)@,
    ;

    /// The bytes.
    fn as_u8_slice(&self) -> (r: &[u8])
        ensures
            r@ == self.spec_bytes(),
    ;

    /// The number of bytes.
    fn u8_len(&self) -> (r: usize)
        ensures
            r == self.spec_bytes().len(),
    ;
}

impl RawBufferBackendMut for Vec<u8> {
    open spec fn spec_bytes(&self) -> Seq<u8> {
        self@
    }

    fn as_mut_u8_slice(&mut self) -> (r: &mut [u8]) {
        self.as_mut_slice()
    }

    fn as_u8_slice(&self) -> (r: &[u8]) {
        self.as_slice()
    }

    fn u8_len(&self) -> (r: usize) {
        self.len()
    }
}

impl<'a> RawBufferBackendMut for &'a mut [u8] {
    open spec fn spec_bytes(&self) -> Seq<u8> {
        (**self)@
    }

    fn as_mut_u8_slice(&mut self) -> (r: &mut [u8]) {
        &mut **self
    }

    fn as_u8_slice(&self) -> (r: &[u8]) {
        &**self
    }

    fn u8_len(&self) -> (r: usize) {
        self.len()
    }
}

/// `s` with `b` written from position `at` on.
pub open spec fn write_at(s: Seq<u8>, at: int, b: Seq<u8>) -> Seq<u8> {
    s.subrange(0, at) + b + s.subrange(at + b.len(), s.len() as int)
}

/// Whether byte `i` belongs to a pixel of the rectangle at `(x, y)` of size
/// `w` by `h`, in a framebuffer `width` pixels wide with `n` bytes per pixel.
pub open spec fn in_rect(i: int, n: int, width: int, x: int, y: int, w: int, h: int) -> bool {
    let p = i / n;
    x <= p % width < x + w && y <= p / width < y + h
}

fn write_pixel_bytes<const N: usize>(buf: &mut [u8], at: usize, bytes: [u8; N])
    requires
        at + N <= old(buf)@.len(),
    ensures
        final(buf)@ == write_at(old(buf)@, at as int, bytes@),
{
    proof {
        vstd::array::array_len_matches_n(&bytes);
    }
    let len = buf.len();
    let mut k: usize = 0;
    while k < N
        invariant
            k <= N,
            bytes@.len() == N,
            at + N <= len,
            len == old(buf)@.len(),
            buf@.len() == len,
            buf@ == write_at(old(buf)@, at as int, bytes@.subrange(0, k as int)),
        decreases N - k,
    {
        buf[at + k] = bytes[k];
        k = k + 1;
        assert(buf@ =~= write_at(old(buf)@, at as int, bytes@.subrange(0, k as int)));
    }
    assert(bytes@.subrange(0, N as int) =~= bytes@);
}

/// A framebuffer of `width` by `height` pixels of `N` bytes each, row after
/// row, at the start of a buffer.
pub struct RawFrameBuf<C, BUF, const N: usize> {
    buffer: BUF,
    width: usize,
    height: usize,
    _phantom_color: core::marker::PhantomData<C>,
}

impl<C: IntoRawBytes<N>, BUF: RawBufferBackendMut, const N: usize> RawFrameBuf<C, BUF, N> {
    /// The buffer's bytes.
    pub closed spec fn bytes(&self) -> Seq<u8> {
        self.buffer.spec_bytes()
    }

    /// Width in pixels.
    pub closed spec fn spec_width(&self) -> nat {
        self.width as nat
    }

    /// Height in pixels.
    pub closed spec fn spec_height(&self) -> nat {
        self.height as nat
    }

    /// The number of bytes that the pixels take.
    pub open spec fn active_len(&self) -> int {
        self.spec_width() * self.spec_height() * N
    }

    /// The buffer is large enough for the pixels.
    pub open spec fn wf(&self) -> bool {
        self.active_len() <= self.bytes().len()
    }

    /// Where the bytes of pixel `(x, y)` start.
    pub open spec fn pixel_start(&self, x: int, y: int) -> int {
        (y * self.spec_width() + x) * N
    }

    /// Creates a framebuffer over `buffer`, which must hold at least
    /// `width * height * N` bytes.
    pub fn new(buffer: BUF, width: usize, height: usize) -> (r: Self)
        requires
            width * height * N <= buffer.spec_bytes().len(),
        ensures
            r.bytes() == buffer.spec_bytes(),
            r.spec_width() == width,
            r.spec_height() == height,
            r.wf(),
    {
        RawFrameBuf { buffer, width, height, _phantom_color: core::marker::PhantomData }
    }

    /// Width in pixels.
    pub fn width(&self) -> (r: usize)
        ensures
            r == self.spec_width(),
    {
        self.width
    }

    /// Height in pixels.
    pub fn height(&self) -> (r: usize)
        ensures
            r == self.spec_height(),
    {
        self.height
    }

    fn active_byte_len(&self) -> (r: usize)
        requires
            self.wf(),
        ensures
            r == self.active_len(),
    {
        let len = self.buffer.u8_len();
        assert(self.active_len() <= len);
        if N == 0 {
            assert(self.active_len() == 0) by (nonlinear_arith)
                requires
                    N == 0,
                    self.active_len() == self.spec_width() * self.spec_height() * N,
            ;
            return 0;
        }
        assert(self.width * self.height <= self.width * self.height * N) by (nonlinear_arith)
            requires
                N > 0,
        ;
        self.width * self.height * N
    }

    /// The bytes of the pixels.
    pub fn as_bytes(&self) -> (r: &[u8])
        requires
            self.wf(),
        ensures
            r@ == self.bytes().subrange(0, self.active_len()),
    {
        let len = self.active_byte_len();
        &self.buffer.as_u8_slice()[0..len]
    }

    /// The bytes of the pixels, to change them.
    pub fn as_mut_bytes(&mut self) -> (r: &mut [u8])
        requires
            old(self).wf(),
        ensures
            r@ == old(self).bytes().subrange(0, old(self).active_len()),
            final(self).bytes() == final(r)@ + old(self).bytes().subrange(
                old(self).active_len(),
                old(self).bytes().len() as int,
            ),
            final(self).spec_width() == old(self).spec_width(),
            final(self).spec_height() == old(self).spec_height(),
    {
        let len = self.active_byte_len();
        let (head, _tail) = self.buffer.as_mut_u8_slice().split_at_mut(len);
        head
    }

    /// Writes the bytes of one pixel; a pixel outside the framebuffer is
    /// left out.
    pub fn set_pixel(&mut self, x: i32, y: i32, bytes: [u8; N])
        requires
            old(self).wf(),
        ensures
            final(self).spec_width() == old(self).spec_width(),
            final(self).spec_height() == old(self).spec_height(),
            final(self).wf(),
            (0 <= x < old(self).spec_width() && 0 <= y < old(self).spec_height()) ==> final(self).bytes() == write_at(old(self).bytes(), old(self).pixel_start(x as int, y as int), bytes@),
            !(0 <= x < old(self).spec_width() && 0 <= y < old(self).spec_height()) ==> final(self).bytes() == old(self).bytes(),
    {
        proof {
            vstd::array::array_len_matches_n(&bytes);
        }
        if x < 0 || y < 0 || x as usize >= self.width || y as usize >= self.height {
            return;
        }
        if N == 0 {
            assert(write_at(self.bytes(), self.pixel_start(x as int, y as int), bytes@) =~= self.bytes());
            return;
        }
        let active = self.active_byte_len();
        let (px, py) = (x as usize, y as usize);
        let ghost (w, h) = (self.width as int, self.height as int);
        proof {
            assert((py * w + px) * N + N <= w * h * N) by (nonlinear_arith)
                requires
                    0 <= px < w,
                    0 <= py < h,
            ;
            assert(py * w + px < w * h) by (nonlinear_arith)
                requires
                    0 <= px < w,
                    0 <= py < h,
            ;
            assert(w * h <= w * h * N) by (nonlinear_arith)
                requires
                    N > 0,
                    w >= 0,
                    h >= 0,
            ;
            assert(py * w <= py * w + px);
        }
        let at = (py * self.width + px) * N;
        let buf = self.buffer.as_mut_u8_slice();
        write_pixel_bytes(buf, at, bytes);
    }

    /// Fills every pixel with the same bytes.
    pub fn fill(&mut self, bytes: [u8; N])
        requires
            old(self).wf(),
        ensures
            final(self).spec_width() == old(self).spec_width(),
            final(self).spec_height() == old(self).spec_height(),
            final(self).bytes().len() == old(self).bytes().len(),
            forall|i: int|
                0 <= i < old(self).active_len() ==> #[trigger] final(self).bytes()[i] == bytes@[i
                    % N as int],
            forall|i: int|
                old(self).active_len() <= i < old(self).bytes().len() ==> #[trigger] final(self).bytes()[i] == old(self).bytes()[i],
    {
        proof {
            vstd::array::array_len_matches_n(&bytes);
        }
        let len = self.active_byte_len();
        let buf = self.buffer.as_mut_u8_slice();
        let ghost before = buf@;
        let mut i: usize = 0;
        while i < len
            invariant
                i <= len,
                len <= before.len(),
                buf@.len() == before.len(),
                bytes@.len() == N,
                N > 0 || len == 0,
                forall|j: int| 0 <= j < i ==> #[trigger] buf@[j] == bytes@[j % N as int],
                forall|j: int| i <= j < before.len() ==> #[trigger] buf@[j] == before[j],
            decreases len - i,
        {
            buf[i] = bytes[i % N];
            i = i + 1;
        }
    }

    /// Fills the pixels of the rectangle at `(x, y)` of `w` by `h` pixels,
    /// which must lie within the framebuffer, with the same bytes.
    pub fn fill_rect(&mut self, x: usize, y: usize, w: usize, h: usize, bytes: [u8; N])
        requires
            old(self).wf(),
            x + w <= old(self).spec_width(),
            y + h <= old(self).spec_height(),
        ensures
            final(self).spec_width() == old(self).spec_width(),
            final(self).spec_height() == old(self).spec_height(),
            final(self).bytes().len() == old(self).bytes().len(),
            forall|i: int|
                0 <= i < old(self).bytes().len() ==> #[trigger] final(self).bytes()[i] == if i
                    < old(self).active_len() && in_rect(
                    i,
                    N as int,
                    old(self).spec_width() as int,
                    x as int,
                    y as int,
                    w as int,
                    h as int,
                ) {
                    bytes@[i % N as int]
                } else {
                    old(self).bytes()[i]
                },
    {
        proof {
            vstd::array::array_len_matches_n(&bytes);
        }
        let width = self.width;
        let height = self.height;
        let len = self.active_byte_len();
        let buf = self.buffer.as_mut_u8_slice();
        let ghost before = buf@;
        if N == 0 || w == 0 {
            assert forall|i: int| 0 <= i < before.len() implies #[trigger] buf@[i] == if i < len
                && in_rect(i, N as int, width as int, x as int, y as int, w as int, h as int) {
                bytes@[i % N as int]
            } else {
                before[i]
            } by {
                if N == 0 {
                    assert(len == 0) by (nonlinear_arith)
                        requires
                            N == 0,
                            len == (width as int) * (height as int) * N,
                    ;
                }
            }
            return;
        }
        let mut row: usize = y;
        while row < y + h
            invariant
                y <= row <= y + h,
                N > 0,
                w > 0,
                x + w <= width,
                y + h <= height,
                len == (width as int) * (height as int) * N,
                len <= before.len(),
                buf@.len() == before.len(),
                bytes@.len() == N,
                forall|j: int|
                    0 <= j < before.len() ==> #[trigger] buf@[j] == if j < len && in_rect(
                        j,
                        N as int,
                        width as int,
                        x as int,
                        y as int,
                        w as int,
                        h as int,
                    ) && j / (N as int) / (width as int) < row {
                        bytes@[j % N as int]
                    } else {
                        before[j]
                    },
            decreases y + h - row,
        {
            proof {
                assert((row * width + x + w) * N <= len) by (nonlinear_arith)
                    requires
                        row < height,
                        x + w <= width,
                        len == (width as int) * (height as int) * N,
                        N > 0,
                ;
                assert(row * width <= row * width + x + w);
                assert(row * width + x + w <= (row * width + x + w) * N) by (nonlinear_arith)
                    requires
                        N > 0,
                ;
                assert((row * width + x) * N <= (row * width + x + w) * N) by (nonlinear_arith)
                    requires
                        N > 0,
                ;
            }
            let start = (row * width + x) * N;
            let end = (row * width + x + w) * N;
            let mut i: usize = start;
            while i < end
                invariant
                    start <= i <= end,
                    end <= len,
                    len <= before.len(),
                    buf@.len() == before.len(),
                    bytes@.len() == N,
                    N > 0,
                    forall|j: int|
                        0 <= j < before.len() ==> #[trigger] buf@[j] == if (j < len && in_rect(
                            j,
                            N as int,
                            width as int,
                            x as int,
                            y as int,
                            w as int,
                            h as int,
                        ) && j / (N as int) / (width as int) < row) || (start <= j < i) {
                            bytes@[j % N as int]
                        } else {
                            before[j]
                        },
                decreases end - i,
            {
                buf[i] = bytes[i % N];
                i = i + 1;
            }
            proof {
                assert forall|j: int| 0 <= j < before.len() implies #[trigger] buf@[j] == if j
                    < len && in_rect(j, N as int, width as int, x as int, y as int, w as int, h as int)
                    && j / (N as int) / (width as int) < row + 1 {
                    bytes@[j % N as int]
                } else {
                    before[j]
                } by {
                    lemma_row_span(j, N as int, width as int, row as int, x as int, w as int);
                }
            }
            row = row + 1;
        }
        proof {
            assert forall|j: int| 0 <= j < before.len() implies #[trigger] buf@[j] == if j < len
                && in_rect(j, N as int, width as int, x as int, y as int, w as int, h as int) {
                bytes@[j % N as int]
            } else {
                before[j]
            } by {
                assert(in_rect(j, N as int, width as int, x as int, y as int, w as int, h as int)
                    ==> j / (N as int) / (width as int) < row);
            }
        }
    }
}

/// The bytes of the pixels `x..x + w` of row `row` are exactly the bytes
/// whose pixel lies in that row and column range.
proof fn lemma_row_span(j: int, n: int, width: int, row: int, x: int, w: int)
    requires
        n > 0,
        width > 0,
        0 <= x,
        x + w <= width,
        0 <= row,
        0 <= j,
    ensures
        ((row * width + x) * n <= j < (row * width + x + w) * n) <==> (j / n / width == row && x
            <= (j / n) % width < x + w),
{
    let p = j / n;
    vstd::arithmetic::div_mod::lemma_fundamental_div_mod(j, n);
    vstd::arithmetic::div_mod::lemma_mod_bound(j, n);
    let m = j % n;
    let a = row * width + x;
    let b = row * width + x + w;
    assert((a * n <= j < b * n) <==> (a <= p < b)) by (nonlinear_arith)
        requires
            j == n * p + m,
            0 <= m < n,
    ;
    vstd::arithmetic::div_mod::lemma_fundamental_div_mod(p, width);
    vstd::arithmetic::div_mod::lemma_mod_bound(p, width);
    let q = p / width;
    let r = p % width;
    assert((a <= p < b) <==> (q == row && x <= r < x + w)) by (nonlinear_arith)
        requires
            p == width * q + r,
            0 <= r < width,
            a == row * width + x,
            b == row * width + x + w,
            0 <= x,
            x + w <= width,
    ;
}

} // verus!
