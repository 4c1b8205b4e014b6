//! Frame capture from the GC0308 camera.
//!
//! The camera streams a frame over DMA. The caller peeks at what has arrived,
//! hands it to a [`Capture`], which copies it into the frame buffer and
//! decides what to do next, and then consumes what it peeked. A transfer that
//! ends without delivering anything is restarted, a bounded number of times.

use crate::color::{yuv_to_rgb565, Rgb565, red_of, green_of, blue_of, yuv_red, yuv_green, yuv_blue};
use crate::error::{Error, ErrorKind};
use vstd::prelude::*;

verus! {

/// The GC0308's default output: full VGA in YUV422, two bytes per pixel.
pub const FRAME_WIDTH: usize = 640;

pub const FRAME_HEIGHT: usize = 480;

pub const FRAME_SIZE: usize = FRAME_WIDTH * FRAME_HEIGHT * 2;

/// How many transfers in a row may end without data before a capture gives up.
pub const MAX_RESTARTS: u32 = 200;

/// What the caller does after handing a peek to [`Capture::on_peek`].
#[derive(Debug, Clone, Copy, PartialEq, Eq, Structural)]
pub enum CaptureAction {
    /// Consume what was peeked (if anything) and peek again.
    Continue,
    /// Stop the finished transfer and start a new one.
    Restart,
    /// Stop, and fail with [`Capture::timeout_error`]: too many transfers
    /// in a row ended without data.
    TimedOut,
    /// Consume what was peeked, stop, and return this many bytes captured.
    Finished(usize),
}

/// The progress of one capture into a frame buffer.
pub struct Capture {
    total: usize,
    restarts: u32,
    received: Ghost<Seq<u8>>,
}

/// The smaller of two integers.
pub open spec fn min(a: int, b: int) -> int {
    if a <= b {
        a
    } else {
        b
    }
}

impl Capture {
    /// The number of bytes written to the frame buffer so far.
    pub closed spec fn filled(&self) -> nat {
        self.total as nat
    }

    /// The number of transfers in a row that have ended without data.
    pub closed spec fn restart_count(&self) -> nat {
        self.restarts as nat
    }

    /// Every byte the camera has delivered during this capture, in order,
    /// across restarts.
    pub closed spec fn received(&self) -> Seq<u8> {
        self.received@
    }

    /// The frame buffer `out` holds the start of what the camera delivered:
    /// as many bytes as fit, and no more.
    pub open spec fn holds(&self, out: Seq<u8>) -> bool {
        &&& self.filled() == min(self.received().len() as int, out.len() as int)
        &&& out.subrange(0, self.filled() as int) == self.received().subrange(
            0,
            self.filled() as int,
        )
    }

    /// A capture that has received nothing.
    pub fn new() -> (c: Capture)
        ensures
            c.filled() == 0,
            c.restart_count() == 0,
            c.received() == Seq::<u8>::empty(),
            forall|out: Seq<u8>| c.holds(out),
    {
        let c = Capture { total: 0, restarts: 0, received: Ghost(Seq::empty()) };
        assert forall|out: Seq<u8>| c.holds(out) by {
            assert(out.subrange(0, 0) =~= c.received().subrange(0, 0));
        }
        c
    }

    /// The number of bytes captured so far.
    pub fn total(&self) -> (n: usize)
        ensures
            n == self.filled(),
    {
        self.total
    }

    /// The error of a capture that gave up: a timeout, noting that the camera
    /// produced no data.
    pub fn timeout_error() -> (e: Error)
        ensures
            e.kind_of() == ErrorKind::Timeout,
            e.context_of() == Some("camera produced no data"@),
    {
        Error::new(ErrorKind::Timeout).with_context("camera produced no data")
    }

    /// Takes one peek at the running transfer: `data` is what has arrived,
    /// `ends_with_eof` whether it reaches the end of the frame, and
    /// `transfer_done` whether the transfer has stopped.
    ///
    /// With no data, the capture waits while the transfer runs; when it has
    /// stopped, the capture restarts it, or gives up once more than
    /// `MAX_RESTARTS` transfers in a row have ended empty. With data, as much
    /// of it as fits is copied after what the buffer already holds, the
    /// restart count is cleared, and the capture finishes at the end of the
    /// frame or when the buffer is full.
    pub fn on_peek(&mut self, out: &mut [u8], data: &[u8], ends_with_eof: bool, transfer_done: bool) -> (action: CaptureAction)
        requires
            old(self).filled() <= old(out)@.len(),
        ensures
            final(out)@.len() == old(out)@.len(),
            final(self).filled() <= final(out)@.len(),
            data@.len() == 0 ==> {
                &&& final(out)@ == old(out)@
                &&& final(self).filled() == old(self).filled()
                &&& final(self).received() == old(self).received()
                &&& !transfer_done ==> action == CaptureAction::Continue && final(self).restart_count()
                    == old(self).restart_count()
                &&& transfer_done ==> {
                    &&& final(self).restart_count() == min(
                        (old(self).restart_count() + 1) as int,
                        u32::MAX as int,
                    )
                    &&& final(self).restart_count() > MAX_RESTARTS ==> action
                        == CaptureAction::TimedOut
                    &&& final(self).restart_count() <= MAX_RESTARTS ==> action
                        == CaptureAction::Restart
                }
            },
            data@.len() > 0 ==> {
                let t = old(self).filled() as int;
                let len = old(out)@.len() as int;
                let n = min(data@.len() as int, len - t);
                &&& final(out)@ == old(out)@.subrange(0, t) + data@.subrange(0, n) + old(
                    out,
                )@.subrange(t + n, len)
                &&& final(self).filled() == t + n
                &&& final(self).restart_count() == 0
                &&& final(self).received() == old(self).received() + data@
                &&& (ends_with_eof || t + n >= len) ==> action == CaptureAction::Finished(
                    (t + n) as usize,
                )
                &&& !(ends_with_eof || t + n >= len) ==> action == CaptureAction::Continue
            },
            old(self).holds(old(out)@) ==> final(self).holds(final(out)@),
    {
        if data.len() == 0 {
            if !transfer_done {
                return CaptureAction::Continue;
            }
            self.restarts = self.restarts.saturating_add(1);
            if self.restarts > MAX_RESTARTS {
                return CaptureAction::TimedOut;
            }
            return CaptureAction::Restart;
        }
        self.restarts = 0;

        let ghost old_out = out@;
        let ghost old_received = self.received@;
        let t = self.total;
        let room = out.len() - t;
        let n = if data.len() < room {
            data.len()
        } else {
            room
        };
        let mut i: usize = 0;
        while i < n
            invariant
                n <= data@.len(),
                t + n <= old_out.len(),
                t + n <= out.len(),
                out@.len() == old_out.len(),
                i <= n,
                forall|j: int| 0 <= j < t ==> out@[j] == old_out[j],
                forall|j: int| t <= j < t + i ==> out@[j] == data@[j - t],
                forall|j: int| t + i <= j < old_out.len() ==> out@[j] == old_out[j],
            decreases n - i,
        {
            out[t + i] = data[i];
            i += 1;
        }
        assert(out@ =~= old_out.subrange(0, t as int) + data@.subrange(0, n as int)
            + old_out.subrange((t + n) as int, old_out.len() as int));
        self.total = t + n;
        self.received = Ghost(old_received + data@);
        proof {
            let r = old_received;
            if t == min(r.len() as int, old_out.len() as int) && old_out.subrange(0, t as int)
                == r.subrange(0, t as int) {
                assert forall|j: int| 0 <= j < t + n implies #[trigger] out@[j] == (r + data@)[j] by {
                    if j < t {
                        assert(old_out.subrange(0, t as int)[j] == r.subrange(0, t as int)[j]);
                    } else {
                        assert(t == r.len());
                    }
                }
                assert(out@.subrange(0, (t + n) as int) =~= (r + data@).subrange(
                    0,
                    (t + n) as int,
                ));
            }
        }
        if ends_with_eof || self.total >= out.len() {
            return CaptureAction::Finished(self.total);
        }
        CaptureAction::Continue
    }
}

/// Once a capture has finished, the buffer's first `n` bytes are the first
/// `n` bytes the camera delivered, and `n` is all the camera delivered or the
/// whole buffer, whichever is less.
pub proof fn lemma_finished_capture_is_prefix(c: Capture, out: Seq<u8>)
    requires
        c.holds(out),
    ensures
        out.subrange(0, c.filled() as int) == c.received().subrange(0, c.filled() as int),
        c.filled() == min(c.received().len() as int, out.len() as int),
{
}

/// The number of complete pixel rows in `captured` bytes, at most a frame's height.
pub open spec fn rows_in(captured: usize) -> int {
    min(captured as int / (FRAME_WIDTH as int * 2), FRAME_HEIGHT as int)
}

pub fn captured_rows(captured: usize) -> (rows: usize)
    ensures
        rows == rows_in(captured),
{
    let rows = captured / (FRAME_WIDTH * 2);
    if rows < FRAME_HEIGHT {
        rows
    } else {
        FRAME_HEIGHT
    }
}

/// The rows counted are whole rows that the capture holds, as many as fit in a
/// frame: one more row would need more bytes than were captured, unless the
/// frame is already full.
pub proof fn lemma_rows_are_whole(captured: usize)
    ensures
        0 <= rows_in(captured) <= FRAME_HEIGHT,
        rows_in(captured) * (FRAME_WIDTH as int * 2) <= captured,
        rows_in(captured) < FRAME_HEIGHT ==> captured < (rows_in(captured) + 1) * (FRAME_WIDTH as int
            * 2),
{
    let q = captured as int / 1280;
    vstd::arithmetic::div_mod::lemma_fundamental_div_mod(captured as int, 1280);
    if q < 480 {
    } else {
        assert(480 * 1280 <= q * 1280) by (nonlinear_arith)
            requires
                480 <= q,
        ;
    }
}

/// The two display pixels of a YUYV quadruple `[y0, cb, y1, cr]`: both share
/// the chroma, each has its own luma.
pub fn yuyv_to_rgb565(quad: [u8; 4]) -> (pixels: (Rgb565, Rgb565))
    ensures
        red_of(pixels.0@) == yuv_red(quad@[0], quad@[1], quad@[3]) / 8,
        green_of(pixels.0@) == yuv_green(quad@[0], quad@[1], quad@[3]) / 4,
        blue_of(pixels.0@) == yuv_blue(quad@[0], quad@[1], quad@[3]) / 8,
        red_of(pixels.1@) == yuv_red(quad@[2], quad@[1], quad@[3]) / 8,
        green_of(pixels.1@) == yuv_green(quad@[2], quad@[1], quad@[3]) / 4,
        blue_of(pixels.1@) == yuv_blue(quad@[2], quad@[1], quad@[3]) / 8,
{
    (yuv_to_rgb565(quad[0], quad[1], quad[3]), yuv_to_rgb565(quad[2], quad[1], quad[3]))
}

/// The offset in a frame of the quadruple that gives the preview pixel
/// (`x`, `y`) at half the camera's resolution: every other row, and one pixel
/// from each quadruple.
pub open spec fn preview_offset(x: int, y: int) -> int {
    (y * 2) * (FRAME_WIDTH as int * 2) + x * 4
}

/// Preview pixel (`x`, `y`) is read from source row `2 * y`, at the start of
/// the quadruple of source pixels `2 * x` and `2 * x + 1`; distinct preview
/// pixels read distinct quadruples.
pub proof fn lemma_preview_reads_even_rows(x: int, y: int, x2: int, y2: int)
    requires
        0 <= x < FRAME_WIDTH / 2,
        0 <= y,
        0 <= x2 < FRAME_WIDTH / 2,
        0 <= y2,
    ensures
        preview_offset(x, y) / (FRAME_WIDTH as int * 2) == 2 * y,
        preview_offset(x, y) % (FRAME_WIDTH as int * 2) == 4 * x,
        (x, y) != (x2, y2) ==> preview_offset(x, y) / 4 != preview_offset(x2, y2) / 4,
{
    assert(preview_offset(x, y) == (2 * y) * 1280 + 4 * x) by (nonlinear_arith)
        requires
            preview_offset(x, y) == (y * 2) * (640 * 2) + x * 4,
    ;
    assert(preview_offset(x2, y2) == (2 * y2) * 1280 + 4 * x2) by (nonlinear_arith)
        requires
            preview_offset(x2, y2) == (y2 * 2) * (640 * 2) + x2 * 4,
    ;
    vstd::arithmetic::div_mod::lemma_fundamental_div_mod_converse(
        preview_offset(x, y),
        1280,
        2 * y,
        4 * x,
    );
    assert(preview_offset(x, y) / 4 == y * 640 + x);
    assert(preview_offset(x2, y2) / 4 == y2 * 640 + x2);
    if (x, y) != (x2, y2) && y * 640 + x == y2 * 640 + x2 {
        vstd::arithmetic::div_mod::lemma_fundamental_div_mod_converse(y * 640 + x, 640, y, x);
        vstd::arithmetic::div_mod::lemma_fundamental_div_mod_converse(y2 * 640 + x2, 640, y2, x2);
    }
}

/// The number of preview rows that `captured` bytes fill: half the complete rows.
pub fn preview_rows(captured: usize) -> (rows: usize)
    ensures
        rows == captured as int / (FRAME_WIDTH as int * 2) / 2,
{
    captured / (FRAME_WIDTH * 2) / 2
}

/// The preview pixel at (`x`, `y`) of a frame: the first luma and the chroma
/// of its quadruple.
pub fn preview_pixel(frame: &[u8], x: usize, y: usize) -> (c: Rgb565)
    requires
        x < FRAME_WIDTH / 2,
        y < frame@.len() as int / (FRAME_WIDTH as int * 2) / 2,
    ensures
        preview_offset(x as int, y as int) + 3 < frame@.len(),
        red_of(c@) == yuv_red(
            frame@[preview_offset(x as int, y as int)],
            frame@[preview_offset(x as int, y as int) + 1],
            frame@[preview_offset(x as int, y as int) + 3],
        ) / 8,
        green_of(c@) == yuv_green(
            frame@[preview_offset(x as int, y as int)],
            frame@[preview_offset(x as int, y as int) + 1],
            frame@[preview_offset(x as int, y as int) + 3],
        ) / 4,
        blue_of(c@) == yuv_blue(
            frame@[preview_offset(x as int, y as int)],
            frame@[preview_offset(x as int, y as int) + 1],
            frame@[preview_offset(x as int, y as int) + 3],
        ) / 8,
{
    let rows = frame.len() / (FRAME_WIDTH * 2);
    assert(preview_offset(x as int, y as int) + 3 < frame@.len()) by (nonlinear_arith)
        requires
            x < 320,
            y < rows / 2,
            rows == frame@.len() / 1280,
            preview_offset(x as int, y as int) == y * 2 * 1280 + x * 4,
    ;
    let i = (y * 2) * (FRAME_WIDTH * 2) + x * 4;
    yuv_to_rgb565(frame[i], frame[i + 1], frame[i + 3])
}

} // verus!
