use vstd::prelude::*;
use crate::controller::{Controller, Write};
use crate::packets::rgb_packet;

verus! {

/// Sum of the bytes of `frame` that belong to channel `c` (0 to 3) of its
/// four-byte pixels.
pub open spec fn channel_total(frame: Seq<u8>, c: int) -> nat
    decreases frame.len(),
{
    if frame.len() == 0 {
        0
    } else {
        channel_total(frame.drop_last(), c) + if (frame.len() - 1) % 4 == c {
            frame.last() as nat
        } else {
            0
        }
    }
}

/// Mean of channel `c` over the pixels of `frame`: its total divided by a
/// quarter of the frame's length, rounded down and capped at 255; 0 for an
/// empty frame.
pub open spec fn channel_mean(frame: Seq<u8>, c: int) -> u8 {
    if frame.len() == 0 {
        0
    } else {
        let m = 4 * channel_total(frame, c) / frame.len();
        if m > 255 {
            255
        } else {
            m as u8
        }
    }
}

/// Whether a frame of this length can be split into pixels: a last, partial
/// pixel must still hold the first three channels.
pub open spec fn frame_len_ok(len: nat) -> bool {
    len % 4 != 1 && len % 4 != 2
}

proof fn lemma_channel_total_bound(frame: Seq<u8>, c: int)
    ensures
        channel_total(frame, c) <= 255 * frame.len(),
    decreases frame.len(),
{
    if frame.len() > 0 {
        lemma_channel_total_bound(frame.drop_last(), c);
    }
}

proof fn lemma_channel_total_step(frame: Seq<u8>, i: int, c: int)
    requires
        0 <= i < frame.len(),
    ensures
        channel_total(frame.take(i + 1), c) == channel_total(frame.take(i), c) + if i % 4 == c {
            frame[i] as nat
        } else {
            0
        },
{
    assert(frame.take(i + 1).drop_last() =~= frame.take(i));
}

/// Whether every pixel of `frame` is `pixel`.
pub open spec fn is_uniform(frame: Seq<u8>, pixel: Seq<u8>) -> bool {
    &&& pixel.len() == 4
    &&& forall|k: int| 0 <= k < frame.len() ==> #[trigger] frame[k] == pixel[k % 4]
}

proof fn lemma_uniform_total(frame: Seq<u8>, pixel: Seq<u8>, c: int, n: int)
    requires
        is_uniform(frame, pixel),
        0 <= c < 4,
        0 <= n,
        4 * n <= frame.len(),
    ensures
        channel_total(frame.take(4 * n), c) == n * pixel[c],
    decreases n,
{
    if n == 0 {
        assert(frame.take(0) =~= Seq::<u8>::empty());
    } else {
        let b: int = 4 * (n - 1);
        lemma_uniform_total(frame, pixel, c, n - 1);
        lemma_channel_total_step(frame, b, c);
        lemma_channel_total_step(frame, b + 1, c);
        lemma_channel_total_step(frame, b + 2, c);
        lemma_channel_total_step(frame, b + 3, c);
        assert(frame[b] == pixel[0] && frame[b + 1] == pixel[1] && frame[b + 2] == pixel[2]
            && frame[b + 3] == pixel[3]) by {
            assert(b % 4 == 0);
            assert((b + 1) % 4 == 1);
            assert((b + 2) % 4 == 2);
            assert((b + 3) % 4 == 3);
        }
        assert(n * pixel[c] == (n - 1) * pixel[c] + pixel[c]) by (nonlinear_arith);
    }
}

/// A frame whose pixels all have the same colour has that colour as the mean
/// of each of its channels.
pub proof fn lemma_uniform_frame_mean(frame: Seq<u8>, pixel: Seq<u8>, c: int)
    requires
        is_uniform(frame, pixel),
        frame.len() > 0,
        frame.len() % 4 == 0,
        0 <= c < 4,
    ensures
        channel_mean(frame, c) == pixel[c],
{
    let n: int = (frame.len() / 4) as int;
    assert(frame.take(4 * n) =~= frame);
    lemma_uniform_total(frame, pixel, c, n);
    let v: int = pixel[c] as int;
    assert(4 * (n * v) / (4 * n) == v) by (nonlinear_arith)
        requires
            n > 0,
    ;
}

/// Sum of channel `c` over the first `n` whole pixels of `frame`, taken
/// pixel by pixel.
pub open spec fn pixel_sum(frame: Seq<u8>, c: int, n: nat) -> nat
    decreases n,
{
    if n == 0 {
        0
    } else {
        pixel_sum(frame, c, (n - 1) as nat) + frame[4 * (n - 1) + c] as nat
    }
}

proof fn lemma_total_is_pixel_sum(frame: Seq<u8>, c: int, n: nat)
    requires
        0 <= c < 4,
        4 * n <= frame.len(),
    ensures
        channel_total(frame.take(4 * n as int), c) == pixel_sum(frame, c, n),
    decreases n,
{
    if n == 0 {
        assert(frame.take(0) =~= Seq::<u8>::empty());
    } else {
        let b: int = 4 * (n - 1);
        lemma_total_is_pixel_sum(frame, c, (n - 1) as nat);
        lemma_channel_total_step(frame, b, c);
        lemma_channel_total_step(frame, b + 1, c);
        lemma_channel_total_step(frame, b + 2, c);
        lemma_channel_total_step(frame, b + 3, c);
        assert(b % 4 == 0 && (b + 1) % 4 == 1 && (b + 2) % 4 == 2 && (b + 3) % 4 == 3);
    }
}

proof fn lemma_pixel_sum_bound(frame: Seq<u8>, c: int, n: nat)
    requires
        0 <= c < 4,
        4 * n <= frame.len(),
    ensures
        pixel_sum(frame, c, n) <= 255 * n,
    decreases n,
{
    if n > 0 {
        lemma_pixel_sum_bound(frame, c, (n - 1) as nat);
    }
}

/// The colour derived from a frame of whole pixels is, channel by channel,
/// the average over all of its pixels, rounded down: the sum of the channel
/// over every pixel of the frame divided by the number of pixels.
pub proof fn lemma_frame_mean_is_pixel_average(frame: Seq<u8>, c: int)
    requires
        frame.len() > 0,
        frame.len() % 4 == 0,
        0 <= c < 4,
    ensures
        channel_mean(frame, c) as int == pixel_sum(frame, c, frame.len() / 4) as int / (frame.len() / 4) as int,
{
    let n: nat = frame.len() / 4;
    assert(frame.take(4 * n as int) =~= frame);
    lemma_total_is_pixel_sum(frame, c, n);
    lemma_pixel_sum_bound(frame, c, n);
    let total: int = pixel_sum(frame, c, n) as int;
    let ni: int = n as int;
    assert(4 * total / (4 * ni) == total / ni && total / ni <= 255) by (nonlinear_arith)
        requires
            ni > 0,
            0 <= total <= 255 * ni,
    ;
}

/// Whether the first `n` pixels of `frame` are `p` and the next `n` are `q`.
pub open spec fn is_two_halves(frame: Seq<u8>, p: Seq<u8>, q: Seq<u8>, n: int) -> bool {
    &&& p.len() == 4
    &&& q.len() == 4
    &&& frame.len() == 8 * n
    &&& forall|k: int| 0 <= k < 4 * n ==> #[trigger] frame[k] == p[k % 4]
    &&& forall|k: int| 4 * n <= k < 8 * n ==> #[trigger] frame[k] == q[k % 4]
}

proof fn lemma_two_halves_sum(frame: Seq<u8>, p: Seq<u8>, q: Seq<u8>, n: int, c: int, m: nat)
    requires
        is_two_halves(frame, p, q, n),
        0 <= c < 4,
        m <= 2 * n,
    ensures
        m <= n ==> pixel_sum(frame, c, m) == m * p[c],
        m > n ==> pixel_sum(frame, c, m) == n * p[c] + (m - n) * q[c],
    decreases m,
{
    if m > 0 {
        let j: int = m - 1;
        lemma_two_halves_sum(frame, p, q, n, c, (m - 1) as nat);
        assert((4 * j + c) % 4 == c);
        if j < n {
            assert(frame[4 * j + c] == p[c]);
        } else {
            assert(frame[4 * j + c] == q[c]);
        }
        assert(m * p[c] == (m - 1) * p[c] + p[c]) by (nonlinear_arith);
        assert((m - n) * q[c] == (m - 1 - n) * q[c] + q[c]) by (nonlinear_arith);
        if j == n {
            assert((m - n) * q[c] == q[c]);
        }
    }
}

/// A frame whose first half is `n` pixels of one colour and whose second
/// half is `n` pixels of another has, in every channel, the mean of the two
/// colours rounded down, whatever its size: every pixel counts.
pub proof fn lemma_two_halves_mean(frame: Seq<u8>, p: Seq<u8>, q: Seq<u8>, n: int, c: int)
    requires
        is_two_halves(frame, p, q, n),
        n > 0,
        0 <= c < 4,
    ensures
        channel_mean(frame, c) as int == (p[c] + q[c]) / 2,
{
    lemma_frame_mean_is_pixel_average(frame, c);
    lemma_two_halves_sum(frame, p, q, n, c, (2 * n) as nat);
    let a: int = p[c] as int;
    let b: int = q[c] as int;
    assert((n * a + (2 * n - n) * b) / (2 * n) == (a + b) / 2) by (nonlinear_arith)
        requires
            n > 0,
    ;
}

fn mean_of(total: u128, len: usize) -> (m: u8)
    requires
        len > 0,
        total <= 255 * len,
    ensures
        m == (if 4 * total / (len as int) > 255 { 255 } else { 4 * total / (len as int) }),
{
    let len128: u128 = len as u128;
    let m: u128 = 4 * total / len128;
    if m > 255 {
        255
    } else {
        m as u8
    }
}

/// The means of the first three channels of a captured frame.
pub fn frame_means(frame: &[u8]) -> (means: (u8, u8, u8))
    requires
        frame_len_ok(frame@.len()),
    ensures
        means == (channel_mean(frame@, 0), channel_mean(frame@, 1), channel_mean(frame@, 2)),
{
    let len = frame.len();
    let mut t0: u128 = 0;
    let mut t1: u128 = 0;
    let mut t2: u128 = 0;
    let mut i: usize = 0;
    assert(frame@.take(0) =~= Seq::<u8>::empty());
    while i < len
        invariant
            len == frame@.len(),
            i <= len,
            t0 == channel_total(frame@.take(i as int), 0),
            t1 == channel_total(frame@.take(i as int), 1),
            t2 == channel_total(frame@.take(i as int), 2),
        decreases len - i,
    {
        proof {
            lemma_channel_total_step(frame@, i as int, 0);
            lemma_channel_total_step(frame@, i as int, 1);
            lemma_channel_total_step(frame@, i as int, 2);
            lemma_channel_total_bound(frame@.take(i as int), 0);
            lemma_channel_total_bound(frame@.take(i as int), 1);
            lemma_channel_total_bound(frame@.take(i as int), 2);
        }
        let b: u128 = frame[i] as u128;
        let k: usize = i % 4;
        if k == 0 {
            t0 = t0 + b;
        } else if k == 1 {
            t1 = t1 + b;
        } else if k == 2 {
            t2 = t2 + b;
        }
        i = i + 1;
    }
    assert(frame@.take(len as int) =~= frame@);
    if len == 0 {
        return (0, 0, 0);
    }
    proof {
        lemma_channel_total_bound(frame@, 0);
        lemma_channel_total_bound(frame@, 1);
        lemma_channel_total_bound(frame@, 2);
    }
    (mean_of(t0, len), mean_of(t1, len), mean_of(t2, len))
}

/// What a capture attempt gave.
pub enum Capture<'a> {
    /// A frame of four-byte pixels.
    Frame(&'a [u8]),
    /// No new frame yet; try again later.
    WouldBlock,
    /// Capturing failed for good.
    Failed,
}

/// What the capture loop does next.
#[derive(Clone, Copy, Debug, PartialEq, Eq, Structural)]
pub enum FrameAction {
    /// Send these channel means to the controller loop.
    Send(u8, u8, u8),
    /// Nothing to send this time.
    Wait,
    /// Stop capturing.
    Stop,
}

/// Decides what the capture loop does with the outcome of one capture.
pub fn frame_step(capture: Capture) -> (action: FrameAction)
    requires
        capture matches Capture::Frame(f) ==> frame_len_ok(f@.len()),
    ensures
        match capture {
            Capture::Frame(f) => action == FrameAction::Send(
                channel_mean(f@, 0),
                channel_mean(f@, 1),
                channel_mean(f@, 2),
            ),
            Capture::WouldBlock => action == FrameAction::Wait,
            Capture::Failed => action == FrameAction::Stop,
        },
{
    match capture {
        Capture::Frame(f) => {
            let (m0, m1, m2) = frame_means(f);
            FrameAction::Send(m0, m1, m2)
        },
        Capture::WouldBlock => FrameAction::Wait,
        Capture::Failed => FrameAction::Stop,
    }
}

/// Decides what the controller loop writes when it received the channel
/// means `received` of a frame, if any: frames hold their pixels as blue,
/// green, red, so the colour written is `(means.2, means.1, means.0)`.
pub fn controller_step<'a, P, C>(controller: &'a Controller<P, C>, received: Option<(u8, u8, u8)>) -> (w: Option<Write<'a, P, C>>)
    requires
        received is Some ==> controller.ready(),
    ensures
        match received {
            Some(m) => w matches Some(w) && controller.writes(w, rgb_packet(m.2, m.1, m.0, 0)),
            None => w is None,
        },
{
    match received {
        Some(m) => Some(controller.set_rgb(m.2, m.1, m.0, 0)),
        None => None,
    }
}

/// The outcome of toggling screen synchronisation.
#[derive(Clone, Copy, Debug, PartialEq, Eq, Structural)]
pub struct SyncToggle {
    /// Whether synchronisation is on afterwards.
    pub sync_on: bool,
    /// Whether the capture and controller loops are to be started.
    pub start_tasks: bool,
}

/// Whether synchronisation is on after a toggle from `sync_on`.
pub open spec fn toggled(sync_on: bool) -> bool {
    !sync_on
}

/// Toggling twice restores the synchronisation state, and a toggle starts
/// the loops exactly when it switches synchronisation on.
pub proof fn lemma_toggle_twice(sync_on: bool)
    ensures
        toggled(toggled(sync_on)) == sync_on,
        toggled(sync_on) != sync_on,
{
}

/// Toggles screen synchronisation: when it is on it is switched off (the
/// running loops see the flag and stop); when it is off it is switched on and
/// the loops are started.
pub fn toggle_screen_sync(sync_on: bool) -> (t: SyncToggle)
    ensures
        t.sync_on == toggled(sync_on),
        t.start_tasks == t.sync_on,
{
    if sync_on {
        SyncToggle { sync_on: false, start_tasks: false }
    } else {
        SyncToggle { sync_on: true, start_tasks: true }
    }
}

} // verus!
