use vstd::prelude::*;
use crate::palette::{Color, Palette};

verus! {

/// The pixel changes of one frame: first the points painted black, then the
/// points painted white. A point is `(x, y)`.
pub struct FrameData {
    pub black_pixels: Vec<(usize, usize)>,
    pub white_pixels: Vec<(usize, usize)>,
}

/// A recorded animation: the canvas size and its frames as deltas.
pub struct ExportData {
    pub width: usize,
    pub height: usize,
    pub frames: Vec<FrameData>,
}

/// Point `p` lies on a `width` x `height` canvas and names the pixel at
/// row-major index `i`.
pub open spec fn covers(p: (usize, usize), width: nat, height: nat, i: int) -> bool {
    &&& (p.0 as nat) < width
    &&& (p.1 as nat) < height
    &&& p.1 * width + p.0 == i
}

/// Some point of `points` names the pixel at index `i`.
pub open spec fn stamped(points: Seq<(usize, usize)>, width: nat, height: nat, i: int) -> bool {
    exists|j: int| 0 <= j < points.len() && #[trigger] covers(points[j], width, height, i)
}

/// The canvas with every pixel named by `points` set to `c`; points off the
/// canvas change nothing.
pub open spec fn stamp(canvas: Seq<Color>, points: Seq<(usize, usize)>, width: nat, height: nat, c: Color) -> Seq<Color> {
    Seq::new(canvas.len(), |i: int| if stamped(points, width, height, i) { c } else { canvas[i] })
}

/// The canvas after one frame's deltas: its black points, then its white ones.
pub open spec fn draw(canvas: Seq<Color>, frame: FrameData, width: nat, height: nat) -> Seq<Color> {
    stamp(
        stamp(canvas, frame.black_pixels@, width, height, Palette::Black.spec_color()),
        frame.white_pixels@,
        width,
        height,
        Palette::White.spec_color(),
    )
}

/// An all-white canvas of `n` pixels.
pub open spec fn blank(n: nat) -> Seq<Color> {
    Seq::new(n, |i: int| Palette::White.spec_color())
}

/// What a player is: canvas size, frames, the index of the next frame to draw,
/// and the canvas as drawn so far.
#[verifier::ext_equal]
pub ghost struct PlaybackView {
    pub width: nat,
    pub height: nat,
    pub frames: Seq<FrameData>,
    pub frame_index: nat,
    pub canvas: Seq<Color>,
}

/// A player that has not drawn anything: white canvas, first frame next.
pub open spec fn fresh(width: nat, height: nat, frames: Seq<FrameData>) -> PlaybackView {
    PlaybackView { width, height, frames, frame_index: 0, canvas: blank(width * height) }
}

/// One tick: past the last frame the player starts over on a white canvas;
/// then it draws the next frame and moves on by one.
pub open spec fn advance(v: PlaybackView) -> PlaybackView {
    let wraps = v.frame_index >= v.frames.len();
    let index: nat = if wraps { 0 } else { v.frame_index };
    let base = if wraps { blank(v.width * v.height) } else { v.canvas };
    PlaybackView {
        width: v.width,
        height: v.height,
        frames: v.frames,
        frame_index: index + 1,
        canvas: draw(base, v.frames[index as int], v.width, v.height),
    }
}

/// `k` ticks in a row.
pub open spec fn advance_n(v: PlaybackView, k: nat) -> PlaybackView
    decreases k,
{
    if k == 0 {
        v
    } else {
        advance(advance_n(v, (k - 1) as nat))
    }
}

/// Pixel `i` of a `width` x `height` canvas is named by one of `points`,
/// spelled out on the coordinates.
proof fn lemma_stamped_spelled_out(points: Seq<(usize, usize)>, width: nat, height: nat, i: int)
    ensures
        stamped(points, width, height, i) == exists|j: int|
            0 <= j < points.len() && (#[trigger] points[j]).0 < width && points[j].1 < height
                && points[j].1 * width + points[j].0 == i,
{
    if stamped(points, width, height, i) {
        let j = choose|j: int| 0 <= j < points.len() && #[trigger] covers(points[j], width, height, i);
        assert(points[j].0 < width);
    }
    if exists|j: int|
        0 <= j < points.len() && (#[trigger] points[j]).0 < width && points[j].1 < height
            && points[j].1 * width + points[j].0 == i {
        let j = choose|j: int|
            0 <= j < points.len() && (#[trigger] points[j]).0 < width && points[j].1 < height
                && points[j].1 * width + points[j].0 == i;
        assert(covers(points[j], width, height, i));
    }
}

/// What a tick before the end paints, pixel by pixel, in terms of the
/// frame's own point lists: it draws frame `k = frame_index` and moves on to
/// `k + 1`; pixel `i` becomes white if one of the frame's white points lies on
/// the canvas at row-major index `i`, else black if one of its black points
/// does, else it keeps its colour. Black and white points are applied
/// independently: a frame without black points still paints its white ones.
pub proof fn lemma_tick_paints_frame(v: PlaybackView, i: int)
    requires
        v.frame_index < v.frames.len(),
        v.canvas.len() == v.width * v.height,
        0 <= i < v.canvas.len(),
    ensures
        advance(v).frame_index == v.frame_index + 1,
        advance(v).canvas.len() == v.canvas.len(),
        advance(v).canvas[i] == (if exists|j: int|
            0 <= j < v.frames[v.frame_index as int].white_pixels@.len()
                && (#[trigger] v.frames[v.frame_index as int].white_pixels@[j]).0 < v.width
                && v.frames[v.frame_index as int].white_pixels@[j].1 < v.height
                && v.frames[v.frame_index as int].white_pixels@[j].1 * v.width
                + v.frames[v.frame_index as int].white_pixels@[j].0 == i {
            Color { r: 255, g: 255, b: 255, a: 255 }
        } else if exists|j: int|
            0 <= j < v.frames[v.frame_index as int].black_pixels@.len()
                && (#[trigger] v.frames[v.frame_index as int].black_pixels@[j]).0 < v.width
                && v.frames[v.frame_index as int].black_pixels@[j].1 < v.height
                && v.frames[v.frame_index as int].black_pixels@[j].1 * v.width
                + v.frames[v.frame_index as int].black_pixels@[j].0 == i {
            Color { r: 0, g: 0, b: 0, a: 255 }
        } else {
            v.canvas[i]
        }),
{
    let f = v.frames[v.frame_index as int];
    lemma_stamped_spelled_out(f.white_pixels@, v.width, v.height, i);
    lemma_stamped_spelled_out(f.black_pixels@, v.width, v.height, i);
}

/// What the tick after the last frame paints: it draws the first frame on a
/// white canvas and moves on to frame 1; pixel `i` is black exactly when one
/// of the first frame's black points and none of its white points lies on
/// the canvas at index `i`, and white otherwise.
pub proof fn lemma_tick_after_last_frame(v: PlaybackView, i: int)
    requires
        v.frames.len() > 0,
        v.frame_index >= v.frames.len(),
        v.canvas.len() == v.width * v.height,
        0 <= i < v.canvas.len(),
    ensures
        advance(v).frame_index == 1,
        advance(v).canvas.len() == v.canvas.len(),
        advance(v).canvas[i] == (if !(exists|j: int|
            0 <= j < v.frames[0].white_pixels@.len()
                && (#[trigger] v.frames[0].white_pixels@[j]).0 < v.width
                && v.frames[0].white_pixels@[j].1 < v.height
                && v.frames[0].white_pixels@[j].1 * v.width + v.frames[0].white_pixels@[j].0 == i)
            && exists|j: int|
            0 <= j < v.frames[0].black_pixels@.len()
                && (#[trigger] v.frames[0].black_pixels@[j]).0 < v.width
                && v.frames[0].black_pixels@[j].1 < v.height
                && v.frames[0].black_pixels@[j].1 * v.width + v.frames[0].black_pixels@[j].0 == i {
            Color { r: 0, g: 0, b: 0, a: 255 }
        } else {
            Color { r: 255, g: 255, b: 255, a: 255 }
        }),
{
    let f = v.frames[0];
    lemma_stamped_spelled_out(f.white_pixels@, v.width, v.height, i);
    lemma_stamped_spelled_out(f.black_pixels@, v.width, v.height, i);
}

/// A tick past the last frame draws the same as the first tick of a player
/// that has just been made: the animation starts over on a white canvas.
pub proof fn lemma_wrap_restarts(v: PlaybackView)
    requires
        v.frame_index >= v.frames.len(),
    ensures
        advance(v) == advance(fresh(v.width, v.height, v.frames)),
{
    assert(advance(v) =~= advance(fresh(v.width, v.height, v.frames)));
}

/// After a tick the frame counter lies between 1 and the frame count.
pub proof fn lemma_frame_index_in_range(v: PlaybackView)
    requires
        v.frames.len() > 0,
    ensures
        1 <= advance(v).frame_index <= v.frames.len(),
        advance(v).width == v.width,
        advance(v).height == v.height,
        advance(v).frames == v.frames,
{
}

/// From a fresh player, the first `j` ticks (up to the frame count) draw
/// frames `0 .. j` in order.
proof fn lemma_counts_up(width: nat, height: nat, frames: Seq<FrameData>, j: nat)
    requires
        j <= frames.len(),
    ensures
        advance_n(fresh(width, height, frames), j).frame_index == j,
        advance_n(fresh(width, height, frames), j).width == width,
        advance_n(fresh(width, height, frames), j).height == height,
        advance_n(fresh(width, height, frames), j).frames == frames,
    decreases j,
{
    if j > 0 {
        lemma_counts_up(width, height, frames, (j - 1) as nat);
    }
}

/// Playback loops: once every frame has been drawn, the player goes through
/// exactly the same states again, so `k + n` ticks (with `n` frames and
/// `k >= 1`) leave the player as `k` ticks do.
pub proof fn lemma_playback_loops(width: nat, height: nat, frames: Seq<FrameData>, k: nat)
    requires
        frames.len() > 0,
        k >= 1,
    ensures
        advance_n(fresh(width, height, frames), k + frames.len())
            == advance_n(fresh(width, height, frames), k),
    decreases k,
{
    let f = fresh(width, height, frames);
    let n = frames.len();
    if k == 1 {
        lemma_counts_up(width, height, frames, n);
        let end = advance_n(f, n);
        lemma_wrap_restarts(end);
        assert(fresh(end.width, end.height, end.frames) == f);
        assert(advance_n(f, 1 + n) == advance(end));
        assert(advance_n(f, 1) == advance(advance_n(f, 0)));
    } else {
        lemma_playback_loops(width, height, frames, (k - 1) as nat);
        assert(advance_n(f, k + n) == advance(advance_n(f, ((k - 1) + n) as nat)));
    }
}

/// Every pixel is white or black.
pub open spec fn monochrome(canvas: Seq<Color>) -> bool {
    forall|i: int|
        0 <= i < canvas.len() ==> #[trigger] canvas[i] == Palette::White.spec_color() || canvas[i]
            == Palette::Black.spec_color()
}

/// The canvas only ever holds white and black, and keeps its
/// `width * height` pixels: true of a fresh player and kept by every tick.
pub proof fn lemma_canvas_stays_monochrome(v: PlaybackView)
    requires
        v.frames.len() > 0,
        v.canvas.len() == v.width * v.height,
        monochrome(v.canvas),
    ensures
        monochrome(fresh(v.width, v.height, v.frames).canvas),
        fresh(v.width, v.height, v.frames).canvas.len() == v.width * v.height,
        monochrome(advance(v).canvas),
        advance(v).canvas.len() == v.width * v.height,
{
}

/// The player of an animation.
pub struct Playback {
    data: ExportData,
    current_frame: usize,
    pixels: Vec<Color>,
}

impl View for Playback {
    type V = PlaybackView;

    closed spec fn view(&self) -> PlaybackView {
        PlaybackView {
            width: self.data.width as nat,
            height: self.data.height as nat,
            frames: self.data.frames@,
            frame_index: self.current_frame as nat,
            canvas: self.pixels@,
        }
    }
}

proof fn lemma_index_in_grid(x: int, y: int, width: int, height: int)
    by (nonlinear_arith)
    requires
        0 <= x < width,
        0 <= y < height,
    ensures
        0 <= y * width,
        y * width + x < width * height,
{
}

/// Sets every pixel to `c`.
fn fill(pixels: &mut Vec<Color>, c: Color)
    ensures
        final(pixels)@ == Seq::new(old(pixels)@.len(), |i: int| c),
{
    let n = pixels.len();
    for i in 0..n
        invariant
            n == old(pixels)@.len(),
            pixels@.len() == n,
            forall|j: int| 0 <= j < i ==> pixels@[j] == c,
    {
        pixels.set(i, c);
    }
    assert(pixels@ =~= Seq::new(old(pixels)@.len(), |i: int| c));
}

/// Sets to `c` every pixel that one of `points` names.
fn stamp_points(pixels: &mut Vec<Color>, points: &Vec<(usize, usize)>, width: usize, height: usize, c: Color)
    requires
        old(pixels)@.len() == width * height,
    ensures
        final(pixels)@ == stamp(old(pixels)@, points@, width as nat, height as nat, c),
{
    let n = points.len();
    let total = pixels.len();
    let ghost w = width as nat;
    let ghost h = height as nat;
    assert(pixels@ =~= stamp(old(pixels)@, points@.take(0), w, h, c));
    for k in 0..n
        invariant
            n == points@.len(),
            w == width,
            h == height,
            old(pixels)@.len() == width * height,
            total == width * height,
            pixels@ == stamp(old(pixels)@, points@.take(k as int), w, h, c),
    {
        let ghost before = pixels@;
        let ghost prev = points@.take(k as int);
        let ghost next = points@.take(k + 1);
        let (x, y) = points[k];
        assert forall|i: int| #[trigger] stamped(next, w, h, i) <==> (stamped(prev, w, h, i) || covers(points@[k as int], w, h, i)) by {
            if stamped(next, w, h, i) {
                let j = choose|j: int| 0 <= j < next.len() && #[trigger] covers(next[j], w, h, i);
                if j < k {
                    assert(prev[j] == next[j]);
                }
            }
            if stamped(prev, w, h, i) {
                let j = choose|j: int| 0 <= j < prev.len() && #[trigger] covers(prev[j], w, h, i);
                assert(next[j] == prev[j]);
            }
            if covers(points@[k as int], w, h, i) {
                assert(next[k as int] == points@[k as int]);
            }
        }
        if x < width && y < height {
            proof {
                lemma_index_in_grid(x as int, y as int, width as int, height as int);
            }
            let idx = y * width + x;
            if idx < pixels.len() {
                pixels.set(idx, c);
            }
            assert(pixels@ =~= stamp(old(pixels)@, next, w, h, c));
        } else {
            assert(pixels@ =~= stamp(old(pixels)@, next, w, h, c));
        }
    }
    assert(points@.take(n as int) =~= points@);
}

impl Playback {
    /// The player's own consistency: the canvas holds `width * height`
    /// pixels and the frame index never passes the frame count.
    pub closed spec fn wf(&self) -> bool {
        &&& self.pixels@.len() == self.data.width * self.data.height
        &&& self.current_frame <= self.data.frames@.len()
    }

    /// A player on a white canvas, positioned before the first frame.
    pub fn new(data: ExportData) -> (p: Self)
        requires
            data.width * data.height <= usize::MAX,
        ensures
            p.wf(),
            p@ == fresh(data.width as nat, data.height as nat, data.frames@),
            p@.width == data.width,
            p@.height == data.height,
            p@.frames == data.frames@,
            p@.frame_index == 0,
            p@.canvas.len() == data.width * data.height,
            forall|i: int| 0 <= i < p@.canvas.len() ==> #[trigger] p@.canvas[i] == (Color { r: 255, g: 255, b: 255, a: 255 }),
    {
        let n = data.width * data.height;
        let mut pixels: Vec<Color> = Vec::new();
        let white = Palette::White.color();
        for i in 0..n
            invariant
                pixels@ == Seq::new(i as nat, |j: int| Palette::White.spec_color()),
                white == Palette::White.spec_color(),
        {
            pixels.push(white);
            assert(pixels@ =~= Seq::new((i + 1) as nat, |j: int| Palette::White.spec_color()));
        }
        let p = Playback { data, current_frame: 0, pixels };
        assert(p@ =~= fresh(p.data.width as nat, p.data.height as nat, p.data.frames@));
        p
    }

    /// Draws the next frame; past the last one, starts over on white.
    pub fn advance(&mut self)
        requires
            old(self).wf(),
            old(self)@.frames.len() > 0,
        ensures
            final(self).wf(),
            final(self)@ == advance(old(self)@),
    {
        if self.current_frame >= self.data.frames.len() {
            self.current_frame = 0;
            fill(&mut self.pixels, Palette::White.color());
            assert(self.pixels@ =~= blank((self.data.width * self.data.height) as nat));
        }
        let width = self.data.width;
        let height = self.data.height;
        let frame = &self.data.frames[self.current_frame];
        stamp_points(&mut self.pixels, &frame.black_pixels, width, height, Palette::Black.color());
        stamp_points(&mut self.pixels, &frame.white_pixels, width, height, Palette::White.color());
        self.current_frame = self.current_frame + 1;
        assert(self@ =~= advance(old(self)@));
    }

    /// Width of the canvas in pixels.
    pub fn width(&self) -> (w: usize)
        ensures
            w == self@.width,
    {
        self.data.width
    }

    /// Height of the canvas in pixels.
    pub fn height(&self) -> (h: usize)
        ensures
            h == self@.height,
    {
        self.data.height
    }

    /// Index of the frame that the next tick draws (or the frame count, once
    /// the last one has been drawn).
    pub fn current_frame(&self) -> (i: usize)
        ensures
            i == self@.frame_index,
    {
        self.current_frame
    }

    /// Number of frames.
    pub fn frame_count(&self) -> (n: usize)
        ensures
            n == self@.frames.len(),
    {
        self.data.frames.len()
    }

    /// The canvas, row by row.
    pub fn pixels(&self) -> (p: &Vec<Color>)
        ensures
            p@ == self@.canvas,
    {
        &self.pixels
    }
}

} // verus!
