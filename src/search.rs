//! The timed search for a template in a window: template-size check, reduction
//! of a score field to its best cell, and the decision taken at each tick.
//!
//! Match scores are normalized correlation coefficients expressed in
//! millionths (`1_000_000` is a perfect match).

use vstd::prelude::*;
use vstd::string::*;
use crate::error::{Error, ErrorKind};
use crate::geometry::Rect;

verus! {

/// A match score of one million is the theoretical maximum.
pub const PERFECT_SCORE: i64 = 1_000_000;

/// Scores at or above this value are accepted as a match.
pub const MATCH_THRESHOLD: i64 = 800_000;

/// A rate of `m` millihertz samples once every `MILLIS_PER_MILLIHERTZ / m`
/// milliseconds.
pub const MILLIS_PER_MILLIHERTZ: u64 = 1_000_000;

/// Width and height of the score field of a template of `tw`×`th` over a
/// frame of `fw`×`fh`.
pub open spec fn field_size(tw: int, th: int, fw: int, fh: int) -> (int, int) {
    (fw - tw + 1, fh - th + 1)
}

/// Checks that a template fits in a frame, and returns the size of the score
/// field that matching them yields.
///
/// Fails with `InvalidTemplateSize` when the template is wider or taller than
/// the frame.
pub fn check_template_size(tpl_width: u32, tpl_height: u32, frame_width: u32, frame_height: u32)
    -> (r: Result<(u64, u64), Error>)
    ensures
        r is Ok <==> tpl_width <= frame_width && tpl_height <= frame_height,
        r matches Ok(s) ==> s.0 == field_size(tpl_width as int, tpl_height as int, frame_width as int, frame_height as int).0
            && s.1 == field_size(tpl_width as int, tpl_height as int, frame_width as int, frame_height as int).1,
        r matches Err(e) ==> e.kind == ErrorKind::InvalidTemplateSize,
{
    if tpl_width > frame_width || tpl_height > frame_height {
        return Err(Error::new(ErrorKind::InvalidTemplateSize, String::from_str("template larger than the frame")));
    }
    Ok(((frame_width - tpl_width) as u64 + 1, (frame_height - tpl_height) as u64 + 1))
}

/// A field of match scores, one per offset of the template in the frame,
/// row-major.
#[derive(Clone, Debug)]
pub struct ScoreField {
    /// Number of offsets along x.
    pub width: u32,
    /// Number of offsets along y.
    pub height: u32,
    /// `width * height` scores.
    pub scores: Vec<i64>,
}

impl ScoreField {
    /// Whether the field holds one score per offset.
    pub open spec fn wf(&self) -> bool {
        self.scores@.len() == self.width * self.height
    }
}

/// The best cell of a score field.
#[derive(Clone, Copy, Debug, PartialEq, Eq, Structural)]
pub struct BestMatch {
    /// Offset along x of the template in the frame.
    pub x: u32,
    /// Offset along y of the template in the frame.
    pub y: u32,
    /// Score at that offset.
    pub score: i64,
}

/// Whether `b` is the first cell, in row-major order, of the field's maximum.
pub open spec fn is_best_cell(f: ScoreField, b: BestMatch) -> bool {
    let k = b.y * f.width + b.x;
    &&& b.x < f.width
    &&& b.y < f.height
    &&& f.scores@[k] == b.score
    &&& forall|i: int| 0 <= i < f.scores@.len() ==> f.scores@[i] <= b.score
    &&& forall|i: int| 0 <= i < k ==> f.scores@[i] < b.score
}

/// Reduces a score field to its global maximum and the offset where it first
/// occurs; `None` for an empty field.
pub fn best_match(field: &ScoreField) -> (r: Option<BestMatch>)
    requires
        field.wf(),
    ensures
        r is None <==> field.scores@.len() == 0,
        r matches Some(b) ==> is_best_cell(*field, b),
{
    let n = field.scores.len();
    if n == 0 {
        return None;
    }
    let mut best: usize = 0;
    let mut i: usize = 1;
    while i < n
        invariant
            n == field.scores@.len(),
            0 <= best < i <= n,
            forall|j: int| 0 <= j < i ==> field.scores@[j] <= field.scores@[best as int],
            forall|j: int| 0 <= j < best ==> field.scores@[j] < field.scores@[best as int],
        decreases n - i,
    {
        if field.scores[i] > field.scores[best] {
            best = i;
        }
        i = i + 1;
    }
    let w = field.width as usize;
    proof {
        if w == 0 {
            assert(field.width * field.height == 0) by (nonlinear_arith)
                requires field.width == 0;
        }
    }
    let x = best % w;
    let y = best / w;
    proof {
        vstd::arithmetic::div_mod::lemma_fundamental_div_mod(best as int, w as int);
        assert(y < field.height) by (nonlinear_arith)
            requires y * w + x == best, best < field.width * field.height, w == field.width, x >= 0, y >= 0;
        assert(y * w + x == best);
    }
    Some(BestMatch { x: x as u32, y: y as u32, score: field.scores[best] })
}

/// Whether a score is accepted as a match.
pub open spec fn accepted(score: int) -> bool {
    score >= MATCH_THRESHOLD
}

/// The sampling period, in milliseconds, of a rate given in millihertz.
pub open spec fn tick_of(millihertz: int) -> int {
    MILLIS_PER_MILLIHERTZ as int / millihertz
}

/// The sampling period, in milliseconds, of a rate given in millihertz
/// (thousandths of a capture per second), truncated.
pub fn tick_interval(millihertz: u32) -> (t: u64)
    requires
        millihertz > 0,
    ensures
        t == tick_of(millihertz as int),
{
    MILLIS_PER_MILLIHERTZ / millihertz as u64
}

/// What the search loop reports to the search after each step of its work.
#[derive(Clone, Copy, Debug, PartialEq, Eq, Structural)]
pub enum SearchEvent {
    /// A frame was captured and scored; its best cell is given.
    Scored(BestMatch),
    /// The loop slept one tick; `elapsed_ms` have passed since the search began.
    Slept { elapsed_ms: u64 },
}

/// What the search asks the loop to do next.
#[derive(Clone, Debug)]
pub enum SearchAction {
    /// The template was found at this rectangle: the search ends.
    Found(Rect),
    /// No match in this frame: sleep this many milliseconds.
    Sleep { millis: u64 },
    /// The deadline has not passed: capture and score another frame.
    Capture,
    /// The deadline passed: the search ends with this error.
    GiveUp(Error),
}

/// The state of one search for a template in a window: the template, once
/// decoded, and the timing policy.
#[derive(Clone, Debug)]
pub struct Search {
    /// Path of the template, for diagnostics.
    pub template_path: String,
    /// Width of the decoded template.
    pub template_width: u32,
    /// Height of the decoded template.
    pub template_height: u32,
    /// Deadline in milliseconds; zero means none.
    pub timeout_ms: u64,
    /// Sampling period in milliseconds.
    pub tick_ms: u64,
}

/// The text of the error that ends a search past its deadline.
pub open spec fn not_found_message(path: Seq<char>) -> Seq<char> {
    "Template "@ + path + " not found"@
}

/// Whether `a` is the action that search `s` takes on event `e`.
pub open spec fn is_action_of(s: Search, e: SearchEvent, a: SearchAction) -> bool {
    match e {
        SearchEvent::Scored(b) => if accepted(b.score as int) {
            a == SearchAction::Found(Rect { x: b.x, y: b.y, width: s.template_width, height: s.template_height })
        } else {
            a == SearchAction::Sleep { millis: s.tick_ms }
        },
        SearchEvent::Slept { elapsed_ms } => if s.timeout_ms != 0 && elapsed_ms > s.timeout_ms {
            a matches SearchAction::GiveUp(err) && err.kind == ErrorKind::ImageNotFound
                && err.message@ == not_found_message(s.template_path@)
        } else {
            a == SearchAction::Capture
        },
    }
}

impl Search {
    /// Starts a search for a decoded template of `template_width`×`template_height`.
    ///
    /// Fails with `TemplateLoad` when the decoded template is empty, which is
    /// how the decoder reports a file it could not read as grayscale.
    pub fn new(template_path: String, template_width: u32, template_height: u32, timeout_ms: u64, millihertz: u32)
        -> (r: Result<Search, Error>)
        requires
            millihertz > 0,
        ensures
            r is Ok <==> template_width > 0 && template_height > 0,
            r matches Ok(s) ==> s.template_path@ == template_path@ && s.template_width == template_width
                && s.template_height == template_height && s.timeout_ms == timeout_ms
                && s.tick_ms == tick_of(millihertz as int),
            r matches Err(e) ==> e.kind == ErrorKind::TemplateLoad,
    {
        if template_width == 0 || template_height == 0 {
            return Err(Error::new(ErrorKind::TemplateLoad, String::from_str("template is not a grayscale image")));
        }
        let tick_ms = tick_interval(millihertz);
        Ok(Search { template_path, template_width, template_height, timeout_ms, tick_ms })
    }

    /// Whether the deadline is shorter than one sampling period, so that the
    /// search may run past it by up to one tick.
    pub fn timeout_too_low(&self) -> (r: bool)
        ensures
            r == (self.timeout_ms != 0 && self.timeout_ms < self.tick_ms),
    {
        self.timeout_ms != 0 && self.timeout_ms < self.tick_ms
    }

    /// Decides the next action of the search on an event of its loop: a
    /// scored frame is a match when its best score reaches the threshold, and
    /// after each sleep the search gives up once the deadline has passed.
    pub fn step(&self, event: SearchEvent) -> (a: SearchAction)
        ensures
            is_action_of(*self, event, a),
    {
        match event {
            SearchEvent::Scored(b) => {
                if b.score >= MATCH_THRESHOLD {
                    SearchAction::Found(Rect::new(b.x, b.y, self.template_width, self.template_height))
                } else {
                    SearchAction::Sleep { millis: self.tick_ms }
                }
            },
            SearchEvent::Slept { elapsed_ms } => {
                if self.timeout_ms != 0 && elapsed_ms > self.timeout_ms {
                    let msg = String::from_str("Template ").concat(self.template_path.as_str()).concat(" not found");
                    SearchAction::GiveUp(Error::new(ErrorKind::ImageNotFound, msg))
                } else {
                    SearchAction::Capture
                }
            },
        }
    }
}

proof fn lemma_cell_unique(x1: int, y1: int, x2: int, y2: int, w: int)
    requires
        0 <= x1 < w,
        0 <= x2 < w,
        0 <= y1,
        0 <= y2,
        y1 * w + x1 == y2 * w + x2,
    ensures
        x1 == x2 && y1 == y2,
{
    if y1 < y2 {
        assert(y1 * w + w <= y2 * w) by (nonlinear_arith)
            requires y1 + 1 <= y2, w >= 0;
    } else if y2 < y1 {
        assert(y2 * w + w <= y1 * w) by (nonlinear_arith)
            requires y2 + 1 <= y1, w >= 0;
    }
}

/// A frame that holds an exact copy of the template at offset (`ox`, `oy`)
/// scores the perfect score there, no cell scores more, and no earlier cell
/// scores as much. Then the best cell of its field is that offset with the
/// perfect score, and the search ends on that first scored frame with the
/// rectangle of the copy.
pub proof fn lemma_exact_copy_found_first(s: Search, field: ScoreField, ox: u32, oy: u32, b: BestMatch, a: SearchAction)
    requires
        field.wf(),
        ox < field.width,
        oy < field.height,
        0 <= oy * field.width + ox < field.scores@.len(),
        field.scores@[oy * field.width + ox] == PERFECT_SCORE,
        forall|i: int| 0 <= i < field.scores@.len() ==> field.scores@[i] <= PERFECT_SCORE,
        forall|i: int| 0 <= i < oy * field.width + ox ==> field.scores@[i] < PERFECT_SCORE,
        is_best_cell(field, b),
        is_action_of(s, SearchEvent::Scored(b), a),
    ensures
        b == (BestMatch { x: ox, y: oy, score: PERFECT_SCORE }),
        a == SearchAction::Found(Rect { x: ox, y: oy, width: s.template_width, height: s.template_height }),
{
    let w = field.width as int;
    let k = b.y * w + b.x;
    let k0 = oy * w + ox;
    assert(0 <= k < field.scores@.len()) by (nonlinear_arith)
        requires k == b.y * w + b.x, b.x < w, b.y < field.height, b.x >= 0, b.y >= 0,
            field.scores@.len() == w * field.height;
    assert(field.scores@[k0] <= b.score);
    assert(field.scores@[k] <= PERFECT_SCORE);
    assert(b.score == PERFECT_SCORE);
    assert(k == k0);
    lemma_cell_unique(b.x as int, b.y as int, ox as int, oy as int, w);
}

/// A search with a deadline gives up on a check exactly when the deadline has
/// passed. So when it went on at one check, and the next check comes at most
/// one tick later and gives up, that check lies after the deadline and no more
/// than one tick past it.
pub proof fn lemma_gives_up_within_one_tick(s: Search, prev_ms: u64, next_ms: u64, a_prev: SearchAction, a_next: SearchAction)
    requires
        s.timeout_ms != 0,
        is_action_of(s, SearchEvent::Slept { elapsed_ms: prev_ms }, a_prev),
        is_action_of(s, SearchEvent::Slept { elapsed_ms: next_ms }, a_next),
        a_prev == SearchAction::Capture,
        next_ms <= prev_ms + s.tick_ms,
    ensures
        a_next is GiveUp <==> next_ms > s.timeout_ms,
        a_next is GiveUp ==> next_ms <= s.timeout_ms + s.tick_ms,
{
}

/// A search without a deadline never gives up: whatever the event, it goes on
/// until a frame matches.
pub proof fn lemma_no_deadline_never_gives_up(s: Search, e: SearchEvent, a: SearchAction)
    requires
        s.timeout_ms == 0,
        is_action_of(s, e, a),
    ensures
        !(a is GiveUp),
{
}

} // verus!
