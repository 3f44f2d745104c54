//! The automation session: the bound window, the input controller, and the
//! input events that each operation sends.

use vstd::prelude::*;
use vstd::string::*;
use crate::error::{Error, ErrorKind};
use crate::geometry::{Rect, to_screen, screen_coord, fits_i32, center_of, center_fits};
use crate::pattern::{WindowPattern, select_by_pattern, regex_compiles, regex_finds};
use crate::search::{Search, tick_of};
use crate::window::{Window, WindowList, DEFAULT_CAPTURE_FREQUENCY, same_window, is_last_selected, select_by_name, select_by_id};

verus! {

/// Capture pixels per input point by default, as on high-density displays.
pub const DEFAULT_HIGH_DPI_RATIO: u32 = 2;

/// Milliseconds between moving the pointer and pressing or releasing a button.
pub const DEFAULT_WAIT_TIME: u64 = 90;

/// Vertical offset, in capture pixels, of the point clicked to activate a window.
pub const TITLE_BAR_OFFSET: u32 = 20;

/// One event for the input simulator, in the order the operation sends them.
#[derive(Clone, Debug, PartialEq, Eq)]
pub enum InputAction<K> {
    /// Move the pointer to a screen point.
    MoveTo { x: i32, y: i32 },
    /// Block for this many milliseconds.
    Wait { millis: u64 },
    /// Press the left mouse button.
    MouseDown,
    /// Release the left mouse button.
    MouseUp,
    /// Press a key.
    KeyDown(K),
    /// Release a key.
    KeyUp(K),
    /// Press and release a key.
    KeyClick(K),
    /// Type a text.
    Type(String),
    /// Press and release the return key.
    PressReturn,
}

/// An automation session for one window.
#[derive(Debug)]
pub struct Bot<C> {
    /// The window the bot interacts with.
    pub window: Option<Window>,
    /// The input controller that performs the bot's events.
    pub controller: Option<C>,
    /// Capture pixels per input point.
    pub high_dpi_ratio: u32,
    /// Milliseconds between moving the pointer and using a button.
    pub wait_time: u64,
    /// Sampling rate given to bound windows, in millihertz.
    pub capture_frequency: u32,
}

impl<C> Bot<C> {
    /// The settings hold: a positive density ratio and sampling rate.
    pub open spec fn wf(&self) -> bool {
        self.high_dpi_ratio >= 1 && self.capture_frequency > 0
    }

    /// Whether an input controller is attached.
    pub open spec fn has_controller(&self) -> bool {
        self.controller is Some
    }

    /// Whether a window is bound and a controller attached.
    pub open spec fn ready(&self) -> bool {
        self.window is Some && self.has_controller()
    }

    /// Creates a bot with no window and no controller.
    pub fn new() -> (b: Bot<C>)
        ensures
            b.wf(),
            b.window is None,
            !b.has_controller(),
            b.high_dpi_ratio == DEFAULT_HIGH_DPI_RATIO,
            b.wait_time == DEFAULT_WAIT_TIME,
            b.capture_frequency == DEFAULT_CAPTURE_FREQUENCY,
    {
        Bot {
            window: None,
            controller: None,
            high_dpi_ratio: DEFAULT_HIGH_DPI_RATIO,
            wait_time: DEFAULT_WAIT_TIME,
            capture_frequency: DEFAULT_CAPTURE_FREQUENCY,
        }
    }
}

/// Whether `w` is the window at the last selected index, sampled at `freq`,
/// or `None` when nothing is selected.
pub open spec fn binds_last(w: Option<Window>, windows: Seq<Window>, selected: Seq<bool>, freq: u32) -> bool {
    match w {
        None => forall|j: int| 0 <= j < selected.len() ==> !selected[j],
        Some(b) => exists|i: int|
            0 <= i < windows.len() && selected[i] && (forall|j: int| i < j < selected.len() ==> !selected[j])
                && same_window(b, #[trigger] windows[i]) && b.capture_frequency == freq,
    }
}

/// Whether a result is the outcome `expected`, errors compared by kind.
pub open spec fn outcome_is<K>(r: Result<Vec<InputAction<K>>, Error>, expected: Result<Seq<InputAction<K>>, ErrorKind>) -> bool {
    match (r, expected) {
        (Ok(v), Ok(s)) => v@ == s,
        (Err(e), Err(k)) => e.kind == k,
        _ => false,
    }
}

/// Whether a result is an error of a missing window or controller.
pub open spec fn fails_unbound<T>(r: Result<T, Error>) -> bool {
    r matches Err(e) && e.kind == ErrorKind::PreconditionViolation
}

/// Whether a result is the sequence of events `s`.
pub open spec fn plans<K>(r: Result<Vec<InputAction<K>>, Error>, s: Seq<InputAction<K>>) -> bool {
    r matches Ok(v) && v@ == s
}

/// Whether a result types `text`, then presses return when `enter` holds.
pub open spec fn types_text<K>(r: Result<Vec<InputAction<K>>, Error>, text: Seq<char>, enter: bool) -> bool {
    &&& r is Ok
    &&& r.unwrap()@.len() == if enter { 2int } else { 1int }
    &&& (r.unwrap()@[0] matches InputAction::Type(t) && t@ == text)
    &&& enter ==> r.unwrap()@[1] == InputAction::<K>::PressReturn
}

/// The events of a click at a screen point.
pub open spec fn click_actions<K>(p: (i32, i32), wait: u64) -> Seq<InputAction<K>> {
    seq![
        InputAction::MoveTo { x: p.0, y: p.1 },
        InputAction::Wait { millis: wait },
        InputAction::MouseDown,
        InputAction::Wait { millis: wait },
        InputAction::MouseUp,
    ]
}

/// The events of a button press at a screen point.
pub open spec fn press_actions<K>(p: (i32, i32), wait: u64) -> Seq<InputAction<K>> {
    seq![InputAction::MoveTo { x: p.0, y: p.1 }, InputAction::Wait { millis: wait }, InputAction::MouseDown]
}

/// The events of a button release at a screen point.
pub open spec fn release_actions<K>(p: (i32, i32), wait: u64) -> Seq<InputAction<K>> {
    seq![InputAction::MoveTo { x: p.0, y: p.1 }, InputAction::Wait { millis: wait }, InputAction::MouseUp]
}

/// Applies `f` to a pointer target, keeping an error as it is.
pub open spec fn plan_at<K>(t: Result<(i32, i32), ErrorKind>, f: spec_fn((i32, i32)) -> Seq<InputAction<K>>) -> Result<Seq<InputAction<K>>, ErrorKind> {
    match t {
        Ok(p) => Ok(f(p)),
        Err(k) => Err(k),
    }
}

impl<C> Bot<C> {
    /// Whether two sessions have the same controller and settings.
    pub open spec fn same_session(&self, other: Bot<C>) -> bool {
        &&& self.controller == other.controller
        &&& self.high_dpi_ratio == other.high_dpi_ratio
        &&& self.wait_time == other.wait_time
        &&& self.capture_frequency == other.capture_frequency
    }

    /// The screen point where a pointer operation at a capture-pixel point
    /// of the bound window goes, or the kind of its failure.
    pub open spec fn pointer_target(&self, rx: u32, ry: u32) -> Result<(i32, i32), ErrorKind> {
        if !self.ready() {
            Err(ErrorKind::PreconditionViolation)
        } else {
            match self.window.unwrap().bounds {
                None => Err(ErrorKind::PreconditionViolation),
                Some(bd) => {
                    let sx = screen_coord(bd.x as int, self.high_dpi_ratio as int, rx as int);
                    let sy = screen_coord(bd.y as int, self.high_dpi_ratio as int, ry as int);
                    if fits_i32(sx) && fits_i32(sy) {
                        Ok((sx as i32, sy as i32))
                    } else {
                        Err(ErrorKind::CoordinateOutOfRange)
                    }
                },
            }
        }
    }

    fn check_ready(&self) -> (r: Result<(), Error>)
        ensures
            r is Ok <==> self.ready(),
            r matches Err(e) ==> e.kind == ErrorKind::PreconditionViolation,
    {
        if self.window.is_none() {
            return Err(Error::new(ErrorKind::PreconditionViolation, String::from_str("no window is bound")));
        }
        if self.controller.is_none() {
            return Err(Error::new(ErrorKind::PreconditionViolation, String::from_str("no input controller is attached")));
        }
        Ok(())
    }

    fn target(&self, rx: u32, ry: u32) -> (r: Result<(i32, i32), Error>)
        requires
            self.wf(),
        ensures
            match (r, self.pointer_target(rx, ry)) {
                (Ok(p), Ok(q)) => p == q,
                (Err(e), Err(k)) => e.kind == k,
                _ => false,
            },
    {
        self.check_ready()?;
        let bounds = match &self.window {
            Some(w) => w.bounds,
            None => None,
        };
        match bounds {
            None => Err(Error::new(ErrorKind::PreconditionViolation, String::from_str("the bound window has no bounds"))),
            Some(bd) => match to_screen((bd.x, bd.y), self.high_dpi_ratio, (rx, ry)) {
                Some(p) => Ok(p),
                None => Err(Error::new(ErrorKind::CoordinateOutOfRange, String::from_str("point outside the screen coordinates"))),
            },
        }
    }

    fn bind_selected(&mut self, windows: &WindowList, r: Option<usize>, selected: Ghost<Seq<bool>>)
        requires
            old(self).wf(),
            is_last_selected(selected@, r),
            selected@.len() == windows.0@.len(),
        ensures
            final(self).wf(),
            final(self).same_session(*old(self)),
            binds_last(final(self).window, windows.0@, selected@, old(self).capture_frequency),
    {
        match r {
            Some(i) => {
                let w = windows.0[i].with_capture_frequency(self.capture_frequency);
                self.window = Some(w);
                assert(same_window(w, windows.0@[i as int]));
            },
            None => {
                self.window = None;
            },
        }
    }

    /// Binds the last enumerated window whose name is `name`, sampled at the
    /// bot's rate; unbinds when no window has that name.
    pub fn set_window_from_name(&mut self, windows: &WindowList, name: &str)
        requires
            old(self).wf(),
        ensures
            final(self).wf(),
            final(self).same_session(*old(self)),
            binds_last(final(self).window, windows.0@, windows.0@.map_values(|w: Window| w.name@ == name@), old(self).capture_frequency),
    {
        let r = select_by_name(windows, name);
        self.bind_selected(windows, r, Ghost(windows.0@.map_values(|w: Window| w.name@ == name@)));
    }

    /// Binds the last enumerated window whose name the regular expression
    /// `regex` matches; unbinds when it matches none. Fails with
    /// `InvalidPattern`, the window left as it was, when `regex` does not
    /// compile.
    pub fn set_window_from_regex(&mut self, windows: &WindowList, regex: &str) -> (r: Result<(), Error>)
        requires
            old(self).wf(),
        ensures
            final(self).wf(),
            final(self).same_session(*old(self)),
            r is Ok <==> regex_compiles(regex@),
            r is Ok ==> binds_last(final(self).window, windows.0@,
                windows.0@.map_values(|w: Window| regex_finds(regex@, w.name@)), old(self).capture_frequency),
            r matches Err(e) ==> e.kind == ErrorKind::InvalidPattern && final(self).window == old(self).window,
    {
        let pattern = WindowPattern::new(regex)?;
        let r = select_by_pattern(windows, &pattern);
        self.bind_selected(windows, r, Ghost(windows.0@.map_values(|w: Window| regex_finds(regex@, w.name@))));
        Ok(())
    }

    /// Binds the last enumerated window whose id is `id`; unbinds when no
    /// window has it.
    pub fn set_window_from_id(&mut self, windows: &WindowList, id: i64)
        requires
            old(self).wf(),
        ensures
            final(self).wf(),
            final(self).same_session(*old(self)),
            binds_last(final(self).window, windows.0@, windows.0@.map_values(|w: Window| w.id == id), old(self).capture_frequency),
    {
        let r = select_by_id(windows, id);
        self.bind_selected(windows, r, Ghost(windows.0@.map_values(|w: Window| w.id == id)));
    }

    /// Attaches the input controller.
    pub fn set_controller(&mut self, controller: C)
        requires
            old(self).wf(),
        ensures
            final(self).wf(),
            final(self).controller == Some(controller),
            final(self).window == old(self).window,
            final(self).high_dpi_ratio == old(self).high_dpi_ratio,
            final(self).wait_time == old(self).wait_time,
            final(self).capture_frequency == old(self).capture_frequency,
    {
        self.controller = Some(controller);
    }

    /// Sets capture pixels per input point (1 for standard displays, 2 for
    /// high-density ones).
    pub fn set_high_dpi_ratio(&mut self, ratio: u32)
        requires
            old(self).wf(),
            ratio >= 1,
        ensures
            final(self).wf(),
            final(self).high_dpi_ratio == ratio,
            final(self).window == old(self).window,
            final(self).controller == old(self).controller,
            final(self).wait_time == old(self).wait_time,
            final(self).capture_frequency == old(self).capture_frequency,
    {
        self.high_dpi_ratio = ratio;
    }

    /// Sets the delay, in milliseconds, between moving the pointer and
    /// pressing or releasing a button.
    pub fn set_wait_time(&mut self, millis: u64)
        requires
            old(self).wf(),
        ensures
            final(self).wf(),
            final(self).wait_time == millis,
            final(self).window == old(self).window,
            final(self).controller == old(self).controller,
            final(self).high_dpi_ratio == old(self).high_dpi_ratio,
            final(self).capture_frequency == old(self).capture_frequency,
    {
        self.wait_time = millis;
    }

    /// Sets the sampling rate, in millihertz, given to windows bound from now on.
    pub fn set_capture_frequency(&mut self, millihertz: u32)
        requires
            old(self).wf(),
            millihertz > 0,
        ensures
            final(self).wf(),
            final(self).capture_frequency == millihertz,
            final(self).window == old(self).window,
            final(self).controller == old(self).controller,
            final(self).high_dpi_ratio == old(self).high_dpi_ratio,
            final(self).wait_time == old(self).wait_time,
    {
        self.capture_frequency = millihertz;
    }

    /// Blocks for `millis` milliseconds.
    pub fn sleep<K>(&self, millis: u64) -> (r: Vec<InputAction<K>>)
        ensures
            r@ == seq![InputAction::<K>::Wait { millis }],
    {
        let mut v: Vec<InputAction<K>> = Vec::new();
        v.push(InputAction::Wait { millis });
        v
    }

    /// Clicks at a capture-pixel point of the window: moves the pointer to
    /// its screen point, waits, presses, waits, releases.
    pub fn click<K>(&self, relative_x: u32, relative_y: u32) -> (r: Result<Vec<InputAction<K>>, Error>)
        requires
            self.wf(),
        ensures
            outcome_is(r, plan_at(self.pointer_target(relative_x, relative_y), |p: (i32, i32)| click_actions::<K>(p, self.wait_time))),
            self.window is None ==> fails_unbound(r),
    {
        let p = match self.target(relative_x, relative_y) {
            Ok(p) => p,
            Err(e) => {
                return Err(e);
            },
        };
        let mut v: Vec<InputAction<K>> = Vec::new();
        v.push(InputAction::MoveTo { x: p.0, y: p.1 });
        v.push(InputAction::Wait { millis: self.wait_time });
        v.push(InputAction::MouseDown);
        v.push(InputAction::Wait { millis: self.wait_time });
        v.push(InputAction::MouseUp);
        assert(v@ =~= click_actions::<K>(p, self.wait_time));
        Ok(v)
    }

    /// Presses the button at a capture-pixel point of the window.
    pub fn mouse_down_on<K>(&self, relative_x: u32, relative_y: u32) -> (r: Result<Vec<InputAction<K>>, Error>)
        requires
            self.wf(),
        ensures
            outcome_is(r, plan_at(self.pointer_target(relative_x, relative_y), |p: (i32, i32)| press_actions::<K>(p, self.wait_time))),
            self.window is None ==> fails_unbound(r),
    {
        let p = match self.target(relative_x, relative_y) {
            Ok(p) => p,
            Err(e) => {
                return Err(e);
            },
        };
        let mut v: Vec<InputAction<K>> = Vec::new();
        v.push(InputAction::MoveTo { x: p.0, y: p.1 });
        v.push(InputAction::Wait { millis: self.wait_time });
        v.push(InputAction::MouseDown);
        assert(v@ =~= press_actions::<K>(p, self.wait_time));
        Ok(v)
    }

    /// Releases the button at a capture-pixel point of the window.
    pub fn mouse_up_on<K>(&self, relative_x: u32, relative_y: u32) -> (r: Result<Vec<InputAction<K>>, Error>)
        requires
            self.wf(),
        ensures
            outcome_is(r, plan_at(self.pointer_target(relative_x, relative_y), |p: (i32, i32)| release_actions::<K>(p, self.wait_time))),
            self.window is None ==> fails_unbound(r),
    {
        let p = match self.target(relative_x, relative_y) {
            Ok(p) => p,
            Err(e) => {
                return Err(e);
            },
        };
        let mut v: Vec<InputAction<K>> = Vec::new();
        v.push(InputAction::MoveTo { x: p.0, y: p.1 });
        v.push(InputAction::Wait { millis: self.wait_time });
        v.push(InputAction::MouseUp);
        assert(v@ =~= release_actions::<K>(p, self.wait_time));
        Ok(v)
    }

    /// Clicks near the top of the window, at the middle of its title bar on
    /// a high-density display, to bring it to the foreground.
    pub fn activate_window<K>(&self) -> (r: Result<Vec<InputAction<K>>, Error>)
        requires
            self.wf(),
        ensures
            self.ready() && self.window.unwrap().bounds is Some ==> outcome_is(r, plan_at(
                self.pointer_target(self.window.unwrap().bounds.unwrap().width, TITLE_BAR_OFFSET),
                |p: (i32, i32)| click_actions::<K>(p, self.wait_time),
            )),
            !(self.ready() && self.window.unwrap().bounds is Some) ==> fails_unbound(r),
    {
        self.check_ready()?;
        let width = match &self.window {
            Some(w) => match w.bounds {
                Some(bd) => bd.width,
                None => {
                    return Err(Error::new(ErrorKind::PreconditionViolation, String::from_str("the bound window has no bounds")));
                },
            },
            None => {
                return Err(Error::new(ErrorKind::PreconditionViolation, String::from_str("no window is bound")));
            },
        };
        self.click(width, TITLE_BAR_OFFSET)
    }

    /// Starts a search of the bound window for a decoded template, with no
    /// deadline: the search goes on until the template appears.
    pub fn find(&self, template_path: String, template_width: u32, template_height: u32) -> (r: Result<Search, Error>)
        requires
            self.wf(),
        ensures
            self.find_outcome(r, template_path@, template_width, template_height, 0),
            self.window is None ==> fails_unbound(r),
    {
        self.find_with_timeout(template_path, template_width, template_height, 0)
    }

    /// Whether `r` is the search of the bound window for a template, with a
    /// deadline of `timeout_ms` (zero: none), or the failure to start it.
    pub open spec fn find_outcome(&self, r: Result<Search, Error>, path: Seq<char>, tw: u32, th: u32, timeout_ms: u64) -> bool {
        if !self.ready() || self.window.unwrap().capture_frequency == 0 {
            fails_unbound(r)
        } else if tw == 0 || th == 0 {
            r matches Err(e) && e.kind == ErrorKind::TemplateLoad
        } else {
            r matches Ok(s) && s.template_path@ == path && s.template_width == tw && s.template_height == th
                && s.timeout_ms == timeout_ms && s.tick_ms == tick_of(self.window.unwrap().capture_frequency as int)
        }
    }

    /// Starts a search of the bound window for a decoded template that gives
    /// up with `ImageNotFound` once `timeout_ms` milliseconds have passed
    /// (zero: never).
    pub fn find_with_timeout(&self, template_path: String, template_width: u32, template_height: u32, timeout_ms: u64)
        -> (r: Result<Search, Error>)
        requires
            self.wf(),
        ensures
            self.find_outcome(r, template_path@, template_width, template_height, timeout_ms),
            self.window is None ==> fails_unbound(r),
    {
        match self.check_ready() {
            Ok(()) => {},
            Err(e) => {
                return Err(e);
            },
        }
        let freq = match &self.window {
            Some(w) => w.capture_frequency,
            None => 0,
        };
        if freq == 0 {
            return Err(Error::new(ErrorKind::PreconditionViolation, String::from_str("the bound window has no sampling rate")));
        }
        Search::new(template_path, template_width, template_height, timeout_ms, freq)
    }

    /// Clicks at the center of a rectangle where a template was found, and
    /// returns that center in capture pixels.
    pub fn click_on_image<K>(&self, found: &Rect) -> (r: Result<((u32, u32), Vec<InputAction<K>>), Error>)
        requires
            self.wf(),
        ensures
            !self.ready() ==> fails_unbound(r),
            self.ready() && !center_fits(*found) ==> (r matches Err(e) && e.kind == ErrorKind::CoordinateOutOfRange),
            self.ready() && center_fits(*found) ==> {
                let c = center_of(*found);
                let t = self.pointer_target(c.0 as u32, c.1 as u32);
                match (r, t) {
                    (Ok((p, v)), Ok(q)) => p.0 == c.0 && p.1 == c.1 && v@ == click_actions::<K>(q, self.wait_time),
                    (Err(e), Err(k)) => e.kind == k,
                    _ => false,
                }
            },
    {
        match self.check_ready() {
            Ok(()) => {},
            Err(e) => {
                return Err(e);
            },
        }
        if found.width / 2 > u32::MAX - found.x || found.height / 2 > u32::MAX - found.y {
            return Err(Error::new(ErrorKind::CoordinateOutOfRange, String::from_str("center outside the capture coordinates")));
        }
        let c = found.center();
        match self.click(c.0, c.1) {
            Ok(v) => Ok((c, v)),
            Err(e) => Err(e),
        }
    }

    fn single<K>(&self, a: InputAction<K>) -> (r: Result<Vec<InputAction<K>>, Error>)
        ensures
            self.ready() ==> plans(r, seq![a]),
            !self.ready() ==> fails_unbound(r),
    {
        match self.check_ready() {
            Ok(()) => {},
            Err(e) => {
                return Err(e);
            },
        }
        let mut v: Vec<InputAction<K>> = Vec::new();
        v.push(a);
        assert(v@ =~= seq![a]);
        Ok(v)
    }

    /// Presses down the given key.
    pub fn key_down<K>(&self, key: K) -> (r: Result<Vec<InputAction<K>>, Error>)
        ensures
            self.ready() ==> plans(r, seq![InputAction::KeyDown(key)]),
            !self.ready() ==> fails_unbound(r),
    {
        self.single(InputAction::KeyDown(key))
    }

    /// Releases the given key.
    pub fn key_up<K>(&self, key: K) -> (r: Result<Vec<InputAction<K>>, Error>)
        ensures
            self.ready() ==> plans(r, seq![InputAction::KeyUp(key)]),
            !self.ready() ==> fails_unbound(r),
    {
        self.single(InputAction::KeyUp(key))
    }

    /// Presses and releases the given key.
    pub fn key_click<K>(&self, key: K) -> (r: Result<Vec<InputAction<K>>, Error>)
        ensures
            self.ready() ==> plans(r, seq![InputAction::KeyClick(key)]),
            !self.ready() ==> fails_unbound(r),
    {
        self.single(InputAction::KeyClick(key))
    }

    /// Types a text.
    pub fn key_sequence<K>(&self, text: &str) -> (r: Result<Vec<InputAction<K>>, Error>)
        ensures
            self.ready() ==> types_text(r, text@, false),
            !self.ready() ==> fails_unbound(r),
    {
        self.single(InputAction::Type(String::from_str(text)))
    }

    /// Types a text (the same as `key_sequence`).
    pub fn write<K>(&self, text: &str) -> (r: Result<Vec<InputAction<K>>, Error>)
        ensures
            self.ready() ==> types_text(r, text@, false),
            !self.ready() ==> fails_unbound(r),
    {
        self.key_sequence(text)
    }

    /// Types a text, then presses return.
    pub fn writeln<K>(&self, text: &str) -> (r: Result<Vec<InputAction<K>>, Error>)
        ensures
            self.ready() ==> types_text(r, text@, true),
            !self.ready() ==> fails_unbound(r),
    {
        let mut v = match self.key_sequence(text) {
            Ok(v) => v,
            Err(e) => {
                return Err(e);
            },
        };
        v.push(InputAction::PressReturn);
        Ok(v)
    }

    /// The attached controller, for performing the bot's events.
    pub fn controller_mut(&mut self) -> (r: Option<&mut C>)
        ensures
            r is Some <==> old(self).controller is Some,
            r matches Some(c) ==> *c == old(self).controller.unwrap(),
    {
        self.controller.as_mut()
    }
}

/// When exactly two enumerated windows carry the name `name`, binding by that
/// name binds the later of the two in enumeration order, not the first.
pub proof fn lemma_name_binds_later(windows: Seq<Window>, name: Seq<char>, i: int, j: int, w: Option<Window>, freq: u32)
    requires
        0 <= i < j < windows.len(),
        windows[i].name@ == name,
        windows[j].name@ == name,
        forall|k: int| 0 <= k < windows.len() && k != i && k != j ==> windows[k].name@ != name,
        binds_last(w, windows, windows.map_values(|x: Window| x.name@ == name), freq),
    ensures
        w matches Some(b) && same_window(b, windows[j]) && b.capture_frequency == freq,
{
    let selected = windows.map_values(|x: Window| x.name@ == name);
    assert(selected[j]);
    let b = w.unwrap();
    let k = choose|k: int|
        0 <= k < windows.len() && selected[k] && (forall|l: int| k < l < selected.len() ==> !selected[l])
            && same_window(b, #[trigger] windows[k]) && b.capture_frequency == freq;
    assert(selected[k]);
    assert(k == j);
}

} // verus!
