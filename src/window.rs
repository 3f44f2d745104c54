//! Window descriptors and the choice of the window to bind.

use vstd::prelude::*;
use crate::error::{Error, ErrorKind};
use vstd::string::*;
use crate::geometry::Bounds;
use crate::text::{decimal, decimal_of, pad, padded, repeat_char, repeated};

verus! {

/// Captures per thousand seconds taken by default: three per second.
pub const DEFAULT_CAPTURE_FREQUENCY: u32 = 3000;

/// A snapshot of one window's identity and geometry.
#[derive(Debug)]
pub struct Window {
    /// Window number given by the window server.
    pub id: i64,
    /// Title of the window.
    pub name: String,
    /// Name of the application that owns the window.
    pub owner_name: String,
    /// Screen bounds of the window, when the window server gives them.
    pub bounds: Option<Bounds>,
    /// Sampling rate of searches in this window, in millihertz.
    pub capture_frequency: u32,
}

/// Whether two descriptors are of the same window with the same geometry.
pub open spec fn same_window(a: Window, b: Window) -> bool {
    &&& a.id == b.id
    &&& a.name@ == b.name@
    &&& a.owner_name@ == b.owner_name@
    &&& a.bounds == b.bounds
}

impl Window {
    /// Creates a descriptor, sampled at the default rate.
    pub fn new(id: i64, name: String, owner_name: String, bounds: Option<Bounds>) -> (w: Window)
        ensures
            w.id == id,
            w.name@ == name@,
            w.owner_name@ == owner_name@,
            w.bounds == bounds,
            w.capture_frequency == DEFAULT_CAPTURE_FREQUENCY,
    {
        Window { id, name, owner_name, bounds, capture_frequency: DEFAULT_CAPTURE_FREQUENCY }
    }

    /// Sets the number of captures per thousand seconds.
    pub fn set_capture_frequency(&mut self, millihertz: u32)
        ensures
            same_window(*final(self), *old(self)),
            final(self).capture_frequency == millihertz,
    {
        self.capture_frequency = millihertz;
    }

    /// A copy of this descriptor sampled at another rate.
    pub fn with_capture_frequency(&self, millihertz: u32) -> (w: Window)
        ensures
            same_window(w, *self),
            w.capture_frequency == millihertz,
    {
        Window {
            id: self.id,
            name: self.name.clone(),
            owner_name: self.owner_name.clone(),
            bounds: self.bounds,
            capture_frequency: millihertz,
        }
    }
}

/// Width of the id column of a window listing.
pub const ID_COLUMN: usize = 6;

/// Width of the name columns of a window listing.
pub const NAME_COLUMN: usize = 30;

/// A name cut to fit its column: longer names keep their first characters
/// and end with an ellipsis of three dots.
pub open spec fn shortened(name: Seq<char>) -> Seq<char> {
    if name.len() > NAME_COLUMN {
        name.subrange(0, NAME_COLUMN - 3) + "..."@
    } else {
        name
    }
}

/// The listing line of one window: id, name, owner name, in columns.
pub open spec fn row_of(w: Window) -> Seq<char> {
    padded(decimal_of(w.id as int), ID_COLUMN as nat) + " "@ + padded(shortened(w.name@), NAME_COLUMN as nat) + " "@
        + padded(w.owner_name@, NAME_COLUMN as nat) + "\n"@
}

/// The listing lines of windows, in order.
pub open spec fn rows_of(ws: Seq<Window>) -> Seq<char>
    decreases ws.len(),
{
    if ws.len() == 0 {
        Seq::empty()
    } else {
        rows_of(ws.drop_last()) + row_of(ws.last())
    }
}

/// The heading of a window listing: column titles, then a rule of dashes.
pub open spec fn listing_heading() -> Seq<char> {
    padded("Id"@, ID_COLUMN as nat) + " "@ + padded("Window Name"@, NAME_COLUMN as nat) + " "@
        + padded("Window Owner Name"@, NAME_COLUMN as nat) + "\n"@
        + repeated('-', (ID_COLUMN + 2 * NAME_COLUMN) as nat) + "\n"@
}

fn shorten(name: &str) -> (r: String)
    ensures
        r@ == shortened(name@),
{
    if name.unicode_len() > NAME_COLUMN {
        String::from_str(name.substring_char(0, NAME_COLUMN - 3)).concat("...")
    } else {
        String::from_str(name)
    }
}

fn row(w: &Window) -> (r: String)
    ensures
        r@ == row_of(*w),
{
    let name = shorten(w.name.as_str());
    pad(decimal(w.id).as_str(), ID_COLUMN).concat(" ").concat(pad(name.as_str(), NAME_COLUMN).as_str()).concat(" ").concat(
        pad(w.owner_name.as_str(), NAME_COLUMN).as_str(),
    ).concat("\n")
}

/// The windows on the desktop, in the window server's enumeration order.
#[derive(Debug)]
pub struct WindowList(pub Vec<Window>);

impl WindowList {
    /// Creates a list from enumerated descriptors, keeping their order.
    pub fn new(windows: Vec<Window>) -> (l: WindowList)
        ensures
            l.0@ == windows@,
    {
        WindowList(windows)
    }

    /// A table of the windows: a heading, then one line per window with its
    /// id, its name cut to fit, and its owner's name.
    pub fn prettify(&self) -> (t: String)
        ensures
            t@ == listing_heading() + rows_of(self.0@),
    {
        proof {
            reveal_strlit("-");
            assert("-"@ =~= seq!['-']);
        }
        let mut t = pad("Id", ID_COLUMN).concat(" ").concat(pad("Window Name", NAME_COLUMN).as_str()).concat(" ").concat(
            pad("Window Owner Name", NAME_COLUMN).as_str(),
        ).concat("\n");
        t.append(repeat_char("-", Ghost('-'), ID_COLUMN + 2 * NAME_COLUMN).as_str());
        t.append("\n");
        let mut i: usize = 0;
        while i < self.0.len()
            invariant
                0 <= i <= self.0@.len(),
                t@ == listing_heading() + rows_of(self.0@.subrange(0, i as int)),
            decreases self.0@.len() - i,
        {
            t.append(row(&self.0[i]).as_str());
            proof {
                let ws = self.0@.subrange(0, i + 1);
                assert(ws.drop_last() =~= self.0@.subrange(0, i as int));
            }
            i = i + 1;
        }
        assert(self.0@.subrange(0, i as int) =~= self.0@);
        t
    }
}

/// Whether `r` is the last index whose flag is set, `None` when none is.
pub open spec fn is_last_selected(selected: Seq<bool>, r: Option<usize>) -> bool {
    match r {
        Some(i) => i < selected.len() && selected[i as int]
            && forall|j: int| i < j < selected.len() ==> !selected[j],
        None => forall|j: int| 0 <= j < selected.len() ==> !selected[j],
    }
}

/// The index of the last selected item: a later selection overwrites an
/// earlier one.
pub fn last_selected(selected: &Vec<bool>) -> (r: Option<usize>)
    ensures
        is_last_selected(selected@, r),
{
    let mut r: Option<usize> = None;
    let mut i: usize = 0;
    while i < selected.len()
        invariant
            0 <= i <= selected@.len(),
            is_last_selected(selected@.subrange(0, i as int), r),
        decreases selected@.len() - i,
    {
        if selected[i] {
            r = Some(i);
        }
        i = i + 1;
        proof {
            let s = selected@.subrange(0, i as int);
            let p = selected@.subrange(0, i - 1);
            assert(forall|j: int| 0 <= j < i - 1 ==> s[j] == p[j]);
        }
    }
    assert(selected@.subrange(0, i as int) =~= selected@);
    r
}

/// The last window whose name equals `name`.
pub fn select_by_name(windows: &WindowList, name: &str) -> (r: Option<usize>)
    ensures
        is_last_selected(windows.0@.map_values(|w: Window| w.name@ == name@), r),
{
    let target = name.to_owned();
    let mut selected: Vec<bool> = Vec::new();
    let mut i: usize = 0;
    while i < windows.0.len()
        invariant
            0 <= i <= windows.0@.len(),
            target@ == name@,
            selected@ =~= windows.0@.subrange(0, i as int).map_values(|w: Window| w.name@ == name@),
        decreases windows.0@.len() - i,
    {
        selected.push(windows.0[i].name == target);
        i = i + 1;
    }
    assert(windows.0@.subrange(0, i as int) =~= windows.0@);
    last_selected(&selected)
}

/// The last window whose id equals `id`.
pub fn select_by_id(windows: &WindowList, id: i64) -> (r: Option<usize>)
    ensures
        is_last_selected(windows.0@.map_values(|w: Window| w.id == id), r),
{
    let mut selected: Vec<bool> = Vec::new();
    let mut i: usize = 0;
    while i < windows.0.len()
        invariant
            0 <= i <= windows.0@.len(),
            selected@ =~= windows.0@.subrange(0, i as int).map_values(|w: Window| w.id == id),
        decreases windows.0@.len() - i,
    {
        selected.push(windows.0[i].id == id);
        i = i + 1;
    }
    assert(windows.0@.subrange(0, i as int) =~= windows.0@);
    last_selected(&selected)
}

} // verus!
