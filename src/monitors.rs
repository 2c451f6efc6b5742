use vstd::prelude::*;

use crate::rect::Rect;

verus! {

/// What the operating system reported for one display: its bounds in
/// virtual-screen coordinates, in physical pixels.
#[derive(Clone, Copy, Debug, PartialEq, Eq, Structural)]
pub struct MonitorInfo {
    pub monitor: Rect,
}

impl MonitorInfo {
    pub fn new(monitor: Rect) -> (m: MonitorInfo)
        ensures
            m.monitor == monitor,
    {
        MonitorInfo { monitor }
    }

    /// The bounds of the display.
    pub fn get_display_monitor(&self) -> (r: &Rect)
        ensures
            *r == self.monitor,
    {
        &self.monitor
    }
}

/// The displays whose metadata could be read, in the order in which the
/// enumeration reported them; a report of `None` is a display whose
/// metadata the operating system could not return.
pub open spec fn valid_reports(reports: Seq<Option<Rect>>) -> Seq<Rect>
    decreases reports.len(),
{
    if reports.len() == 0 {
        Seq::empty()
    } else {
        let rest = valid_reports(reports.drop_last());
        match reports.last() {
            Some(r) => rest.push(r),
            None => rest,
        }
    }
}

/// Whether an enumeration deserves a warning: it found no display, or some
/// display's metadata could not be read.
pub open spec fn incomplete_reports(reports: Seq<Option<Rect>>) -> bool {
    reports.len() == 0 || exists|i: int| 0 <= i < reports.len() && reports[i] is None
}

/// The bounds held by a sequence of display records.
pub open spec fn bounds_of(ms: Seq<MonitorInfo>) -> Seq<Rect> {
    ms.map_values(|m: MonitorInfo| m.monitor)
}

/// Keeps the displays whose metadata was read, in the order reported.
pub fn enumerate_monitors(reports: &Vec<Option<Rect>>) -> (ms: Vec<MonitorInfo>)
    ensures
        bounds_of(ms@) == valid_reports(reports@),
{
    let mut ms: Vec<MonitorInfo> = Vec::new();
    let mut i: usize = 0;
    while i < reports.len()
        invariant
            i <= reports@.len(),
            bounds_of(ms@) == valid_reports(reports@.subrange(0, i as int)),
        decreases reports@.len() - i,
    {
        let ghost before = ms@;
        assert(reports@.subrange(0, i + 1).drop_last() == reports@.subrange(0, i as int));
        match reports[i] {
            Some(r) => {
                ms.push(MonitorInfo::new(r));
                assert(bounds_of(ms@) == bounds_of(before).push(r));
            },
            None => {},
        }
        i = i + 1;
    }
    assert(reports@.subrange(0, reports@.len() as int) == reports@);
    ms
}

/// Whether the enumeration that produced `reports` found no display or
/// failed to read one of them.
pub fn enumeration_incomplete(reports: &Vec<Option<Rect>>) -> (b: bool)
    ensures
        b == incomplete_reports(reports@),
{
    if reports.len() == 0 {
        return true;
    }
    let mut i: usize = 0;
    while i < reports.len()
        invariant
            i <= reports@.len(),
            forall|j: int| 0 <= j < i ==> reports@[j] is Some,
        decreases reports@.len() - i,
    {
        if reports[i].is_none() {
            return true;
        }
        i = i + 1;
    }
    false
}

/// The displays of one enumeration snapshot.
pub struct VirtualScreen(Vec<MonitorInfo>);

impl View for VirtualScreen {
    type V = Seq<Rect>;

    closed spec fn view(&self) -> Seq<Rect> {
        bounds_of(self.0@)
    }
}

impl VirtualScreen {
    /// The screen made of the displays of `reports` whose metadata was read.
    pub fn new(reports: &Vec<Option<Rect>>) -> (s: VirtualScreen)
        ensures
            s@ == valid_reports(reports@),
    {
        VirtualScreen(enumerate_monitors(reports))
    }

    pub fn monitor_count(&self) -> (n: usize)
        ensures
            n == self@.len(),
    {
        self.0.len()
    }

    /// The bounds of display `index`.
    pub fn monitor_bounds(&self, index: usize) -> (r: Rect)
        requires
            index < self@.len(),
        ensures
            r == self@[index as int],
    {
        *self.0[index].get_display_monitor()
    }

    /// The bounds of the primary display, the first one enumerated, if any
    /// display was found.
    pub fn primary_bounds(&self) -> (r: Option<Rect>)
        ensures
            self@.len() == 0 ==> r is None,
            self@.len() > 0 ==> r == Some(self@[0]),
    {
        if self.0.len() == 0 {
            None
        } else {
            Some(self.monitor_bounds(0))
        }
    }
}

} // verus!
