//! View-state helpers for the presentation layer: cyclic tab selection and
//! wrap-around table row selection.

use vstd::prelude::*;

verus! {

/// Cyclic tab selection state.
pub struct TabsState<'a> {
    pub titles: Vec<&'a str>,
    pub index: usize,
}

impl<'a> TabsState<'a> {
    /// A tab state over the given titles, on the first tab.
    pub fn new(titles: Vec<&'a str>) -> (t: TabsState<'a>)
        ensures
            t.titles@ == titles@,
            t.index == 0,
    {
        TabsState { titles, index: 0 }
    }

    /// Advance to the next tab, wrapping to the first after the last.
    pub fn next(&mut self)
        requires
            old(self).titles@.len() > 0,
            old(self).index < old(self).titles@.len(),
        ensures
            final(self).titles@ == old(self).titles@,
            final(self).index as int == (old(self).index + 1) % (old(self).titles@.len() as int),
    {
        let n = self.titles.len();
        self.index = (self.index + 1) % n;
    }

    /// Step back to the previous tab, wrapping to the last from the first.
    pub fn previous(&mut self)
        requires
            old(self).titles@.len() > 0,
        ensures
            final(self).titles@ == old(self).titles@,
            final(self).index as int == if old(self).index > 0 {
                old(self).index - 1
            } else {
                old(self).titles@.len() - 1
            },
    {
        if self.index > 0 {
            self.index -= 1;
        } else {
            self.index = self.titles.len() - 1;
        }
    }
}

/// The row selected after a step forward through a table of `len` rows: the
/// next row, the first after the last, and the first when nothing was
/// selected.
pub fn next_row_index(selected: Option<usize>, len: usize) -> (r: usize)
    requires
        len > 0,
    ensures
        r as int == match selected {
            Some(i) => if i as int >= len - 1 {
                0int
            } else {
                i + 1
            },
            None => 0int,
        },
{
    match selected {
        Some(i) => if i >= len - 1 {
            0
        } else {
            i + 1
        },
        None => 0,
    }
}

/// Whether a record is due for another report: the first sighting always
/// is, and after that only once strictly more than `min_interval` has passed
/// since the last report.  All times are non-negative event milliseconds.
pub fn should_report(last_report: Option<i64>, time: i64, min_interval: i64) -> (r: bool)
    requires
        0 <= time,
        match last_report {
            Some(t) => 0 <= t,
            None => true,
        },
    ensures
        r == match last_report {
            Some(t) => time - t > min_interval,
            None => true,
        },
{
    match last_report {
        Some(t) => time - t > min_interval,
        None => true,
    }
}

/// The row selected after a step back through a table of `len` rows: the
/// previous row, the last before the first, and the first when nothing was
/// selected.
pub fn previous_row_index(selected: Option<usize>, len: usize) -> (r: usize)
    requires
        len > 0,
    ensures
        r as int == match selected {
            Some(i) => if i == 0 {
                len - 1
            } else {
                i - 1
            },
            None => 0int,
        },
{
    match selected {
        Some(i) => if i == 0 {
            len - 1
        } else {
            i - 1
        },
        None => 0,
    }
}

} // verus!
