//! View-level helpers: the zoom level and the go-to-line target.

use vstd::prelude::*;

verus! {

/// The editor's zoom percentage, stepped in tens and clamped to a fixed
/// range.
pub struct Zoom {
    percent: u32,
}

impl View for Zoom {
    type V = u32;

    closed spec fn view(&self) -> u32 {
        self.percent
    }
}

impl Zoom {
    /// The default zoom level.
    pub fn new() -> (z: Self)
        ensures
            z@ == 100u32,
    {
        Zoom { percent: 100 }
    }

    /// Step the zoom up by ten percentage points, capped at 500.
    pub fn zoom_in(&mut self)
        ensures
            final(self)@ == (if old(self)@ < 500 {
                (old(self)@ + 10) as u32
            } else {
                old(self)@
            }),
    {
        if self.percent < 500 {
            self.percent = self.percent + 10;
        }
    }

    /// Step the zoom down by ten percentage points, floored at 20.
    pub fn zoom_out(&mut self)
        ensures
            final(self)@ == (if old(self)@ > 20 {
                (old(self)@ - 10) as u32
            } else {
                old(self)@
            }),
    {
        if self.percent > 20 {
            self.percent = self.percent - 10;
        }
    }

    /// Restore the default zoom level.
    pub fn reset(&mut self)
        ensures
            final(self)@ == 100u32,
    {
        self.percent = 100;
    }

    /// The current zoom percentage.
    pub fn percent(&self) -> (r: u32)
        ensures
            r == self@,
    {
        self.percent
    }
}

/// The zero-based line a go-to-line command should move to: the one-based
/// request clamped into the document's line range, or nothing for a
/// document reporting no lines.
pub open spec fn goto_target_spec(requested: int, line_count: int) -> Option<int> {
    if line_count <= 0 {
        None
    } else if requested - 1 < 0 {
        Some(0int)
    } else if requested - 1 >= line_count {
        Some(line_count - 1)
    } else {
        Some(requested - 1)
    }
}

/// Clamp a one-based go-to-line request into a document of `line_count`
/// lines, returning the zero-based target line.
pub fn goto_line_target(requested: i32, line_count: i32) -> (r: Option<i32>)
    ensures
        match r {
            Some(t) => goto_target_spec(requested as int, line_count as int) == Some(t as int),
            None => goto_target_spec(requested as int, line_count as int) is None,
        },
{
    if line_count <= 0 {
        None
    } else if requested <= 0 {
        Some(0)
    } else {
        let line: i32 = requested - 1;
        if line >= line_count {
            Some(line_count - 1)
        } else {
            Some(line)
        }
    }
}

} // verus!
