//! Deciding when the user has scrolled to the bottom of the content.

use vstd::prelude::*;

verus! {

/// The bottom is reached when the lowest visible position (scroll offset plus
/// viewport height, rounded up to a whole pixel) is at or past the content's
/// height.
pub open spec fn at_bottom(reach: int, content_height: int) -> bool {
    reach >= content_height
}

/// Whether the bottom of the content is reached.
pub fn reached_bottom(reach: i64, content_height: i64) -> (r: bool)
    ensures
        r == at_bottom(reach as int, content_height as int),
{
    reach >= content_height
}

/// Watches the scroll position and signals once per arrival at the bottom.
/// It is armed while the view is above the bottom; it fires when an armed
/// monitor sees the bottom, and then waits until the view is above it again
/// (new content was appended, or the user scrolled up). Once disposed it never
/// fires again.
#[derive(Clone, Copy, PartialEq, Eq, Structural, Debug)]
pub struct ScrollMonitor {
    pub armed: bool,
    pub installed: bool,
}

impl ScrollMonitor {
    /// A monitor that is installed and armed.
    pub fn install() -> (r: ScrollMonitor)
        ensures
            r.armed,
            r.installed,
    {
        ScrollMonitor { armed: true, installed: true }
    }

    /// Takes in a new scroll position; returns whether to signal "load more".
    pub fn observe(&mut self, reach: i64, content_height: i64) -> (fire: bool)
        ensures
            fire == (old(self).installed && old(self).armed && at_bottom(reach as int, content_height as int)),
            final(self).installed == old(self).installed,
            final(self).armed == if old(self).installed {
                !at_bottom(reach as int, content_height as int)
            } else {
                old(self).armed
            },
    {
        if !self.installed {
            return false;
        }
        let bottom = reached_bottom(reach, content_height);
        let fire = self.armed && bottom;
        self.armed = !bottom;
        fire
    }

    /// Detaches the monitor: it never fires again.
    pub fn dispose(&mut self)
        ensures
            !final(self).installed,
            final(self).armed == old(self).armed,
    {
        self.installed = false;
    }
}

} // verus!
