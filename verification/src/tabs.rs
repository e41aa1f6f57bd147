//! The tabs of the main screen.

use vstd::prelude::*;

verus! {

/// A tab of the main screen.
#[derive(Clone, Copy, PartialEq, Eq, Structural, Debug)]
pub enum Tab {
    Cyf,
    Zsozso,
    Networking,
    Info,
    Settings,
    Log,
}

impl Default for Tab {
    fn default() -> (r: Self)
        ensures
            r == Tab::Cyf,
    {
        Tab::Cyf
    }
}

} // verus!
