//! Physical orientation of a notebook and the page size it fixes.

use vstd::prelude::*;

verus! {

/// Length in points of a page's short side.
pub const SHORT_SIDE: u32 = 1404;

/// Length in points of a page's long side.
pub const LONG_SIDE: u32 = 1872;

/// Physical orientation of every page of a document.
#[derive(Clone, Copy, Debug, PartialEq, Eq, Structural)]
pub enum Layout {
    Landscape,
    Portrait,
}

/// The name under which a content descriptor spells `Layout::Landscape`.
pub open spec fn landscape_name() -> Seq<char> {
    seq!['l', 'a', 'n', 'd', 's', 'c', 'a', 'p', 'e']
}

/// The name under which a content descriptor spells `Layout::Portrait`.
pub open spec fn portrait_name() -> Seq<char> {
    seq!['p', 'o', 'r', 't', 'r', 'a', 'i', 't']
}

impl Layout {
    /// Page width and height in points.
    pub open spec fn spec_size(self) -> (u32, u32) {
        match self {
            Layout::Landscape => (LONG_SIDE, SHORT_SIDE),
            Layout::Portrait => (SHORT_SIDE, LONG_SIDE),
        }
    }

    /// The orientation that a name stands for, if it stands for one.
    pub open spec fn spec_from_name(name: Seq<char>) -> Option<Layout> {
        if name == landscape_name() {
            Some(Layout::Landscape)
        } else if name == portrait_name() {
            Some(Layout::Portrait)
        } else {
            None
        }
    }

    /// Page width and height in points: the long side lies flat in landscape
    /// and stands upright in portrait.
    pub fn size(self) -> (size: (u32, u32))
        ensures
            size == self.spec_size(),
            self == Layout::Landscape ==> size == (1872u32, 1404u32),
            self == Layout::Portrait ==> size == (1404u32, 1872u32),
    {
        match self {
            Layout::Landscape => (LONG_SIDE, SHORT_SIDE),
            Layout::Portrait => (SHORT_SIDE, LONG_SIDE),
        }
    }

    /// Page width in points.
    pub fn width(self) -> (width: u32)
        ensures
            width == self.spec_size().0,
    {
        self.size().0
    }

    /// Page height in points.
    pub fn height(self) -> (height: u32)
        ensures
            height == self.spec_size().1,
    {
        self.size().1
    }

    /// Reads an orientation from its name.  Only `landscape` and `portrait`,
    /// spelled exactly so, name one.
    pub fn from_name(name: &str) -> (layout: Option<Layout>)
        ensures
            layout == Layout::spec_from_name(name@),
    {
        proof {
            reveal_strlit("landscape");
            reveal_strlit("portrait");
        }
        assert("landscape"@ =~= landscape_name());
        assert("portrait"@ =~= portrait_name());
        if same_text(name, "landscape") {
            Some(Layout::Landscape)
        } else if same_text(name, "portrait") {
            Some(Layout::Portrait)
        } else {
            None
        }
    }
}

/// A name gives a page size exactly where it is `landscape`, which gives
/// 1872 by 1404 points, or `portrait`, which gives 1404 by 1872.  No other
/// name gives one.
pub proof fn lemma_size_of_name(name: Seq<char>)
    ensures
        name == landscape_name() ==> Layout::spec_from_name(name) == Some(Layout::Landscape),
        name == portrait_name() ==> Layout::spec_from_name(name) == Some(Layout::Portrait),
        name != landscape_name() && name != portrait_name() ==> Layout::spec_from_name(name)
            is None,
        Layout::Landscape.spec_size() == (1872u32, 1404u32),
        Layout::Portrait.spec_size() == (1404u32, 1872u32),
{
    assert(landscape_name().len() != portrait_name().len());
}

/// Whether two strings hold the same characters.
fn same_text(left: &str, right: &str) -> (same: bool)
    ensures
        same == (left@ == right@),
{
    let left_owned = left.to_owned();
    let right_owned = right.to_owned();
    left_owned == right_owned
}

} // verus!
