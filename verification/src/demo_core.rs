//! Small enums shared by the demos.
use crate::text_util::str_eq;
use vstd::prelude::*;

verus! {

/// How a demo renders: a flat UI, a physically lit UI, or a 3D world.
#[derive(Clone, Copy, Debug, PartialEq, Eq, Structural)]
pub enum DemoType {
    Ui2D,
    UiPhysical,
    World3D,
}

impl DemoType {
    /// Whether the fly camera follows the keyboard and the mouse: in the
    /// world demos and in the physically lit UI, which is inspected in 3D.
    pub fn uses_camera_controls(self) -> (r: bool)
        ensures
            r == (self != DemoType::Ui2D),
    {
        match self {
            DemoType::Ui2D => false,
            _ => true,
        }
    }

    /// Whether held keys pan, zoom and rotate a flat view.
    pub fn uses_2d_view_controls(self) -> (r: bool)
        ensures
            r == (self == DemoType::Ui2D),
    {
        match self {
            DemoType::Ui2D => true,
            _ => false,
        }
    }
}

/// Which list items a list view shows.
#[derive(Clone, Copy, Debug, PartialEq, Eq, Structural)]
pub enum ListFilter {
    All,
    Active,
    Completed,
}

/// Whether an item with the given completion state passes `filter`.
pub open spec fn filter_admits(filter: ListFilter, completed: bool) -> bool {
    match filter {
        ListFilter::All => true,
        ListFilter::Active => !completed,
        ListFilter::Completed => completed,
    }
}

pub open spec fn list_filter_name(filter: ListFilter) -> Seq<char> {
    match filter {
        ListFilter::All => "all"@,
        ListFilter::Active => "active"@,
        ListFilter::Completed => "completed"@,
    }
}

impl ListFilter {
    /// The filter named exactly `s` ("all", "active" or "completed").
    pub fn from_str(s: &str) -> (r: Option<ListFilter>)
        ensures
            r matches Some(f) ==> list_filter_name(f) == s@,
            r is None ==> s@ != "all"@ && s@ != "active"@ && s@ != "completed"@,
    {
        if str_eq(s, "all") {
            Some(ListFilter::All)
        } else if str_eq(s, "active") {
            Some(ListFilter::Active)
        } else if str_eq(s, "completed") {
            Some(ListFilter::Completed)
        } else {
            None
        }
    }

    pub fn name(&self) -> (r: &'static str)
        ensures
            r@ == list_filter_name(*self),
    {
        match self {
            ListFilter::All => "all",
            ListFilter::Active => "active",
            ListFilter::Completed => "completed",
        }
    }
}

} // verus!
