use vstd::prelude::*;
use crate::route::{Route, RouteView};

verus! {

/// An entry of the bottom navigation bar.
#[derive(Clone, Copy, Debug, PartialEq, Eq, Structural)]
pub enum NavItem {
    Profile,
    Comms,
    Circles,
    Trees,
    Settings,
}

/// The entry highlighted for a route; routes without an entry of their own
/// fall back to `Trees`.
pub open spec fn active_item(r: RouteView) -> NavItem {
    match r {
        RouteView::Profile => NavItem::Profile,
        RouteView::Comms => NavItem::Comms,
        RouteView::Circles => NavItem::Circles,
        RouteView::Tree => NavItem::Trees,
        RouteView::Settings => NavItem::Settings,
        _ => NavItem::Trees,
    }
}

/// The entries of the bar, left to right.
pub open spec fn nav_order() -> Seq<NavItem> {
    seq![NavItem::Profile, NavItem::Comms, NavItem::Circles, NavItem::Trees, NavItem::Settings]
}

/// The route an entry links to.
pub open spec fn nav_target(i: NavItem) -> RouteView {
    match i {
        NavItem::Profile => RouteView::Profile,
        NavItem::Comms => RouteView::Comms,
        NavItem::Circles => RouteView::Circles,
        NavItem::Trees => RouteView::Tree,
        NavItem::Settings => RouteView::Settings,
    }
}

/// Derives which bar entry is active for the current route.
pub fn resolve_active(route: &Route) -> (r: NavItem)
    ensures
        r == active_item(route@),
{
    match route {
        Route::Profile => NavItem::Profile,
        Route::Comms => NavItem::Comms,
        Route::Circles => NavItem::Circles,
        Route::Tree => NavItem::Trees,
        Route::Settings => NavItem::Settings,
        _ => NavItem::Trees,
    }
}

impl NavItem {
    /// The route this entry links to.
    pub fn target(&self) -> (r: Route)
        ensures
            r@ == nav_target(*self),
    {
        match self {
            NavItem::Profile => Route::Profile,
            NavItem::Comms => Route::Comms,
            NavItem::Circles => Route::Circles,
            NavItem::Trees => Route::Tree,
            NavItem::Settings => Route::Settings,
        }
    }

    /// The caption shown under the entry's icon.
    pub fn label(&self) -> (r: &'static str)
        ensures
            r@ == match *self {
                NavItem::Profile => "Profile"@,
                NavItem::Comms => "Comms"@,
                NavItem::Circles => "Circles"@,
                NavItem::Trees => "Trees"@,
                NavItem::Settings => "Settings"@,
            },
    {
        match self {
            NavItem::Profile => "Profile",
            NavItem::Comms => "Comms",
            NavItem::Circles => "Circles",
            NavItem::Trees => "Trees",
            NavItem::Settings => "Settings",
        }
    }
}

/// One rendered entry of the bar: which entry, and whether it is marked active.
#[derive(Clone, Copy, Debug, PartialEq, Eq, Structural)]
pub struct NavLink {
    pub item: NavItem,
    pub active: bool,
}

/// The entries of the bottom navigation bar for the current route, in bar
/// order, each marked active exactly when it is the resolved entry.
#[allow(non_snake_case)]
pub fn BottomNav(route: &Route) -> (r: Vec<NavLink>)
    ensures
        r@.len() == nav_order().len(),
        forall|k: int|
            0 <= k < r@.len() ==> r@[k].item == nav_order()[k] && r@[k].active == (
            nav_order()[k] == active_item(route@)),
{
    let active = resolve_active(route);
    let mut links: Vec<NavLink> = Vec::new();
    links.push(NavLink { item: NavItem::Profile, active: active == NavItem::Profile });
    links.push(NavLink { item: NavItem::Comms, active: active == NavItem::Comms });
    links.push(NavLink { item: NavItem::Circles, active: active == NavItem::Circles });
    links.push(NavLink { item: NavItem::Trees, active: active == NavItem::Trees });
    links.push(NavLink { item: NavItem::Settings, active: active == NavItem::Settings });
    links
}

/// For every route exactly one entry of the bar is the active one.
pub proof fn law_exactly_one_active(r: RouteView)
    ensures
        exists|k: int|
            0 <= k < nav_order().len() && nav_order()[k] == active_item(r) && forall|j: int|
                0 <= j < nav_order().len() && nav_order()[j] == active_item(r) ==> j == k,
{
    let a = active_item(r);
    let s = nav_order();
    let k: int = match a {
        NavItem::Profile => 0,
        NavItem::Comms => 1,
        NavItem::Circles => 2,
        NavItem::Trees => 3,
        NavItem::Settings => 4,
    };
    assert(s[k] == a);
    assert forall|j: int| 0 <= j < s.len() && s[j] == a implies j == k by {
        assert(s[0] == NavItem::Profile && s[1] == NavItem::Comms && s[2] == NavItem::Circles
            && s[3] == NavItem::Trees && s[4] == NavItem::Settings);
    }
}

/// Every route resolves to an entry of the bar: a route with an entry of its
/// own gets the entry that links back to it, any other falls back to `Trees`.
pub proof fn law_resolve_total(r: RouteView)
    ensures
        nav_order().contains(active_item(r)),
        nav_target(active_item(r)) == r || active_item(r) == NavItem::Trees,
{
    let s = nav_order();
    let a = active_item(r);
    let k: int = match a {
        NavItem::Profile => 0,
        NavItem::Comms => 1,
        NavItem::Circles => 2,
        NavItem::Trees => 3,
        NavItem::Settings => 4,
    };
    assert(s[k] == a);
}

} // verus!
