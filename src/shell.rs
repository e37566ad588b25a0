use vstd::prelude::*;
use crate::route::{parse_route, route_of, Route, RouteView};

verus! {

/// Whether a route is drawn inside the main frame (top bar, content
/// viewport, bottom bar); the diagnostic and not-found pages stand alone.
pub open spec fn framed(r: RouteView) -> bool {
    !(r is ErrorTest || r is NotFound)
}

/// A part of the screen that the layout arranges.
#[derive(Clone, Copy, Debug, PartialEq, Eq, Structural)]
pub enum Region {
    TopBar,
    Viewport,
    BottomBar,
}

/// The regions a route is drawn in, top to bottom.
pub open spec fn regions_of(r: RouteView) -> Seq<Region> {
    if framed(r) {
        seq![Region::TopBar, Region::Viewport, Region::BottomBar]
    } else {
        seq![Region::Viewport]
    }
}

/// Whether the route belongs to the main layout.
pub fn in_main_layout(route: &Route) -> (r: bool)
    ensures
        r == framed(route@),
{
    match route {
        Route::ErrorTest => false,
        Route::NotFound { .. } => false,
        _ => true,
    }
}

/// The regions the route is drawn in; the leaf view goes in the viewport.
pub fn compose(route: &Route) -> (r: Vec<Region>)
    ensures
        r@ == regions_of(route@),
{
    if in_main_layout(route) {
        let r = vec![Region::TopBar, Region::Viewport, Region::BottomBar];
        assert(r@ =~= regions_of(route@));
        r
    } else {
        let r = vec![Region::Viewport];
        assert(r@ =~= regions_of(route@));
        r
    }
}

/// The style classes of the content viewport: narrower padding on mobile.
pub fn container_class(mobile: bool) -> (r: &'static str)
    ensures
        mobile ==> r@ == "container-fluid px-2 mb-5 flex-grow-1 overflow-auto"@,
        !mobile ==> r@ == "container mb-5 flex-grow-1 overflow-auto"@,
{
    if mobile {
        "container-fluid px-2 mb-5 flex-grow-1 overflow-auto"
    } else {
        "container mb-5 flex-grow-1 overflow-auto"
    }
}

/// What the screen shows: the current route, or the fallback of the error
/// boundary with the failure's message.
#[derive(Clone, Debug, PartialEq, Eq)]
pub enum Screen {
    Page(Route),
    Fallback(String),
}

/// What is on screen, as a mathematical value.
pub enum ScreenView {
    Page(RouteView),
    Fallback(Seq<char>),
}

/// The screen for a route and the failure caught since the last navigation.
pub open spec fn screen_of(route: RouteView, failure: Option<Seq<char>>) -> ScreenView {
    match failure {
        Some(m) => ScreenView::Fallback(m),
        None => ScreenView::Page(route),
    }
}

/// A render failure below the boundary shows the fallback with its message and
/// keeps the route; the next navigation resolves its path and shows that page.
pub proof fn law_failure_is_contained(route: RouteView, message: Seq<char>, path: Seq<char>)
    ensures
        screen_of(route, Some(message)) == ScreenView::Fallback(message),
        screen_of(route_of(path), None) == ScreenView::Page(route_of(path)),
{
}

/// The router under its error boundary: the current route, and the render
/// failure the boundary caught since the last navigation, if any.
#[derive(Clone, Debug, PartialEq, Eq)]
pub struct Shell {
    pub route: Route,
    pub failure: Option<String>,
}

impl Shell {
    /// The shell showing the route of `path`.
    pub fn new(path: &str) -> (r: Shell)
        ensures
            r.route@ == route_of(path@),
            r.failure is None,
    {
        Shell { route: parse_route(path), failure: None }
    }

    /// Follows a link or a typed address: the route is resolved anew and the
    /// page is rendered afresh, also after a failure.
    pub fn navigate(&mut self, path: &str)
        ensures
            final(self).route@ == route_of(path@),
            final(self).failure is None,
    {
        self.route = parse_route(path);
        self.failure = None;
    }

    /// A leaf view failed while rendering: the boundary stops the failure and
    /// keeps its message for the fallback; the route stays as it was.
    pub fn render_failed(&mut self, message: String)
        ensures
            final(self).route == old(self).route,
            final(self).failure == Some(message),
    {
        self.failure = Some(message);
    }

    /// What is on screen now.
    pub fn screen(&self) -> (r: Screen)
        ensures
            self.failure is Some ==> r == Screen::Fallback(self.failure->0),
            self.failure is None ==> r is Page && r->Page_0@ == self.route@,
            match r {
                Screen::Page(p) => ScreenView::Page(p@),
                Screen::Fallback(m) => ScreenView::Fallback(m@),
            } == screen_of(self.route@, match self.failure {
                Some(m) => Some(m@),
                None => None,
            }),
    {
        match &self.failure {
            Some(m) => Screen::Fallback(m.clone()),
            None => Screen::Page(self.route.clone_route()),
        }
    }
}

impl Route {
    /// A copy of the route.
    pub fn clone_route(&self) -> (r: Route)
        ensures
            r@ == self@,
    {
        match self {
            Route::Home => Route::Home,
            Route::Profile => Route::Profile,
            Route::Comms => Route::Comms,
            Route::Circles => Route::Circles,
            Route::Tree => Route::Tree,
            Route::Settings => Route::Settings,
            Route::SystemInfo => Route::SystemInfo,
            Route::ErrorTest => Route::ErrorTest,
            Route::NotFound { route } => {
                let mut segs: Vec<String> = Vec::new();
                let mut i: usize = 0;
                while i < route.len()
                    invariant
                        i <= route@.len(),
                        segs@.len() == i,
                        forall|k: int| 0 <= k < i ==> segs@[k]@ == route@[k]@,
                    decreases route@.len() - i,
                {
                    segs.push(route[i].clone());
                    i = i + 1;
                }
                assert(crate::route::strings_view(segs@) =~= crate::route::strings_view(route@));
                Route::NotFound { route: segs }
            },
        }
    }
}

} // verus!
