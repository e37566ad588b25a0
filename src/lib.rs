//! The navigation and state core of the Jeebon client shell: the route
//! table and its matcher, the active entry of the bottom bar, the layout
//! frame, the shared theme state and its synchronisation with the host, the
//! error boundary around the router, and the fatal-failure diagnostic line.

pub mod diagnostic;
pub mod nav;
pub mod route;
pub mod shell;
pub mod theme;
