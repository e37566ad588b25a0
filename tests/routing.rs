use jeebon::nav::{resolve_active, BottomNav, NavItem};
use jeebon::route::{join_path, not_found_text, parse_route, same_text, split_path, Route};
use jeebon::shell::{compose, container_class, in_main_layout, Region, Screen, Shell};

fn segs(v: &[&str]) -> Vec<String> {
    v.iter().map(|s| s.to_string()).collect()
}

#[test]
fn literal_paths_resolve_to_their_routes() {
    assert_eq!(parse_route("/"), Route::Home);
    assert_eq!(parse_route("/profile"), Route::Profile);
    assert_eq!(parse_route("/comms"), Route::Comms);
    assert_eq!(parse_route("/circles"), Route::Circles);
    assert_eq!(parse_route("/trees"), Route::Tree);
    assert_eq!(parse_route("/settings"), Route::Settings);
    assert_eq!(parse_route("/system-info"), Route::SystemInfo);
    assert_eq!(parse_route("/error-test"), Route::ErrorTest);
}

#[test]
fn unmatched_path_keeps_segments_in_order() {
    assert_eq!(
        parse_route("/unknown/deep/path"),
        Route::NotFound { route: segs(&["unknown", "deep", "path"]) }
    );
    assert_eq!(parse_route("/tree"), Route::NotFound { route: segs(&["tree"]) });
    assert_eq!(parse_route("/profile/x"), Route::NotFound { route: segs(&["profile", "x"]) });
}

#[test]
fn empty_path_is_home() {
    assert_eq!(parse_route(""), Route::Home);
}

#[test]
fn split_keeps_empty_segments() {
    assert_eq!(split_path("a//b/"), segs(&["a", "", "b", ""]));
    assert_eq!(split_path(""), segs(&[""]));
}

#[test]
fn join_undoes_split() {
    let parts = split_path("unknown/deep/path");
    assert_eq!(join_path(&parts), "unknown/deep/path");
    assert_eq!(join_path(&Vec::new()), "");
}

#[test]
fn same_text_compares_characters() {
    assert!(same_text("circles", "circles"));
    assert!(!same_text("circles", "circle"));
    assert!(!same_text("abc", "abd"));
}

#[test]
fn active_item_for_each_route() {
    assert_eq!(resolve_active(&Route::Profile), NavItem::Profile);
    assert_eq!(resolve_active(&Route::Comms), NavItem::Comms);
    assert_eq!(resolve_active(&Route::Circles), NavItem::Circles);
    assert_eq!(resolve_active(&Route::Tree), NavItem::Trees);
    assert_eq!(resolve_active(&Route::Settings), NavItem::Settings);
    assert_eq!(resolve_active(&Route::Home), NavItem::Trees);
    assert_eq!(resolve_active(&Route::SystemInfo), NavItem::Trees);
    assert_eq!(resolve_active(&Route::ErrorTest), NavItem::Trees);
    assert_eq!(resolve_active(&Route::NotFound { route: segs(&["x"]) }), NavItem::Trees);
    assert_eq!(resolve_active(&Route::Comms), resolve_active(&Route::Comms));
}

#[test]
fn exactly_one_entry_active() {
    let routes = vec![
        Route::Home,
        Route::Profile,
        Route::Comms,
        Route::Circles,
        Route::Tree,
        Route::Settings,
        Route::SystemInfo,
        Route::ErrorTest,
        Route::NotFound { route: segs(&["a"]) },
    ];
    for r in routes.iter() {
        let links = BottomNav(r);
        assert_eq!(links.len(), 5);
        assert_eq!(links.iter().filter(|l| l.active).count(), 1);
    }
}

#[test]
fn circles_end_to_end() {
    let route = parse_route("/circles");
    assert_eq!(route, Route::Circles);
    assert_eq!(resolve_active(&route), NavItem::Circles);
    let links = BottomNav(&route);
    for l in links.iter() {
        assert_eq!(l.active, l.item == NavItem::Circles);
        assert_eq!(l.item.target(), match l.item {
            NavItem::Profile => Route::Profile,
            NavItem::Comms => Route::Comms,
            NavItem::Circles => Route::Circles,
            NavItem::Trees => Route::Tree,
            NavItem::Settings => Route::Settings,
        });
    }
    assert_eq!(links[2].item.label(), "Circles");
}

#[test]
fn unknown_path_end_to_end() {
    let route = parse_route("/unknown/deep/path");
    match &route {
        Route::NotFound { route: parts } => {
            assert_eq!(parts, &segs(&["unknown", "deep", "path"]));
            let text = not_found_text(parts);
            assert!(text.contains("unknown/deep/path"));
            assert_eq!(text, "The page unknown/deep/path was not found.");
        }
        other => panic!("unexpected route {:?}", other),
    }
    assert!(!in_main_layout(&route));
}

#[test]
fn layout_frames_main_routes_only() {
    assert_eq!(compose(&Route::Home), vec![Region::TopBar, Region::Viewport, Region::BottomBar]);
    assert_eq!(compose(&Route::SystemInfo), vec![Region::TopBar, Region::Viewport, Region::BottomBar]);
    assert_eq!(compose(&Route::ErrorTest), vec![Region::Viewport]);
    assert_eq!(compose(&Route::NotFound { route: segs(&["x"]) }), vec![Region::Viewport]);
    assert_eq!(container_class(true), "container-fluid px-2 mb-5 flex-grow-1 overflow-auto");
    assert_eq!(container_class(false), "container mb-5 flex-grow-1 overflow-auto");
}

#[test]
fn render_failure_shows_fallback_and_navigation_still_works() {
    let mut shell = Shell::new("/circles");
    assert_eq!(shell.screen(), Screen::Page(Route::Circles));
    shell.render_failed("boom".to_string());
    assert_eq!(shell.screen(), Screen::Fallback("boom".to_string()));
    assert_eq!(shell.route, Route::Circles);
    shell.navigate("/settings");
    assert_eq!(shell.screen(), Screen::Page(Route::Settings));
    assert_eq!(resolve_active(&shell.route), NavItem::Settings);
}
