use vstd::prelude::*;
use vstd::string::StringExecFns;

verus! {

/// The pages of the application, one per path of the URL surface.
/// `NotFound` carries the segments of a path that no other route matched.
#[derive(Clone, Debug, PartialEq, Eq)]
pub enum Route {
    Home,
    Profile,
    Comms,
    Circles,
    Tree,
    Settings,
    SystemInfo,
    ErrorTest,
    NotFound { route: Vec<String> },
}

/// A route as a mathematical value.
pub enum RouteView {
    Home,
    Profile,
    Comms,
    Circles,
    Tree,
    Settings,
    SystemInfo,
    ErrorTest,
    NotFound(Seq<Seq<char>>),
}

pub open spec fn strings_view(v: Seq<String>) -> Seq<Seq<char>> {
    v.map_values(|s: String| s@)
}

impl View for Route {
    type V = RouteView;

    open spec fn view(&self) -> RouteView {
        match self {
            Route::Home => RouteView::Home,
            Route::Profile => RouteView::Profile,
            Route::Comms => RouteView::Comms,
            Route::Circles => RouteView::Circles,
            Route::Tree => RouteView::Tree,
            Route::Settings => RouteView::Settings,
            Route::SystemInfo => RouteView::SystemInfo,
            Route::ErrorTest => RouteView::ErrorTest,
            Route::NotFound { route } => RouteView::NotFound(strings_view(route@)),
        }
    }
}

/// The segments of `s` between separators `/`, in order; a string without a
/// separator is one segment, the empty string one empty segment.
pub open spec fn split_segments(s: Seq<char>) -> Seq<Seq<char>>
    decreases s.len(),
{
    if s.len() == 0 {
        seq![Seq::<char>::empty()]
    } else {
        let prev = split_segments(s.drop_last());
        if s.last() == '/' {
            prev.push(Seq::<char>::empty())
        } else {
            prev.update(prev.len() - 1, prev.last().push(s.last()))
        }
    }
}

/// A path without its one leading separator, if it has one.
pub open spec fn strip_root(p: Seq<char>) -> Seq<char> {
    if p.len() > 0 && p[0] == '/' {
        p.subrange(1, p.len() as int)
    } else {
        p
    }
}

/// The segments of a path.
pub open spec fn path_segments(p: Seq<char>) -> Seq<Seq<char>> {
    split_segments(strip_root(p))
}

/// The route that a list of segments names: a literal route where the
/// segments spell its path exactly, else the catch-all.
pub open spec fn route_of_segments(segs: Seq<Seq<char>>) -> RouteView {
    if segs == seq![Seq::<char>::empty()] {
        RouteView::Home
    } else if segs == seq!["profile"@] {
        RouteView::Profile
    } else if segs == seq!["comms"@] {
        RouteView::Comms
    } else if segs == seq!["circles"@] {
        RouteView::Circles
    } else if segs == seq!["trees"@] {
        RouteView::Tree
    } else if segs == seq!["settings"@] {
        RouteView::Settings
    } else if segs == seq!["system-info"@] {
        RouteView::SystemInfo
    } else if segs == seq!["error-test"@] {
        RouteView::ErrorTest
    } else {
        RouteView::NotFound(segs)
    }
}

/// The route that a path resolves to.
pub open spec fn route_of(p: Seq<char>) -> RouteView {
    route_of_segments(path_segments(p))
}

/// The path that names a literal route.
pub open spec fn canonical_path(r: RouteView) -> Seq<char> {
    match r {
        RouteView::Home => "/"@,
        RouteView::Profile => "/profile"@,
        RouteView::Comms => "/comms"@,
        RouteView::Circles => "/circles"@,
        RouteView::Tree => "/trees"@,
        RouteView::Settings => "/settings"@,
        RouteView::SystemInfo => "/system-info"@,
        RouteView::ErrorTest => "/error-test"@,
        RouteView::NotFound(segs) => seq!['/'] + join_segments(segs),
    }
}

/// The segments joined by the separator `/`.
pub open spec fn join_segments(segs: Seq<Seq<char>>) -> Seq<char>
    decreases segs.len(),
{
    if segs.len() == 0 {
        Seq::<char>::empty()
    } else if segs.len() == 1 {
        segs[0]
    } else {
        join_segments(segs.drop_last()) + seq!['/'] + segs.last()
    }
}

/// Splits `s` at each separator `/`.
pub fn split_path(s: &str) -> (r: Vec<String>)
    ensures
        strings_view(r@) == split_segments(s@),
{
    let n = s.unicode_len();
    let mut segs: Vec<String> = Vec::new();
    let mut start: usize = 0;
    let mut i: usize = 0;
    proof {
        assert(s@.subrange(0, 0) =~= Seq::<char>::empty());
        assert(strings_view(segs@).push(s@.subrange(0, 0)) =~= seq![Seq::<char>::empty()]);
    }
    while i < n
        invariant
            n == s@.len(),
            start <= i <= n,
            strings_view(segs@).push(s@.subrange(start as int, i as int)) == split_segments(
                s@.subrange(0, i as int),
            ),
        decreases n - i,
    {
        let c = s.get_char(i);
        proof {
            let t = s@.subrange(0, i + 1);
            assert(t.drop_last() == s@.subrange(0, i as int));
            assert(t.last() == c);
        }
        if c == '/' {
            let part = s.substring_char(start, i).to_owned();
            proof {
                assert(strings_view(segs@.push(part)) == strings_view(segs@).push(part@));
                assert(s@.subrange(i + 1, i + 1) == Seq::<char>::empty());
            }
            segs.push(part);
            start = i + 1;
        } else {
            proof {
                assert(s@.subrange(start as int, i + 1) == s@.subrange(start as int, i as int).push(
                    c,
                ));
            }
        }
        i = i + 1;
    }
    let last = s.substring_char(start, n).to_owned();
    proof {
        assert(s@.subrange(0, n as int) == s@);
        assert(strings_view(segs@.push(last)) == strings_view(segs@).push(last@));
    }
    segs.push(last);
    segs
}

/// Whether two strings hold the same characters.
pub fn same_text(a: &str, b: &str) -> (r: bool)
    ensures
        r == (a@ == b@),
{
    let n = a.unicode_len();
    if n != b.unicode_len() {
        return false;
    }
    let mut i: usize = 0;
    while i < n
        invariant
            n == a@.len() == b@.len(),
            i <= n,
            forall|k: int| 0 <= k < i ==> a@[k] == b@[k],
        decreases n - i,
    {
        if a.get_char(i) != b.get_char(i) {
            return false;
        }
        i = i + 1;
    }
    assert(a@ =~= b@);
    true
}

/// The literal route whose single path segment is `seg`, or the catch-all
/// carrying `segs` where no literal route has that segment.
fn route_of_single(seg: &str, segs: Vec<String>) -> (r: Route)
    requires
        segs@.len() == 1,
        segs@[0]@ == seg@,
    ensures
        r@ == route_of_segments(strings_view(segs@)),
{
    let ghost v = strings_view(segs@);
    proof {
        assert(v.len() == 1 && v[0] == seg@);
        assert forall|x: Seq<char>| (v == seq![x]) <==> (seg@ == x) by {
            if seg@ == x {
                assert(v =~= seq![x]);
            }
            if v == seq![x] {
                assert(v[0] == seq![x][0]);
            }
        }
    }
    if seg.unicode_len() == 0 {
        assert(seg@ =~= Seq::<char>::empty());
        Route::Home
    } else if same_text(seg, "profile") {
        Route::Profile
    } else if same_text(seg, "comms") {
        Route::Comms
    } else if same_text(seg, "circles") {
        Route::Circles
    } else if same_text(seg, "trees") {
        Route::Tree
    } else if same_text(seg, "settings") {
        Route::Settings
    } else if same_text(seg, "system-info") {
        Route::SystemInfo
    } else if same_text(seg, "error-test") {
        Route::ErrorTest
    } else {
        Route::NotFound { route: segs }
    }
}

/// Resolves a path to exactly one route: a literal route where the path
/// spells it, else the catch-all with the path's segments in order.
pub fn parse_route(path: &str) -> (r: Route)
    ensures
        r@ == route_of(path@),
{
    let n = path.unicode_len();
    let rest = if n > 0 && path.get_char(0) == '/' {
        path.substring_char(1, n)
    } else {
        path
    };
    assert(rest@ == strip_root(path@));
    let segs = split_path(rest);
    if segs.len() == 1 {
        let first = segs[0].clone();
        route_of_single(first.as_str(), segs)
    } else {
        proof {
            let v = strings_view(segs@);
            assert forall|x: Seq<char>| v != seq![x] by {
                assert(seq![x].len() == 1);
            }
        }
        Route::NotFound { route: segs }
    }
}

/// Joins segments with the separator `/`.
pub fn join_path(segs: &Vec<String>) -> (r: String)
    ensures
        r@ == join_segments(strings_view(segs@)),
{
    let mut out = String::new();
    let mut i: usize = 0;
    while i < segs.len()
        invariant
            i <= segs@.len(),
            out@ == join_segments(strings_view(segs@.subrange(0, i as int))),
        decreases segs@.len() - i,
    {
        let ghost before = strings_view(segs@.subrange(0, i as int));
        let ghost after = strings_view(segs@.subrange(0, i + 1));
        proof {
            assert(after =~= before.push(segs@[i as int]@));
            assert(after.drop_last() =~= before);
        }
        if i > 0 {
            out.append("/");
            proof {
                reveal_strlit("/");
            }
        } else {
            assert(after.len() == 1);
        }
        out.append(segs[i].as_str());
        i = i + 1;
    }
    assert(segs@.subrange(0, segs@.len() as int) == segs@);
    out
}

/// The sentence shown on the not-found page for the unmatched segments.
pub fn not_found_text(segs: &Vec<String>) -> (r: String)
    ensures
        r@ == "The page "@ + join_segments(strings_view(segs@)) + " was not found."@,
{
    let mut out = String::from_str("The page ");
    let joined = join_path(segs);
    out.append(joined.as_str());
    out.append(" was not found.");
    out
}

/// A string without a separator is a single segment.
pub proof fn lemma_split_no_separator(s: Seq<char>)
    requires
        forall|k: int| 0 <= k < s.len() ==> s[k] != '/',
    ensures
        split_segments(s) == seq![s],
    decreases s.len(),
{
    if s.len() > 0 {
        lemma_split_no_separator(s.drop_last());
        assert(s.drop_last().push(s.last()) =~= s);
        assert(seq![s.drop_last()].update(0, s.drop_last().push(s.last())) =~= seq![s]);
    } else {
        assert(s =~= Seq::<char>::empty());
    }
}

proof fn lemma_literal_route(p: Seq<char>, seg: Seq<char>)
    requires
        p.len() == seg.len() + 1,
        p[0] == '/',
        forall|k: int| 0 <= k < seg.len() ==> p[k + 1] == seg[k] && seg[k] != '/',
    ensures
        path_segments(p) == seq![seg],
{
    assert(strip_root(p) =~= seg);
    lemma_split_no_separator(seg);
}

proof fn lemma_singletons_differ(a: Seq<char>, b: Seq<char>, k: int)
    requires
        a.len() != b.len() || (0 <= k < a.len() && k < b.len() && a[k] != b[k]),
    ensures
        seq![a] != seq![b],
{
    assert(seq![a][0] == a);
    assert(seq![b][0] == b);
}

/// Every literal route is reached from its own path, so the literal paths
/// are pairwise distinct and each one resolves to exactly one route.
#[verifier::spinoff_prover]
#[verifier::rlimit(50)]
pub proof fn law_literal_paths_resolve(r: RouteView)
    requires
        !(r is NotFound),
    ensures
        route_of(canonical_path(r)) == r,
{
    reveal_strlit("/");
    reveal_strlit("/profile");
    reveal_strlit("profile");
    reveal_strlit("/comms");
    reveal_strlit("comms");
    reveal_strlit("/circles");
    reveal_strlit("circles");
    reveal_strlit("/trees");
    reveal_strlit("trees");
    reveal_strlit("/settings");
    reveal_strlit("settings");
    reveal_strlit("/system-info");
    reveal_strlit("system-info");
    reveal_strlit("/error-test");
    reveal_strlit("error-test");
    match r {
        RouteView::Home => {
            lemma_literal_route("/"@, Seq::<char>::empty());
        },
        RouteView::Profile => {
            lemma_literal_route("/profile"@, "profile"@);
            lemma_singletons_differ("profile"@, Seq::<char>::empty(), 0);
        },
        RouteView::Comms => {
            lemma_literal_route("/comms"@, "comms"@);
            lemma_singletons_differ("comms"@, Seq::<char>::empty(), 0);
            lemma_singletons_differ("comms"@, "profile"@, 0);
        },
        RouteView::Circles => {
            lemma_literal_route("/circles"@, "circles"@);
            lemma_singletons_differ("circles"@, Seq::<char>::empty(), 0);
            lemma_singletons_differ("circles"@, "profile"@, 1);
            lemma_singletons_differ("circles"@, "comms"@, 0);
        },
        RouteView::Tree => {
            lemma_literal_route("/trees"@, "trees"@);
            lemma_singletons_differ("trees"@, Seq::<char>::empty(), 0);
            lemma_singletons_differ("trees"@, "profile"@, 0);
            lemma_singletons_differ("trees"@, "comms"@, 0);
            lemma_singletons_differ("trees"@, "circles"@, 0);
        },
        RouteView::Settings => {
            lemma_literal_route("/settings"@, "settings"@);
            lemma_singletons_differ("settings"@, Seq::<char>::empty(), 0);
            lemma_singletons_differ("settings"@, "profile"@, 0);
            lemma_singletons_differ("settings"@, "comms"@, 0);
            lemma_singletons_differ("settings"@, "circles"@, 0);
            lemma_singletons_differ("settings"@, "trees"@, 0);
        },
        RouteView::SystemInfo => {
            lemma_literal_route("/system-info"@, "system-info"@);
            lemma_singletons_differ("system-info"@, Seq::<char>::empty(), 0);
            lemma_singletons_differ("system-info"@, "profile"@, 0);
            lemma_singletons_differ("system-info"@, "comms"@, 0);
            lemma_singletons_differ("system-info"@, "circles"@, 0);
            lemma_singletons_differ("system-info"@, "trees"@, 0);
            lemma_singletons_differ("system-info"@, "settings"@, 0);
        },
        RouteView::ErrorTest => {
            lemma_literal_route("/error-test"@, "error-test"@);
            lemma_singletons_differ("error-test"@, Seq::<char>::empty(), 0);
            lemma_singletons_differ("error-test"@, "profile"@, 0);
            lemma_singletons_differ("error-test"@, "comms"@, 0);
            lemma_singletons_differ("error-test"@, "circles"@, 0);
            lemma_singletons_differ("error-test"@, "trees"@, 0);
            lemma_singletons_differ("error-test"@, "settings"@, 0);
            lemma_singletons_differ("error-test"@, "system-info"@, 0);
        },
        RouteView::NotFound(_) => {},
    }
}

/// Splitting never yields an empty list.
pub proof fn lemma_split_nonempty(s: Seq<char>)
    ensures
        split_segments(s).len() >= 1,
    decreases s.len(),
{
    if s.len() > 0 {
        lemma_split_nonempty(s.drop_last());
    }
}

/// Joining the segments of a string with the separator gives the string back.
pub proof fn lemma_join_split(s: Seq<char>)
    ensures
        join_segments(split_segments(s)) == s,
    decreases s.len(),
{
    if s.len() > 0 {
        let t = s.drop_last();
        let prev = split_segments(t);
        lemma_join_split(t);
        lemma_split_nonempty(t);
        assert(t.push(s.last()) =~= s);
        if s.last() == '/' {
            let next = prev.push(Seq::<char>::empty());
            assert(next.drop_last() =~= prev);
            assert(join_segments(next) =~= s);
        } else {
            let next = prev.update(prev.len() - 1, prev.last().push(s.last()));
            if prev.len() == 1 {
                assert(join_segments(next) =~= s);
            } else {
                assert(next.drop_last() =~= prev.drop_last());
                assert(join_segments(prev) == join_segments(prev.drop_last()) + seq!['/'] + prev.last());
                assert(join_segments(next) =~= s);
            }
        }
    }
}

/// A path that no literal route spells resolves to the catch-all, whose
/// segments are the path's own split at the separator, in order: joined again
/// they give back the path without its leading separator.
pub proof fn law_unmatched_path_segments(p: Seq<char>)
    requires
        route_of(p) is NotFound,
    ensures
        route_of(p) == RouteView::NotFound(split_segments(strip_root(p))),
        join_segments(route_of(p)->NotFound_0) == strip_root(p),
{
    lemma_join_split(strip_root(p));
}

} // verus!
