//! Route descriptors: the closed set of page kinds that the dashboard's
//! JSON route files can declare, and the pure work done on them — the
//! help-page body and the help-order sort.
//!
//! Reading the route files from disk and wiring the descriptors into the
//! web framework are the host's concern; the types and rules live here.

use vstd::prelude::*;

verus! {

/// Default description for a route whose file gives none.
pub fn default_description() -> (r: String)
    ensures
        r@ == "No description, please set one for this route in /json_routes"@,
{
    String::from_str("No description, please set one for this route in /json_routes")
}

/// Default help-page ordering for a route whose file gives none.
pub fn default_help_order() -> (r: i32)
    ensures
        r == 256,
{
    256
}

/// The parameters common to every route descriptor.
pub struct RouteMeta {
    /// The path the route is served under.
    pub route: String,
    /// The page title.
    pub title: String,
    /// The description shown on the help page.
    pub description: String,
    /// Position on the help page; lower comes first.
    pub help_order: i32,
    /// Which HTML template renders the page.
    pub template_num: i32,
    /// Required authorization level; positive means login-protected.
    pub auth_level: i32,
}

/// One endpoint of a configurable outbound API: its path and the query
/// parameters used when the request gives none.
pub struct ApiEndpointConfig {
    pub path: String,
    pub default_params: Vec<(String, String)>,
}

/// The closed set of route kinds a JSON route file can declare; an
/// unknown tag is rejected at load time rather than ignored.
pub enum RouteFunction {
    /// A plain page with a fixed body.
    NormalPage { meta: RouteMeta, body: String },
    /// The generated help page.
    HelpPage { meta: RouteMeta },
    /// Launch a shell script as a background job.
    RunCommand {
        meta: RouteMeta,
        lock_file_path: String,
        log_file_path: String,
        script_file_path: String,
    },
    /// Show the tail of one of a fixed list of log files.
    GetLogs { meta: RouteMeta, log_file_types: Option<Vec<String>> },
    /// Proxy a request to an outbound API.
    ApiCaller { meta: RouteMeta, base_url: String, endpoints: Vec<(String, ApiEndpointConfig)> },
}

impl RouteFunction {
    /// The descriptor's common parameters.
    pub open spec fn spec_meta(self) -> RouteMeta {
        match self {
            RouteFunction::NormalPage { meta, .. } => meta,
            RouteFunction::HelpPage { meta, .. } => meta,
            RouteFunction::RunCommand { meta, .. } => meta,
            RouteFunction::GetLogs { meta, .. } => meta,
            RouteFunction::ApiCaller { meta, .. } => meta,
        }
    }

    pub fn meta(&self) -> (r: &RouteMeta)
        ensures
            *r == self.spec_meta(),
    {
        match self {
            RouteFunction::NormalPage { meta, .. } => meta,
            RouteFunction::HelpPage { meta, .. } => meta,
            RouteFunction::RunCommand { meta, .. } => meta,
            RouteFunction::GetLogs { meta, .. } => meta,
            RouteFunction::ApiCaller { meta, .. } => meta,
        }
    }
}

/// How one character reads after HTML escaping: each of the six
/// significant characters becomes its entity; everything else is kept.
pub open spec fn html_escape_char(c: char) -> Seq<char> {
    if c == '&' {
        "&amp;"@
    } else if c == '<' {
        "&lt;"@
    } else if c == '>' {
        "&gt;"@
    } else if c == '"' {
        "&quot;"@
    } else if c == '\'' {
        "&#x27;"@
    } else if c == '/' {
        "&#x2F;"@
    } else {
        seq![c]
    }
}

/// HTML escaping of a whole string, character by character.
pub open spec fn html_escaped(s: Seq<char>) -> Seq<char>
    decreases s.len(),
{
    if s.len() == 0 {
        Seq::empty()
    } else {
        html_escape_char(s[0]) + html_escaped(s.drop_first())
    }
}

/// Relies on `html_escape::encode_safe`: it replaces exactly the bytes
/// of `&`, `<`, `>`, `"`, `'` and `/` with their entities and keeps
/// every other byte, which on UTF-8 input is the per-character mapping
/// stated by `html_escaped`.
#[verifier::external_body]
fn escape_html(s: &str) -> (r: String)
    ensures
        r@ == html_escaped(s@),
{
    html_escape::encode_safe(s).into_owned()
}

/// Where a route is served from: protected routes sit under their own
/// prefix.
pub open spec fn spec_route_prefix(auth_level: int) -> Seq<char> {
    if auth_level >= 1 {
        "/protected"@
    } else {
        ""@
    }
}

pub fn route_prefix(auth_level: i32) -> (r: &'static str)
    ensures
        r@ == spec_route_prefix(auth_level as int),
{
    if auth_level >= 1 {
        "/protected"
    } else {
        ""
    }
}

/// One help-page list item for a route.
pub open spec fn help_line_rep(m: RouteMeta) -> Seq<char> {
    "    <li><a href=\""@ + spec_route_prefix(m.auth_level as int) + html_escaped(m.route@)
        + "\">"@ + html_escaped(m.title@) + "</a>: "@ + html_escaped(m.description@) + "</li>\n"@
}

/// The help-page list items for a sequence of routes, in order.
pub open spec fn help_lines_rep(s: Seq<RouteFunction>) -> Seq<char>
    decreases s.len(),
{
    if s.len() == 0 {
        Seq::empty()
    } else {
        help_line_rep(s[0].spec_meta()) + help_lines_rep(s.drop_first())
    }
}

/// The whole help page body for a sequence of routes.
pub open spec fn help_page_rep(s: Seq<RouteFunction>) -> Seq<char> {
    "<h3>Help Page</h3>\n<ul>\n"@ + help_lines_rep(s) + "</ul>\n"@
}

proof fn lemma_help_lines_push(s: Seq<RouteFunction>, rf: RouteFunction)
    ensures
        help_lines_rep(s.push(rf)) == help_lines_rep(s) + help_line_rep(rf.spec_meta()),
    decreases s.len(),
{
    let t = s.push(rf);
    if s.len() == 0 {
        assert(t.drop_first() =~= Seq::<RouteFunction>::empty());
        assert(help_lines_rep(s) + help_line_rep(rf.spec_meta()) =~= help_line_rep(
            rf.spec_meta(),
        ));
        assert(help_lines_rep(t) == help_line_rep(t[0].spec_meta()) + help_lines_rep(
            t.drop_first(),
        ));
        assert(help_lines_rep(t.drop_first()) == Seq::<char>::empty());
        assert(help_line_rep(rf.spec_meta()) + Seq::<char>::empty() =~= help_line_rep(
            rf.spec_meta(),
        ));
    } else {
        assert(t.drop_first() =~= s.drop_first().push(rf));
        lemma_help_lines_push(s.drop_first(), rf);
        assert(help_lines_rep(t) == help_line_rep(s[0].spec_meta()) + (help_lines_rep(
            s.drop_first(),
        ) + help_line_rep(rf.spec_meta())));
        assert(help_line_rep(s[0].spec_meta()) + (help_lines_rep(s.drop_first()) + help_line_rep(
            rf.spec_meta(),
        )) =~= (help_line_rep(s[0].spec_meta()) + help_lines_rep(s.drop_first())) + help_line_rep(
            rf.spec_meta(),
        ));
    }
}

/// Build the help-page body: one escaped list item per route, in the
/// given order.
pub fn build_help_page_html(route_functions: Vec<RouteFunction>) -> (r: String)
    ensures
        r@ == help_page_rep(route_functions@),
{
    let ghost all = route_functions@;
    let mut html = String::from_str("<h3>Help Page</h3>\n<ul>\n");
    let n = route_functions.len();
    let mut i: usize = 0;
    while i < n
        invariant
            i <= n,
            n == all.len(),
            all == route_functions@,
            html@ == "<h3>Help Page</h3>\n<ul>\n"@ + help_lines_rep(all.take(i as int)),
        decreases n - i,
    {
        let meta = route_functions[i].meta();
        html.append("    <li><a href=\"");
        html.append(route_prefix(meta.auth_level));
        let route = escape_html(meta.route.as_str());
        html.append(route.as_str());
        html.append("\">");
        let title = escape_html(meta.title.as_str());
        html.append(title.as_str());
        html.append("</a>: ");
        let desc = escape_html(meta.description.as_str());
        html.append(desc.as_str());
        html.append("</li>\n");
        proof {
            let ii = i as int;
            lemma_help_lines_push(all.take(ii), all[ii]);
            assert(all.take(ii).push(all[ii]) =~= all.take(ii + 1));
            assert(html@ == "<h3>Help Page</h3>\n<ul>\n"@ + help_lines_rep(all.take(ii + 1)));
        }
        i += 1;
    }
    proof {
        assert(all.take(n as int) =~= all);
    }
    html.append("</ul>\n");
    html
}

/// Help order of one route, as the sort compares it.
pub open spec fn horder(rf: RouteFunction) -> int {
    rf.spec_meta().help_order as int
}

/// Sorted for the help page: ascending help order.
pub open spec fn sorted_by_help_order(s: Seq<RouteFunction>) -> bool {
    forall|i: int, j: int| 0 <= i < j < s.len() ==> horder(#[trigger] s[i]) <= horder(
        #[trigger] s[j],
    )
}

/// Sort route descriptors by their help order: the result is ordered
/// and holds exactly the given descriptors.
pub fn sort_routes_by_help_order(routes: Vec<RouteFunction>) -> (r: Vec<RouteFunction>)
    ensures
        sorted_by_help_order(r@),
        r@.to_multiset() == routes@.to_multiset(),
{
    broadcast use vstd::seq_lib::group_to_multiset_ensures;

    let ghost orig = routes@;
    let mut routes = routes;
    let n = routes.len();
    let mut i: usize = 0;
    while i < n
        invariant
            i <= n,
            n == routes@.len(),
            routes@.to_multiset() == orig.to_multiset(),
            sorted_by_help_order(routes@.take(i as int)),
        decreases n - i,
    {
        let mut j: usize = i;
        let mut moving = true;
        proof {
            assert forall|a: int, b: int| 0 <= a < b <= i && b != j implies horder(
                #[trigger] routes@[a],
            ) <= horder(#[trigger] routes@[b]) by {
                assert(routes@.take(i as int)[a] == routes@[a]);
                assert(routes@.take(i as int)[b] == routes@[b]);
            }
        }
        while moving && j > 0
            invariant
                j <= i < n,
                n == routes@.len(),
                routes@.to_multiset() == orig.to_multiset(),
                moving ==> forall|a: int, b: int|
                    0 <= a < b <= i && b != j ==> horder(#[trigger] routes@[a]) <= horder(
                        #[trigger] routes@[b],
                    ),
                moving ==> forall|a: int|
                    j < a <= i ==> horder(routes@[j as int]) <= horder(#[trigger] routes@[a]),
                !moving ==> sorted_by_help_order(routes@.take(i + 1)),
            decreases (if moving { j + 1 } else { 0 }),
        {
            if routes[j - 1].meta().help_order > routes[j].meta().help_order {
                let ghost pre = routes@;
                let a = routes.remove(j - 1);
                routes.insert(j, a);
                proof {
                    broadcast use vstd::seq_lib::to_multiset_remove;
                    broadcast use vstd::seq_lib::to_multiset_insert;
                    broadcast use vstd::multiset::group_multiset_axioms;

                    assert(routes@ =~= pre.update(j - 1, pre[j as int]).update(
                        j as int,
                        pre[j - 1],
                    ));
                    assert(routes@ == pre.remove(j - 1).insert(j as int, pre[j - 1]));
                    assert(routes@.to_multiset() == pre.remove(j - 1).to_multiset().insert(
                        pre[j - 1],
                    ));
                    assert(pre.remove(j - 1).to_multiset() == pre.to_multiset().remove(
                        pre[j - 1],
                    ));
                    assert(0 <= j - 1 < pre.len() && pre[j - 1] == pre[j - 1]);
                    assert(pre.contains(pre[j - 1]));
                    vstd::seq_lib::to_multiset_contains(pre, pre[j - 1]);
                    assert(pre.to_multiset().count(pre[j - 1]) > 0);
                    assert(routes@.to_multiset() =~= pre.to_multiset());
                }
                j -= 1;
            } else {
                moving = false;
                proof {
                    assert forall|a: int, b: int|
                        0 <= a < b < i + 1 implies horder(#[trigger] routes@[a]) <= horder(
                        #[trigger] routes@[b],
                    ) by {
                        if b == j as int {
                            if a < j - 1 {
                                assert(horder(routes@[a]) <= horder(routes@[j - 1]));
                            }
                        }
                    }
                    assert(sorted_by_help_order(routes@.take(i + 1))) by {
                        assert forall|a: int, b: int|
                            0 <= a < b < routes@.take(i + 1).len() implies horder(
                            #[trigger] routes@.take(i + 1)[a],
                        ) <= horder(#[trigger] routes@.take(i + 1)[b]) by {
                            assert(routes@.take(i + 1)[a] == routes@[a]);
                            assert(routes@.take(i + 1)[b] == routes@[b]);
                        }
                    }
                }
            }
        }
        proof {
            if moving {
                assert(j == 0);
                assert forall|a: int, b: int|
                    0 <= a < b < routes@.take(i + 1).len() implies horder(
                    #[trigger] routes@.take(i + 1)[a],
                ) <= horder(#[trigger] routes@.take(i + 1)[b]) by {
                    assert(routes@.take(i + 1)[a] == routes@[a]);
                    assert(routes@.take(i + 1)[b] == routes@[b]);
                    if b == j as int {
                    } else {
                        assert(horder(routes@[a]) <= horder(routes@[b]));
                    }
                }
            }
            assert(sorted_by_help_order(routes@.take(i + 1)));
        }
        i += 1;
    }
    proof {
        assert(routes@.take(n as int) =~= routes@);
    }
    routes
}

} // verus!
