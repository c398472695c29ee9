//! Routing: which handler serves a request, and what it captures from the
//! path.
//!
//! A request path is taken as its non-empty, decoded segments, so `/member`
//! and `/member/` are the same path and `/` has no segments.

use vstd::prelude::*;
use crate::error::{Failure, FailureModel};

verus! {

/// An HTTP method.
#[derive(Debug, Clone, Copy, PartialEq, Eq, Structural)]
pub enum Method {
    Get,
    Put,
    Post,
    Delete,
    Options,
    Head,
    Trace,
    Connect,
    Patch,
}

/// The handlers of the site.
#[derive(Debug, Clone, Copy, PartialEq, Eq, Structural)]
pub enum Handler {
    Index,
    World,
    Delay,
    MemberCreate,
    MemberList,
    MemberDelete,
    WeightCreate,
    WeightList,
    WeightDelete,
}

/// One segment of a route's path: a fixed text, or a parameter that takes
/// whatever segment the request has there.
#[derive(Debug, PartialEq, Eq)]
pub enum Segment {
    Fixed(String),
    Param,
}

/// A route segment as specifications see it.
pub enum SegmentView {
    Fixed(Seq<char>),
    Param,
}

impl DeepView for Segment {
    type V = SegmentView;

    open spec fn deep_view(&self) -> SegmentView {
        match self {
            Segment::Fixed(text) => SegmentView::Fixed(text@),
            Segment::Param => SegmentView::Param,
        }
    }
}

/// A route: the method and path it answers to, and the handler it leads to.
#[derive(Debug, PartialEq, Eq)]
pub struct Route {
    pub method: Method,
    pub path: Vec<Segment>,
    pub handler: Handler,
}

/// A route as specifications see it.
pub struct RouteView {
    pub method: Method,
    pub path: Seq<SegmentView>,
    pub handler: Handler,
}

impl DeepView for Route {
    type V = RouteView;

    open spec fn deep_view(&self) -> RouteView {
        RouteView { method: self.method, path: self.path.deep_view(), handler: self.handler }
    }
}

/// The parameters among the first `n` segments of `path`, each with the
/// request segment at its place, in path order.
pub open spec fn captured(path: Seq<SegmentView>, segments: Seq<Seq<char>>, n: nat) -> Seq<
    Seq<char>,
>
    decreases n,
{
    if n == 0 {
        Seq::empty()
    } else {
        let before = captured(path, segments, (n - 1) as nat);
        if n <= path.len() && n <= segments.len() && path[n - 1] is Param {
            before.push(segments[n - 1])
        } else {
            before
        }
    }
}

impl RouteView {
    /// The route answers to a request: same method, as many segments, and
    /// every fixed segment equal to the request's.
    pub open spec fn matches(self, method: Method, segments: Seq<Seq<char>>) -> bool {
        &&& self.method == method
        &&& self.path.len() == segments.len()
        &&& forall|i: int|
            0 <= i < self.path.len() ==> (#[trigger] self.path[i] matches SegmentView::Fixed(text)
                ==> text == segments[i])
    }

    /// What the route's parameters take from the request.
    pub open spec fn captures(self, segments: Seq<Seq<char>>) -> Seq<Seq<char>> {
        captured(self.path, segments, self.path.len())
    }

    /// The route with `base` put before its path.
    pub open spec fn under(self, base: Seq<Seq<char>>) -> RouteView {
        RouteView {
            path: base.map_values(|text: Seq<char>| SegmentView::Fixed(text)) + self.path,
            ..self
        }
    }
}

/// The routes with `base` put before each path.
pub open spec fn mounted(base: Seq<Seq<char>>, routes: Seq<RouteView>) -> Seq<RouteView> {
    routes.map_values(|route: RouteView| route.under(base))
}

/// Route `i` serves the request: it answers to it, and no earlier route does.
pub open spec fn serves(routes: Seq<RouteView>, method: Method, segments: Seq<Seq<char>>, i: int)
    -> bool {
    &&& 0 <= i < routes.len()
    &&& routes[i].matches(method, segments)
    &&& forall|j: int| 0 <= j < i ==> !(#[trigger] routes[j]).matches(method, segments)
}

/// No route answers to the request.
pub open spec fn unserved(routes: Seq<RouteView>, method: Method, segments: Seq<Seq<char>>)
    -> bool {
    forall|j: int| 0 <= j < routes.len() ==> !(#[trigger] routes[j]).matches(method, segments)
}

/// A group of routes to mount under a common base path.
#[derive(Debug, PartialEq, Eq)]
pub struct Stage {
    pub base: Vec<String>,
    pub routes: Vec<Route>,
}

/// The route that serves a request, by its place in the site, with the
/// handler it leads to and the segments its parameters took.
#[derive(Debug, PartialEq, Eq)]
pub struct Matched {
    pub route: usize,
    pub handler: Handler,
    pub params: Vec<String>,
}

/// The routes of a site, in the order they were mounted.
#[derive(Debug, PartialEq, Eq)]
pub struct Site {
    pub routes: Vec<Route>,
}

impl DeepView for Site {
    type V = Seq<RouteView>;

    open spec fn deep_view(&self) -> Seq<RouteView> {
        self.routes.deep_view()
    }
}

impl Route {
    /// A route for `method` on `path`.
    pub fn new(method: Method, path: Vec<Segment>, handler: Handler) -> (route: Route)
        ensures
            route.deep_view() == (RouteView { method, path: path.deep_view(), handler }),
    {
        Route { method, path, handler }
    }

    /// Whether the route answers to a request.
    pub fn matches(&self, method: Method, segments: &Vec<String>) -> (answer: bool)
        ensures
            answer == self.deep_view().matches(method, segments.deep_view()),
    {
        if self.method != method || self.path.len() != segments.len() {
            return false;
        }
        let mut i: usize = 0;
        while i < self.path.len()
            invariant
                i <= self.path.len(),
                self.path.len() == segments.len(),
                forall|k: int|
                    0 <= k < i ==> (#[trigger] self.path.deep_view()[k] matches SegmentView::Fixed(
                        text,
                    ) ==> text == segments.deep_view()[k]),
            decreases self.path.len() - i,
        {
            let same = match &self.path[i] {
                Segment::Fixed(text) => *text == segments[i],
                Segment::Param => true,
            };
            if !same {
                assert(self.path.deep_view()[i as int] is Fixed);
                return false;
            }
            i += 1;
        }
        true
    }

    /// What the route's parameters take from a request.
    pub fn captures(&self, segments: &Vec<String>) -> (params: Vec<String>)
        ensures
            params.deep_view() == self.deep_view().captures(segments.deep_view()),
    {
        let mut params: Vec<String> = Vec::new();
        let mut i: usize = 0;
        while i < self.path.len()
            invariant
                i <= self.path.len(),
                params.deep_view() == captured(
                    self.path.deep_view(),
                    segments.deep_view(),
                    i as nat,
                ),
            decreases self.path.len() - i,
        {
            if i < segments.len() {
                match &self.path[i] {
                    Segment::Param => {
                        params.push(segments[i].clone());
                    },
                    Segment::Fixed(_) => {},
                }
            }
            i += 1;
        }
        params
    }

    /// A copy of the route with `base` put before its path.
    pub fn under(&self, base: &Vec<String>) -> (route: Route)
        ensures
            route.deep_view() == self.deep_view().under(base.deep_view()),
    {
        let ghost prefix = base.deep_view().map_values(|text: Seq<char>| SegmentView::Fixed(text));
        let ghost whole = prefix + self.path.deep_view();
        let mut path: Vec<Segment> = Vec::new();
        let mut i: usize = 0;
        while i < base.len()
            invariant
                i <= base.len(),
                whole == prefix + self.path.deep_view(),
                prefix == base.deep_view().map_values(|text: Seq<char>| SegmentView::Fixed(text)),
                path.deep_view() == whole.take(i as int),
            decreases base.len() - i,
        {
            let ghost before = path.deep_view();
            path.push(Segment::Fixed(base[i].clone()));
            assert(path.deep_view() =~= before.push(whole[i as int]));
            i += 1;
        }
        let mut j: usize = 0;
        while j < self.path.len()
            invariant
                j <= self.path.len(),
                whole == prefix + self.path.deep_view(),
                prefix.len() == base.len(),
                path.deep_view() == whole.take(base.len() + j),
            decreases self.path.len() - j,
        {
            let ghost before = path.deep_view();
            let segment = match &self.path[j] {
                Segment::Fixed(text) => Segment::Fixed(text.clone()),
                Segment::Param => Segment::Param,
            };
            path.push(segment);
            assert(path.deep_view() =~= before.push(whole[base.len() + j]));
            j += 1;
        }
        assert(path.deep_view() =~= whole);
        Route { method: self.method, path, handler: self.handler }
    }
}

impl Site {
    /// A site without routes.
    pub fn new() -> (site: Site)
        ensures
            site.deep_view() == Seq::<RouteView>::empty(),
    {
        Site { routes: Vec::new() }
    }

    /// Adds `routes`, each under `base`, after the routes already there.
    pub fn mount(&mut self, base: &Vec<String>, routes: Vec<Route>)
        ensures
            final(self).deep_view() == old(self).deep_view() + mounted(
                base.deep_view(),
                routes.deep_view(),
            ),
    {
        let ghost before = self.deep_view();
        let ghost added = mounted(base.deep_view(), routes.deep_view());
        let mut i: usize = 0;
        while i < routes.len()
            invariant
                i <= routes.len(),
                added == mounted(base.deep_view(), routes.deep_view()),
                self.deep_view() == before + added.take(i as int),
            decreases routes.len() - i,
        {
            let ghost done = self.deep_view();
            self.routes.push(routes[i].under(base));
            assert(self.deep_view() =~= done.push(added[i as int]));
            i += 1;
        }
        assert(added.take(routes.len() as int) =~= added);
    }

    /// Adds the routes of `stage` under its base.
    pub fn attach(&mut self, stage: Stage)
        ensures
            final(self).deep_view() == old(self).deep_view() + mounted(
                stage.base.deep_view(),
                stage.routes.deep_view(),
            ),
    {
        let Stage { base, routes } = stage;
        self.mount(&base, routes);
    }

    /// Finds the route that serves a request: the first that answers to it.
    /// Where no route answers, the request is refused as not found.
    pub fn resolve(&self, method: Method, segments: &Vec<String>) -> (found: Result<
        Matched,
        Failure,
    >)
        ensures
            match found {
                Ok(m) => {
                    &&& serves(self.deep_view(), method, segments.deep_view(), m.route as int)
                    &&& m.handler == self.deep_view()[m.route as int].handler
                    &&& m.params.deep_view() == self.deep_view()[m.route as int].captures(
                        segments.deep_view(),
                    )
                },
                Err(refusal) => {
                    &&& unserved(self.deep_view(), method, segments.deep_view())
                    &&& refusal@ == FailureModel::NotFound
                },
            },
    {
        let mut i: usize = 0;
        while i < self.routes.len()
            invariant
                i <= self.routes.len(),
                forall|j: int|
                    0 <= j < i ==> !(#[trigger] self.deep_view()[j]).matches(
                        method,
                        segments.deep_view(),
                    ),
            decreases self.routes.len() - i,
        {
            if self.routes[i].matches(method, segments) {
                let params = self.routes[i].captures(segments);
                return Ok(Matched { route: i, handler: self.routes[i].handler, params });
            }
            i += 1;
        }
        Err(Failure::NotFound)
    }
}

} // verus!
