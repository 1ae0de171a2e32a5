use vstd::prelude::*;

use crate::message::{HttpMethod, HttpServerRequest, HttpServerResponse};

verus! {

/// User-supplied request handling logic with mutable internal state. Only
/// one call runs on a given handler at a time: `on_request` takes the
/// handler exclusively.
///
/// The two spec functions abstract an implementation: serving a request in
/// state `self` must return exactly `response` and move the handler to
/// `next_state`, so a handler behaves as a function of its state and the
/// request.
pub trait RouteHandler: Sized {
    /// The handler's state after serving `request` in state `self`.
    spec fn next_state(self, request: HttpServerRequest) -> Self;

    /// The response the handler gives to `request` in state `self`.
    spec fn response(self, request: HttpServerRequest) -> HttpServerResponse;

    /// Serve one request, mutating the handler's state. The response must be
    /// well formed (unique header names).
    fn on_request(&mut self, request: &HttpServerRequest) -> (r: HttpServerResponse)
        ensures
            *final(self) == old(self).next_state(*request),
            r == old(self).response(*request),
            r.wf(),
    ;
}

/// A registered route; HTTP routes are the one kind so far.
pub enum Route<H> {
    Http { path: String, method: HttpMethod, handler: H },
}

impl<H> Route<H> {
    /// Whether the route is for exactly this path and method.
    pub open spec fn spec_matches(self, path: Seq<char>, method: HttpMethod) -> bool {
        (self->path)@ == path && self->method == method
    }
}

/// An ordered route table; on a request the first matching route wins.
pub struct Router<H> {
    pub routes: Vec<Route<H>>,
}

impl<H> Router<H> {
    /// Index of the first route at or after `i` that matches `(path, method)`.
    pub open spec fn spec_match_from(
        routes: Seq<Route<H>>,
        path: Seq<char>,
        method: HttpMethod,
        i: int,
    ) -> Option<int>
        decreases routes.len() - i,
    {
        if i < 0 || i >= routes.len() {
            None
        } else if routes[i].spec_matches(path, method) {
            Some(i)
        } else {
            Self::spec_match_from(routes, path, method, i + 1)
        }
    }

    /// Index of the first route that matches `(path, method)`.
    pub open spec fn spec_match(self, path: Seq<char>, method: HttpMethod) -> Option<int> {
        Self::spec_match_from(self.routes@, path, method, 0)
    }

    /// The scan from `i` yields the first matching index at or after `i`:
    /// it matches, everything before it does not, and a `None` means nothing
    /// at or after `i` matches.
    pub proof fn lemma_match_from_first(
        routes: Seq<Route<H>>,
        path: Seq<char>,
        method: HttpMethod,
        i: int,
    )
        requires
            0 <= i <= routes.len(),
        ensures
            match Self::spec_match_from(routes, path, method, i) {
                Some(m) => i <= m < routes.len() && routes[m].spec_matches(path, method) && (
                forall|j: int| i <= j < m ==> !(#[trigger] routes[j]).spec_matches(path, method)),
                None => forall|j: int|
                    i <= j < routes.len() ==> !(#[trigger] routes[j]).spec_matches(path, method),
            },
        decreases routes.len() - i,
    {
        if i < routes.len() && !routes[i].spec_matches(path, method) {
            Self::lemma_match_from_first(routes, path, method, i + 1);
        }
    }

    /// Law: route matching is order-sensitive. When two routes both match,
    /// only the earlier one is ever selected.
    pub proof fn lemma_first_match_wins(
        self,
        path: Seq<char>,
        method: HttpMethod,
        i: int,
        j: int,
    )
        requires
            0 <= i < j < self.routes@.len(),
            self.routes@[i].spec_matches(path, method),
            self.routes@[j].spec_matches(path, method),
        ensures
            self.spec_match(path, method) matches Some(m) && m <= i,
    {
        Self::lemma_match_from_first(self.routes@, path, method, 0);
    }
}

impl<H: RouteHandler> Router<H> {
    /// An empty route table.
    pub fn new() -> (r: Self)
        ensures
            r.routes@.len() == 0,
    {
        Router { routes: Vec::new() }
    }

    /// Append a route to a router taken by value; the router, and with it
    /// the addition, is gone once the call returns.
    pub fn add_route(self, route: Route<H>) {
        let mut table = self;
        table.routes.push(route);
    }

    /// Index of the first route registered for exactly `(path, method)`.
    pub fn match_route(&self, path: &String, method: HttpMethod) -> (r: Option<usize>)
        ensures
            match self.spec_match(path@, method) {
                Some(m) => r matches Some(u) && u as int == m,
                None => r is None,
            },
    {
        let n = self.routes.len();
        let mut i: usize = 0;
        while i < n
            invariant
                n == self.routes@.len(),
                0 <= i <= n,
                Self::spec_match_from(self.routes@, path@, method, 0) == Self::spec_match_from(
                    self.routes@,
                    path@,
                    method,
                    i as int,
                ),
            decreases n - i,
        {
            match &self.routes[i] {
                Route::Http { path: rpath, method: rmethod, .. } => {
                    if rpath.eq(path) && *rmethod == method {
                        return Some(i);
                    }
                },
            }
            i += 1;
        }
        None
    }

    /// Scan the routes in registration order; the first route registered for
    /// exactly this request's `(path, method)` serves it, and its response
    /// is returned unmodified. Without a match, nothing is called and
    /// nothing changes.
    pub fn find_route(&mut self, request: &HttpServerRequest) -> (r: Option<HttpServerResponse>)
        ensures
            match old(self).spec_match(request.path@, request.method) {
                None => r is None && *final(self) == *old(self),
                Some(m) => {
                    &&& r == Some((old(self).routes@[m]->handler).response(*request))
                    &&& (r->0).wf()
                    &&& final(self).routes@ =~= old(self).routes@.update(
                        m,
                        Route::Http {
                            path: old(self).routes@[m]->path,
                            method: old(self).routes@[m]->method,
                            handler: (old(self).routes@[m]->handler).next_state(*request),
                        },
                    )
                },
            },
    {
        let found = self.match_route(&request.path, request.method);
        match found {
            None => None,
            Some(i) => {
                proof {
                    Self::lemma_match_from_first(self.routes@, request.path@, request.method, 0);
                    assert(old(self).spec_match(request.path@, request.method) == Some(i as int));
                }
                let ghost orig = self.routes@;
                let route = self.routes.remove(i);
                let (path, method, mut handler) = match route {
                    Route::Http { path, method, handler } => (path, method, handler),
                };
                let response = handler.on_request(request);
                self.routes.insert(i, Route::Http { path, method, handler });
                proof {
                    assert(self.routes@ =~= orig.update(
                        i as int,
                        Route::Http {
                            path: orig[i as int]->path,
                            method: orig[i as int]->method,
                            handler: (orig[i as int]->handler).next_state(*request),
                        },
                    ));
                }
                Some(response)
            },
        }
    }
}

/// Picks the kind of route to build.
pub struct RouteBuilder;

impl RouteBuilder {
    /// Start building an HTTP route.
    pub fn http<H: RouteHandler>() -> (r: HttpRouteBuilder<H>)
        ensures
            r.path is None,
            r.method is None,
            r.handler is None,
    {
        HttpRouteBuilder::new()
    }
}

/// Assembles an HTTP route; `build` checks that nothing was left unset.
pub struct HttpRouteBuilder<H> {
    pub path: Option<String>,
    pub method: Option<HttpMethod>,
    pub handler: Option<H>,
}

impl<H: RouteHandler> HttpRouteBuilder<H> {
    fn new() -> (r: Self)
        ensures
            r.path is None,
            r.method is None,
            r.handler is None,
    {
        HttpRouteBuilder { path: None, method: None, handler: None }
    }

    /// Route `GET` requests for `path`. Sets path and method together; a
    /// later call to one of these selectors overwrites both.
    pub fn get(self, path: &str) -> (r: Self)
        ensures
            r.path matches Some(p) && p@ == path@,
            r.method == Some(HttpMethod::Get),
            r.handler == self.handler,
    {
        let mut b = self;
        b.path = Some(path.to_owned());
        b.method = Some(HttpMethod::Get);
        b
    }

    /// Route `POST` requests for `path`; otherwise as `get`.
    pub fn post(self, path: &str) -> (r: Self)
        ensures
            r.path matches Some(p) && p@ == path@,
            r.method == Some(HttpMethod::Post),
            r.handler == self.handler,
    {
        let mut b = self;
        b.path = Some(path.to_owned());
        b.method = Some(HttpMethod::Post);
        b
    }

    /// Route `PUT` requests for `path`; otherwise as `get`.
    pub fn put(self, path: &str) -> (r: Self)
        ensures
            r.path matches Some(p) && p@ == path@,
            r.method == Some(HttpMethod::Put),
            r.handler == self.handler,
    {
        let mut b = self;
        b.path = Some(path.to_owned());
        b.method = Some(HttpMethod::Put);
        b
    }

    /// Route `DELETE` requests for `path`; otherwise as `get`.
    pub fn delete(self, path: &str) -> (r: Self)
        ensures
            r.path matches Some(p) && p@ == path@,
            r.method == Some(HttpMethod::Delete),
            r.handler == self.handler,
    {
        let mut b = self;
        b.path = Some(path.to_owned());
        b.method = Some(HttpMethod::Delete);
        b
    }

    /// Attach the dispatch target.
    pub fn handler(self, controller: H) -> (r: Self)
        ensures
            r.handler == Some(controller),
            r.path == self.path,
            r.method == self.method,
    {
        let mut b = self;
        b.handler = Some(controller);
        b
    }

    /// Validate and assemble the route. Fails naming the first unset field,
    /// in the order path, method, handler; succeeds exactly when all three
    /// are set, yielding the route they make up.
    pub fn build(self) -> (r: Result<Route<H>, String>)
        ensures
            match r {
                Ok(route) => {
                    &&& self.path is Some
                    &&& self.method is Some
                    &&& self.handler is Some
                    &&& route == (Route::Http {
                        path: self.path->0,
                        method: self.method->0,
                        handler: self.handler->0,
                    })
                },
                Err(e) => {
                    &&& !(self.path is Some && self.method is Some && self.handler is Some)
                    &&& (self.path is None ==> e@ == "Path is required"@)
                    &&& (self.path is Some && self.method is None ==> e@ == "Method is required"@)
                    &&& (self.path is Some && self.method is Some && self.handler is None ==> e@
                        == "Handler is required"@)
                },
            },
    {
        let HttpRouteBuilder { path, method, handler } = self;
        match (path, method, handler) {
            (None, _, _) => Err("Path is required".to_owned()),
            (Some(_), None, _) => Err("Method is required".to_owned()),
            (Some(_), Some(_), None) => Err("Handler is required".to_owned()),
            (Some(path), Some(method), Some(handler)) => Ok(
                Route::Http { path, method, handler },
            ),
        }
    }
}

} // verus!
