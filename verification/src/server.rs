use vstd::prelude::*;
use vstd::string::StringSliceAdditionalSpecFns;

use crate::message::{HttpServerRequest, HttpServerResponse, HttpServerResponseBuilder, Body};
use crate::router::{Route, RouteHandler, Router};

verus! {

/// The fixed response for a request that matches no route: status 404 with
/// a plain-text body `Route not found` and no further headers.
pub open spec fn is_not_found(r: HttpServerResponse) -> bool {
    &&& r.status == 404
    &&& r.headers@.len() == 0
    &&& r.body matches Some(b) && b.content_type@ == "text/plain"@ && b.content@
        == "Route not found".spec_bytes()
}

/// Build the fixed 404 response.
pub fn not_found_response() -> (r: HttpServerResponse)
    ensures
        is_not_found(r),
        r.wf(),
{
    HttpServerResponseBuilder::new().status(404).body(Body::text("Route not found")).build()
}

impl<H: RouteHandler> Router<H> {
    /// Serve one request: the first route registered for exactly the
    /// request's `(path, method)` produces the response; when no route
    /// matches, the fixed 404 response is synthesized and nothing changes.
    /// The response is always well formed.
    pub fn handle_request(&mut self, request: &HttpServerRequest) -> (r: HttpServerResponse)
        ensures
            r.wf(),
            match old(self).spec_match(request.path@, request.method) {
                None => is_not_found(r) && *final(self) == *old(self),
                Some(m) => {
                    &&& r == (old(self).routes@[m]->handler).response(*request)
                    &&& final(self).routes@ =~= old(self).routes@.update(
                        m,
                        Route::Http {
                            path: old(self).routes@[m]->path,
                            method: old(self).routes@[m]->method,
                            handler: (old(self).routes@[m]->handler).next_state(*request),
                        },
                    )
                },
            },
    {
        match self.find_route(request) {
            Some(response) => response,
            None => not_found_response(),
        }
    }
}

/// A configured server: where to listen, and the routes to serve.
pub struct HttpServer<H> {
    pub address: String,
    pub port: u16,
    pub router: Router<H>,
}

impl<H: RouteHandler> HttpServer<H> {
    /// A server with the default address `127.0.0.1`, port 80 and no routes.
    pub fn new() -> (r: Self)
        ensures
            r.address@ == "127.0.0.1"@,
            r.port == 80,
            r.router.routes@.len() == 0,
    {
        HttpServer { address: "127.0.0.1".to_owned(), port: 80, router: Router::new() }
    }

    /// Start configuring a server.
    pub fn builder() -> (r: HttpServerBuilder<H>)
        ensures
            r.spec_default(),
    {
        HttpServerBuilder::default()
    }
}

/// Collects a server configuration: bind address, port, and routes.
pub struct HttpServerBuilder<H> {
    pub address: String,
    pub port: u16,
    pub routes: Vec<Route<H>>,
}

impl<H: RouteHandler> HttpServerBuilder<H> {
    /// The state of a fresh builder: address `127.0.0.1`, port 80, no routes.
    pub open spec fn spec_default(self) -> bool {
        &&& self.address@ == "127.0.0.1"@
        &&& self.port == 80
        &&& self.routes@.len() == 0
    }
}

impl<H: RouteHandler> Default for HttpServerBuilder<H> {
    fn default() -> (r: Self)
        ensures
            r.spec_default(),
    {
        HttpServerBuilder { address: "127.0.0.1".to_owned(), port: 80, routes: Vec::new() }
    }
}

impl<H: RouteHandler> HttpServerBuilder<H> {
    /// Set the port to listen on.
    pub fn port(&mut self, port: u16) -> (r: &mut Self)
        ensures
            (*r).port == port,
            (*r).address == old(self).address,
            (*r).routes == old(self).routes,
            *final(self) == *final(r),
    {
        self.port = port;
        self
    }

    /// Set the address to listen on.
    pub fn address(&mut self, address: &str) -> (r: &mut Self)
        ensures
            (*r).address@ == address@,
            (*r).port == old(self).port,
            (*r).routes == old(self).routes,
            *final(self) == *final(r),
    {
        self.address = address.to_owned();
        self
    }

    /// Register a route; it is appended, so it yields to every route
    /// registered before it.
    pub fn route(&mut self, route: Route<H>) -> (r: &mut Self)
        ensures
            (*r).routes@ == old(self).routes@.push(route),
            (*r).address == old(self).address,
            (*r).port == old(self).port,
            *final(self) == *final(r),
    {
        self.routes.push(route);
        self
    }

    /// Snapshot the configuration into a server.
    pub fn build(self) -> (r: HttpServer<H>)
        ensures
            r.address == self.address,
            r.port == self.port,
            r.router.routes == self.routes,
    {
        HttpServer {
            address: self.address,
            port: self.port,
            router: Router { routes: self.routes },
        }
    }
}

} // verus!
