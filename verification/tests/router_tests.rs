use teapot::message::{Body, HttpMethod, HttpServerRequest, HttpServerResponse};
use teapot::router::{HttpRouteBuilder, Route, RouteBuilder, RouteHandler, Router};
use teapot::server::not_found_response;

struct CounterHandler {
    count: u64,
}

impl RouteHandler for CounterHandler {
    fn next_state(self, _request: HttpServerRequest) -> Self {
        CounterHandler { count: self.count + 1 }
    }

    fn response(self, _request: HttpServerRequest) -> HttpServerResponse {
        HttpServerResponse::builder()
            .status(418)
            .body(Body::text(&format!("Serving cup number {}", self.count + 1)))
            .build()
    }

    fn on_request(&mut self, _request: &HttpServerRequest) -> HttpServerResponse {
        self.count += 1;
        HttpServerResponse::builder()
            .status(418)
            .body(Body::text(&format!("Serving cup number {}", self.count)))
            .build()
    }
}

struct TaggedHandler {
    tag: &'static str,
}

impl RouteHandler for TaggedHandler {
    fn next_state(self, _request: HttpServerRequest) -> Self {
        self
    }

    fn response(self, _request: HttpServerRequest) -> HttpServerResponse {
        HttpServerResponse::builder().body(Body::text(self.tag)).build()
    }

    fn on_request(&mut self, _request: &HttpServerRequest) -> HttpServerResponse {
        HttpServerResponse::builder().body(Body::text(self.tag)).build()
    }
}

fn get_request(path: &str) -> HttpServerRequest {
    HttpServerRequest { method: HttpMethod::Get, path: path.to_owned(), headers: Vec::new() }
}

fn body_string(r: &HttpServerResponse) -> String {
    let body = r.body.as_ref().expect("response has a body");
    String::from_utf8(body.content.clone()).expect("body is UTF-8")
}

#[test]
fn build_without_path_fails() {
    let r = RouteBuilder::http::<CounterHandler>().build();
    assert_eq!(r.err(), Some("Path is required".to_owned()));
}

#[test]
fn build_with_only_handler_fails_on_path_first() {
    let r = RouteBuilder::http().handler(CounterHandler { count: 0 }).build();
    assert_eq!(r.err(), Some("Path is required".to_owned()));
}

#[test]
fn build_without_method_fails() {
    let b = HttpRouteBuilder::<CounterHandler> {
        path: Some("/teapot".to_owned()),
        method: None,
        handler: Some(CounterHandler { count: 0 }),
    };
    assert_eq!(b.build().err(), Some("Method is required".to_owned()));
}

#[test]
fn build_without_handler_fails() {
    let r = RouteBuilder::http::<CounterHandler>().get("/teapot").build();
    assert_eq!(r.err(), Some("Handler is required".to_owned()));
}

#[test]
fn build_with_all_fields_succeeds() {
    let r = RouteBuilder::http().get("/teapot").handler(CounterHandler { count: 0 }).build();
    let Route::Http { path, method, handler } = r.expect("complete builder succeeds");
    assert_eq!(path, "/teapot");
    assert_eq!(method, HttpMethod::Get);
    assert_eq!(handler.count, 0);
}

#[test]
fn later_selector_call_overwrites_path_and_method() {
    let r = RouteBuilder::http()
        .get("/a")
        .post("/b")
        .handler(CounterHandler { count: 0 })
        .build();
    let Route::Http { path, method, .. } = r.unwrap();
    assert_eq!(path, "/b");
    assert_eq!(method, HttpMethod::Post);
}

#[test]
fn selectors_set_their_methods() {
    for (route, want) in [
        (RouteBuilder::http::<CounterHandler>().get("/x"), HttpMethod::Get),
        (RouteBuilder::http::<CounterHandler>().post("/x"), HttpMethod::Post),
        (RouteBuilder::http::<CounterHandler>().put("/x"), HttpMethod::Put),
        (RouteBuilder::http::<CounterHandler>().delete("/x"), HttpMethod::Delete),
    ] {
        assert_eq!(route.method, Some(want));
    }
}

#[test]
fn find_route_returns_handler_output_unmodified() {
    let mut router = Router { routes: Vec::new() };
    router.routes.push(
        RouteBuilder::http().get("/teapot").handler(CounterHandler { count: 41 }).build().unwrap(),
    );
    let r = router.find_route(&get_request("/teapot")).expect("route matches");
    assert_eq!(r.status, 418);
    assert_eq!(body_string(&r), "Serving cup number 42");
}

#[test]
fn find_route_without_match_returns_none() {
    let mut router: Router<CounterHandler> = Router::new();
    assert!(router.find_route(&get_request("/teapot")).is_none());
}

#[test]
fn find_route_matches_method_exactly() {
    let mut router = Router { routes: Vec::new() };
    router.routes.push(
        RouteBuilder::http().post("/teapot").handler(CounterHandler { count: 0 }).build().unwrap(),
    );
    assert!(router.find_route(&get_request("/teapot")).is_none());
}

#[test]
fn find_route_matches_path_exactly() {
    let mut router = Router { routes: Vec::new() };
    router.routes.push(
        RouteBuilder::http().get("/teapot").handler(CounterHandler { count: 0 }).build().unwrap(),
    );
    assert!(router.find_route(&get_request("/teapot/")).is_none());
    assert!(router.find_route(&get_request("/Teapot")).is_none());
}

#[test]
fn first_registered_route_wins() {
    let mut router = Router { routes: Vec::new() };
    router.routes.push(
        RouteBuilder::http().get("/x").handler(TaggedHandler { tag: "first" }).build().unwrap(),
    );
    router.routes.push(
        RouteBuilder::http().get("/x").handler(TaggedHandler { tag: "second" }).build().unwrap(),
    );
    for _ in 0..3 {
        let r = router.find_route(&get_request("/x")).unwrap();
        assert_eq!(body_string(&r), "first");
    }
}

#[test]
fn handle_request_falls_back_to_404() {
    let mut router: Router<CounterHandler> = Router::new();
    let r = router.handle_request(&get_request("/missing"));
    assert_eq!(r.status, 404);
    assert_eq!(body_string(&r), "Route not found");
    assert!(r.headers.is_empty());
}

#[test]
fn not_found_response_shape() {
    let r = not_found_response();
    assert_eq!(r.status, 404);
    assert_eq!(r.body.as_ref().unwrap().content_type, "text/plain");
    assert_eq!(body_string(&r), "Route not found");
}

#[test]
fn teapot_scenario() {
    let mut router = Router { routes: Vec::new() };
    router.routes.push(
        RouteBuilder::http().get("/teapot").handler(CounterHandler { count: 0 }).build().unwrap(),
    );

    let first = router.handle_request(&get_request("/teapot"));
    assert_eq!(first.status, 418);
    assert_eq!(body_string(&first), "Serving cup number 1");

    let second = router.handle_request(&get_request("/teapot"));
    assert_eq!(second.status, 418);
    assert_eq!(body_string(&second), "Serving cup number 2");

    let other = router.handle_request(&get_request("/other"));
    assert_eq!(other.status, 404);
    assert_eq!(body_string(&other), "Route not found");
}

#[test]
fn handler_state_is_updated_in_place() {
    let mut router = Router { routes: Vec::new() };
    router.routes.push(
        RouteBuilder::http().get("/teapot").handler(CounterHandler { count: 0 }).build().unwrap(),
    );
    for _ in 0..100 {
        router.handle_request(&get_request("/teapot"));
    }
    let Route::Http { handler, .. } = &router.routes[0];
    assert_eq!(handler.count, 100);
}

#[test]
fn match_route_returns_first_matching_index() {
    let mut router = Router { routes: Vec::new() };
    router.routes.push(
        RouteBuilder::http().get("/x").handler(TaggedHandler { tag: "a" }).build().unwrap(),
    );
    router.routes.push(
        RouteBuilder::http().post("/x").handler(TaggedHandler { tag: "b" }).build().unwrap(),
    );
    router.routes.push(
        RouteBuilder::http().get("/x").handler(TaggedHandler { tag: "c" }).build().unwrap(),
    );
    assert_eq!(router.match_route(&"/x".to_owned(), HttpMethod::Get), Some(0));
    assert_eq!(router.match_route(&"/x".to_owned(), HttpMethod::Post), Some(1));
    assert_eq!(router.match_route(&"/y".to_owned(), HttpMethod::Get), None);
}
