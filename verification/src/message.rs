use vstd::prelude::*;
use vstd::string::StringSliceAdditionalSpecFns;
use vstd::string::StrSliceExecFns;

verus! {

/// The HTTP methods a route can be registered for and a request can carry.
#[derive(Clone, Copy, PartialEq, Eq, Structural, Debug)]
pub enum HttpMethod {
    Get,
    Post,
    Put,
    Delete,
    Head,
    Options,
    Patch,
    Trace,
    Connect,
}

/// Headers are association lists from name to value. A well-formed list has
/// no repeated names, so it denotes a mapping.
pub open spec fn headers_wf(h: Seq<(String, String)>) -> bool {
    forall|i: int, j: int| 0 <= i < j < h.len() ==> h[i].0@ != h[j].0@
}

/// The value stored under name `k`: the value of the first pair named `k`,
/// or `None` when no pair is.
pub open spec fn spec_lookup(h: Seq<(String, String)>, k: Seq<char>) -> Option<Seq<char>>
    decreases h.len(),
{
    if h.len() == 0 {
        None
    } else if h[0].0@ == k {
        Some(h[0].1@)
    } else {
        spec_lookup(h.drop_first(), k)
    }
}

/// Appending a pair only fills in a name that was absent before.
pub proof fn lemma_lookup_push(h: Seq<(String, String)>, p: (String, String), k: Seq<char>)
    ensures
        spec_lookup(h.push(p), k) == (if spec_lookup(h, k) is Some {
            spec_lookup(h, k)
        } else if p.0@ == k {
            Some(p.1@)
        } else {
            None::<Seq<char>>
        }),
    decreases h.len(),
{
    if h.len() == 0 {
        assert(h.push(p)[0] == p);
        assert(h.push(p).drop_first() =~= h);
        assert(spec_lookup(h, k) is None);
    } else {
        assert(h.push(p)[0] == h[0]);
        assert(h.push(p).drop_first() =~= h.drop_first().push(p));
        lemma_lookup_push(h.drop_first(), p, k);
    }
}

/// Replacing the first pair named `h[i].0@` by a pair with an equal name
/// changes the lookup of that name to the new value and no other lookup.
pub proof fn lemma_lookup_replace(
    h: Seq<(String, String)>,
    i: int,
    p: (String, String),
    k2: Seq<char>,
)
    requires
        0 <= i < h.len(),
        p.0@ == h[i].0@,
        forall|j: int| 0 <= j < i ==> h[j].0@ != h[i].0@,
    ensures
        spec_lookup(h.update(i, p), k2) == (if k2 == h[i].0@ {
            Some(p.1@)
        } else {
            spec_lookup(h, k2)
        }),
    decreases h.len(),
{
    let hu = h.update(i, p);
    if i == 0 {
        assert(hu[0] == p);
        assert(hu.drop_first() =~= h.drop_first());
    } else {
        assert(hu[0] == h[0]);
        assert(hu.drop_first() =~= h.drop_first().update(i - 1, p));
        assert(h.drop_first()[i - 1] == h[i]);
        assert forall|j: int| 0 <= j < i - 1 implies (#[trigger] h.drop_first()[j]).0@
            != h.drop_first()[i - 1].0@ by {
            assert(h.drop_first()[j] == h[j + 1]);
        }
        lemma_lookup_replace(h.drop_first(), i - 1, p, k2);
    }
}

/// A name is found exactly when some pair carries it.
pub proof fn lemma_lookup_some_iff(h: Seq<(String, String)>, k: Seq<char>)
    ensures
        spec_lookup(h, k) is Some <==> exists|i: int| 0 <= i < h.len() && h[i].0@ == k,
    decreases h.len(),
{
    if h.len() > 0 {
        lemma_lookup_some_iff(h.drop_first(), k);
        if h[0].0@ != k && spec_lookup(h.drop_first(), k) is Some {
            let i = choose|i: int|
                0 <= i < h.drop_first().len() && h.drop_first()[i].0@ == k;
            assert(h[i + 1].0@ == k);
        }
        if exists|i: int| 0 <= i < h.len() && h[i].0@ == k {
            let i = choose|i: int| 0 <= i < h.len() && h[i].0@ == k;
            if h[0].0@ != k {
                assert(h.drop_first()[i - 1].0@ == k);
            }
        }
    }
}

/// Store `value` under `key`: the first pair already named `key` has its
/// value replaced (a well-formed list has at most one), else a new pair is
/// appended. Mirrors map insertion with last-write-wins.
pub fn insert_header(headers: &mut Vec<(String, String)>, key: String, value: String)
    ensures
        spec_lookup(final(headers)@, key@) == Some(value@),
        forall|k2: Seq<char>| k2 != key@ ==> spec_lookup(final(headers)@, k2) == spec_lookup(
            old(headers)@,
            k2,
        ),
        headers_wf(old(headers)@) ==> headers_wf(final(headers)@),
        old(headers)@.len() <= final(headers)@.len() <= old(headers)@.len() + 1,
{
    let ghost orig = headers@;
    let n = headers.len();
    let mut i: usize = 0;
    while i < n
        invariant
            orig == old(headers)@,
            n == headers@.len(),
            headers@ == orig,
            0 <= i <= n,
            forall|j: int| 0 <= j < i ==> headers@[j].0@ != key@,
        decreases n - i,
    {
        if headers[i].0.eq(&key) {
            let _replaced = headers.remove(i);
            headers.insert(i, (key, value));
            proof {
                assert(headers@ =~= orig.update(i as int, (key, value)));
                assert forall|k2: Seq<char>| true implies spec_lookup(headers@, k2) == (if k2
                    == orig[i as int].0@ {
                    Some(value@)
                } else {
                    spec_lookup(orig, k2)
                }) by {
                    lemma_lookup_replace(orig, i as int, (key, value), k2);
                }
                if headers_wf(orig) {
                    assert forall|a: int, b: int| 0 <= a < b < headers@.len() implies headers@[a].0@
                        != headers@[b].0@ by {
                        assert(orig[a].0@ != orig[b].0@);
                    }
                }
            }
            return ;
        }
        i += 1;
    }
    headers.push((key, value));
    proof {
        assert forall|k2: Seq<char>| true implies spec_lookup(headers@, k2) == (if spec_lookup(
            orig,
            k2,
        ) is Some {
            spec_lookup(orig, k2)
        } else if k2 == key@ {
            Some(value@)
        } else {
            None::<Seq<char>>
        }) by {
            lemma_lookup_push(orig, (key, value), k2);
        }
        lemma_lookup_some_iff(orig, key@);
        if headers_wf(orig) {
            assert forall|a: int, b: int| 0 <= a < b < headers@.len() implies headers@[a].0@
                != headers@[b].0@ by {
                if b < orig.len() {
                    assert(orig[a].0@ != orig[b].0@);
                } else {
                    assert(headers@[b] == (key, value));
                    assert(orig[a].0@ != key@);
                }
            }
        }
    }
}

/// A response payload: raw bytes tagged with a content type.
pub struct Body {
    pub content_type: String,
    pub content: Vec<u8>,
}

impl Default for Body {
    /// An empty `text/plain` body.
    fn default() -> (r: Self)
        ensures
            r.content_type@ == "text/plain"@,
            r.content@ == Seq::<u8>::empty(),
    {
        Body { content_type: "text/plain".to_owned(), content: Vec::new() }
    }
}

impl Body {
    /// A body with the given content type and raw bytes.
    pub fn new(content_type: &str, content: Vec<u8>) -> (r: Self)
        ensures
            r.content_type@ == content_type@,
            r.content@ == content@,
    {
        Body { content_type: content_type.to_owned(), content }
    }

    /// A `text/html` body holding the bytes of `content`.
    pub fn html(content: &str) -> (r: Self)
        ensures
            r.content_type@ == "text/html"@,
            r.content@ == content.spec_bytes(),
    {
        Body::new("text/html", content.as_bytes_vec())
    }

    /// An `application/json` body holding the bytes of `content`.
    pub fn json(content: &str) -> (r: Self)
        ensures
            r.content_type@ == "application/json"@,
            r.content@ == content.spec_bytes(),
    {
        Body::new("application/json", content.as_bytes_vec())
    }

    /// A `text/plain` body holding the bytes of `content`.
    pub fn text(content: &str) -> (r: Self)
        ensures
            r.content_type@ == "text/plain"@,
            r.content@ == content.spec_bytes(),
    {
        Body::new("text/plain", content.as_bytes_vec())
    }
}

/// A transport-independent request: method, the request path, and headers.
/// The transport layer fills `path` with the path component of the request's
/// URI; routes are matched against it as an opaque string.
pub struct HttpServerRequest {
    pub method: HttpMethod,
    pub path: String,
    pub headers: Vec<(String, String)>,
}

/// A transport-independent response: numeric status, headers, and an
/// optional body.
pub struct HttpServerResponse {
    pub status: u16,
    pub headers: Vec<(String, String)>,
    pub body: Option<Body>,
}

impl HttpServerResponse {
    /// A response is well formed when its header names are unique.
    pub open spec fn wf(self) -> bool {
        headers_wf(self.headers@)
    }

    /// Start building a response.
    pub fn builder() -> (r: HttpServerResponseBuilder)
        ensures
            r.spec_default(),
    {
        HttpServerResponseBuilder::new()
    }
}

/// Builds a response field by field; every field has a default.
pub struct HttpServerResponseBuilder {
    pub status: Option<u16>,
    pub headers: Vec<(String, String)>,
    pub body: Option<Body>,
}

impl HttpServerResponseBuilder {
    /// The state of a fresh builder: status 200, no headers, no body.
    pub open spec fn spec_default(self) -> bool {
        &&& self.status == Some(200u16)
        &&& self.headers@.len() == 0
        &&& self.body is None
    }

    /// The response that `build` makes out of this builder: the status (200
    /// when unset), the headers, and the body as they stand.
    pub open spec fn spec_build(self, r: HttpServerResponse) -> bool {
        &&& r.status == (match self.status {
            Some(s) => s,
            None => 200u16,
        })
        &&& r.headers == self.headers
        &&& r.body == self.body
    }

    pub fn new() -> (r: Self)
        ensures
            r.spec_default(),
    {
        HttpServerResponseBuilder { status: Some(200), headers: Vec::new(), body: None }
    }

    /// Set the status code.
    pub fn status(self, status: u16) -> (r: Self)
        ensures
            r.status == Some(status),
            r.headers == self.headers,
            r.body == self.body,
    {
        let mut b = self;
        b.status = Some(status);
        b
    }

    /// Set header `key` to `value`, replacing an earlier value under the
    /// same name.
    pub fn header(self, key: &str, value: &str) -> (r: Self)
        ensures
            spec_lookup(r.headers@, key@) == Some(value@),
            forall|k2: Seq<char>| k2 != key@ ==> spec_lookup(r.headers@, k2) == spec_lookup(
                self.headers@,
                k2,
            ),
            headers_wf(self.headers@) ==> headers_wf(r.headers@),
            r.status == self.status,
            r.body == self.body,
    {
        let mut b = self;
        insert_header(&mut b.headers, key.to_owned(), value.to_owned());
        b
    }

    /// Set the body.
    pub fn body(self, body: Body) -> (r: Self)
        ensures
            r.body == Some(body),
            r.status == self.status,
            r.headers == self.headers,
    {
        let mut b = self;
        b.body = Some(body);
        b
    }

    /// Assemble the response; an unset status falls back to 200.
    pub fn build(self) -> (r: HttpServerResponse)
        ensures
            self.spec_build(r),
    {
        let status = match self.status {
            Some(s) => s,
            None => 200,
        };
        HttpServerResponse { status, headers: self.headers, body: self.body }
    }
}

/// The wire form of a response: numeric status, the final header list, and
/// the raw body bytes.
pub struct WireResponse {
    pub status: u16,
    pub headers: Vec<(String, String)>,
    pub body: Vec<u8>,
}

/// What looking up header `k` in the wire form of `resp` yields: the body's
/// content type wins for `content-type`, then the response's own headers,
/// then the fixed server identification header.
pub open spec fn spec_wire_lookup(resp: HttpServerResponse, k: Seq<char>) -> Option<Seq<char>> {
    if resp.body is Some && k == "content-type"@ {
        Some(resp.body->0.content_type@)
    } else if spec_lookup(resp.headers@, k) is Some {
        spec_lookup(resp.headers@, k)
    } else if k == "server"@ {
        Some("teapot/0.1"@)
    } else {
        None
    }
}

/// How a wire response relates to the response it was made from: same
/// status, the body's bytes (empty without a body), and headers that read
/// as `spec_wire_lookup` says.
pub open spec fn wire_of(resp: HttpServerResponse, w: WireResponse) -> bool {
    &&& w.status == resp.status
    &&& w.body@ == (match resp.body {
        Some(b) => b.content@,
        None => Seq::<u8>::empty(),
    })
    &&& headers_wf(w.headers@)
    &&& forall|k: Seq<char>| #[trigger] spec_lookup(w.headers@, k) == spec_wire_lookup(resp, k)
}

impl HttpServerResponse {
    /// Convert to wire form: the fixed server identification header comes
    /// first, then the response's own headers (which overwrite it on a name
    /// collision, last write wins), then the body's content type.
    pub fn into_wire(self) -> (w: WireResponse)
        ensures
            w.status == self.status,
            w.body@ == (match self.body {
                Some(b) => b.content@,
                None => Seq::<u8>::empty(),
            }),
            headers_wf(w.headers@),
            self.wf() ==> wire_of(self, w),
    {
        let HttpServerResponse { status, headers: custom, body } = self;
        let mut wire: Vec<(String, String)> = Vec::new();
        wire.push(("server".to_owned(), "teapot/0.1".to_owned()));
        proof {
            assert(headers_wf(wire@));
            assert forall|k: Seq<char>| true implies #[trigger] spec_lookup(wire@, k) == (if k
                == "server"@ {
                Some("teapot/0.1"@)
            } else {
                None::<Seq<char>>
            }) by {
                lemma_lookup_push(Seq::<(String, String)>::empty(), wire@[0], k);
                assert(Seq::<(String, String)>::empty().push(wire@[0]) =~= wire@);
                assert(spec_lookup(Seq::<(String, String)>::empty(), k) is None);
            }
        }
        let n = custom.len();
        let mut i: usize = 0;
        while i < n
            invariant
                n == custom@.len(),
                custom@ == self.headers@,
                0 <= i <= n,
                headers_wf(wire@),
                headers_wf(custom@) ==> forall|k: Seq<char>| #[trigger] spec_lookup(wire@, k) == (
                if spec_lookup(custom@.take(i as int), k) is Some {
                    spec_lookup(custom@.take(i as int), k)
                } else if k == "server"@ {
                    Some("teapot/0.1"@)
                } else {
                    None::<Seq<char>>
                }),
            decreases n - i,
        {
            let key = custom[i].0.clone();
            let value = custom[i].1.clone();
            insert_header(&mut wire, key, value);
            proof {
                if headers_wf(custom@) {
                    assert forall|k: Seq<char>| true implies #[trigger] spec_lookup(wire@, k) == (
                    if spec_lookup(custom@.take(i + 1 as int), k) is Some {
                        spec_lookup(custom@.take(i + 1 as int), k)
                    } else if k == "server"@ {
                        Some("teapot/0.1"@)
                    } else {
                        None::<Seq<char>>
                    }) by {
                        assert(custom@.take(i + 1 as int) =~= custom@.take(i as int).push(
                            custom@[i as int],
                        ));
                        lemma_lookup_push(custom@.take(i as int), custom@[i as int], k);
                        if k == custom@[i as int].0@ {
                            lemma_lookup_take_absent(custom@, i as int);
                        }
                    }
                }
            }
            i += 1;
        }
        proof {
            assert(custom@.take(n as int) =~= custom@);
        }
        match body {
            Some(b) => {
                insert_header(&mut wire, "content-type".to_owned(), b.content_type);
                WireResponse { status, headers: wire, body: b.content }
            },
            None => WireResponse { status, headers: wire, body: Vec::new() },
        }
    }
}

/// In a well-formed list, the name of pair `i` is not found among the first
/// `i` pairs.
pub proof fn lemma_lookup_take_absent(h: Seq<(String, String)>, i: int)
    requires
        0 <= i < h.len(),
        headers_wf(h),
    ensures
        spec_lookup(h.take(i), h[i].0@) is None,
{
    lemma_lookup_some_iff(h.take(i), h[i].0@);
    assert forall|j: int| 0 <= j < i implies (#[trigger] h.take(i)[j]).0@ != h[i].0@ by {
        assert(h.take(i)[j] == h[j]);
    }
}

/// Law: converting a well-formed response whose body carries the
/// `application/json` content type to wire form keeps the body bytes
/// unchanged and leaves `content-type: application/json` readable in the
/// wire headers.
pub proof fn lemma_json_round_trip(resp: HttpServerResponse, w: WireResponse)
    requires
        resp.wf(),
        resp.body matches Some(b) && b.content_type@ == "application/json"@,
        wire_of(resp, w),
    ensures
        w.body@ == resp.body->0.content@,
        spec_lookup(w.headers@, "content-type"@) == Some("application/json"@),
{
    assert(spec_lookup(w.headers@, "content-type"@) == spec_wire_lookup(resp, "content-type"@));
}

/// Law: an unconfigured builder builds a response with status 200, no
/// headers and no body.
pub proof fn lemma_default_build(b: HttpServerResponseBuilder, r: HttpServerResponse)
    requires
        b.spec_default(),
        b.spec_build(r),
    ensures
        r.status == 200,
        r.headers@.len() == 0,
        r.body is None,
{
}

} // verus!
