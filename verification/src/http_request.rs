//! An HTTP request builder whose type parameters track what has been set:
//! a payload can only be given to a POST, and each state offers only the
//! steps legal from there.

use vstd::prelude::*;

verus! {

/// The methods a builder can have chosen.
pub trait Method: Sized {

}

/// No method chosen yet.
pub struct NoMethod {}

/// A GET request.
pub struct Get {}

/// A POST request.
pub struct Post {}

impl Method for NoMethod {

}

impl Method for Get {

}

impl Method for Post {

}

/// What the builder carries in its body so far.
pub trait Payload: Sized {
    /// The payload's text, empty until one is set.
    spec fn payload_view(&self) -> Seq<char>;
}

/// No body.
pub struct EmptyPayload {}

/// A body with its text.
pub struct NonEmptyPayload(String);

impl Payload for EmptyPayload {
    open spec fn payload_view(&self) -> Seq<char> {
        Seq::empty()
    }
}

impl Payload for NonEmptyPayload {
    closed spec fn payload_view(&self) -> Seq<char> {
        self.0@
    }
}

/// A finished GET request: headers only.
pub struct HttpGetRequest {
    headers: Vec<(String, String)>,
}

/// A finished POST request: a body and headers.
pub struct HttpPostRequest {
    payload: NonEmptyPayload,
    headers: Vec<(String, String)>,
}

/// The header list as mathematical pairs, in the order first added.
pub open spec fn headers_view(headers: Seq<(String, String)>) -> Seq<(Seq<char>, Seq<char>)> {
    headers.map_values(|h: (String, String)| (h.0@, h.1@))
}

/// Recording a header: a name already present keeps its place and takes
/// the new value; a new name goes to the end.
pub open spec fn record_header(
    headers: Seq<(Seq<char>, Seq<char>)>,
    name: Seq<char>,
    value: Seq<char>,
) -> Seq<(Seq<char>, Seq<char>)>
    decreases headers.len(),
{
    if headers.len() == 0 {
        seq![(name, value)]
    } else if headers.first().0 == name {
        seq![(name, value)] + headers.drop_first()
    } else {
        seq![headers.first()] + record_header(headers.drop_first(), name, value)
    }
}

/// A request under construction; the type parameters say which method was
/// chosen and whether a body exists yet.
pub struct HttpRequestBuilder<M: Method, P: Payload> {
    method: M,
    payload: P,
    headers: Vec<(String, String)>,
}

impl<M: Method, P: Payload> HttpRequestBuilder<M, P> {
    /// The headers added so far, in order.
    pub closed spec fn headers(&self) -> Seq<(Seq<char>, Seq<char>)> {
        headers_view(self.headers@)
    }

    /// The body text carried so far.
    pub closed spec fn payload_text(&self) -> Seq<char> {
        self.payload.payload_view()
    }

    /// Record one header, overwriting the value of a name already present;
    /// available in every state.
    pub fn add_header(self, header: String, value: String) -> (r: Self)
        ensures
            r.headers() == record_header(self.headers(), header@, value@),
            r.payload_text() == self.payload_text(),
    {
        let mut headers = self.headers;
        let ghost pre = headers_view(headers@);
        let j = find_header(&headers, &header);
        if j < headers.len() {
            let ghost old_headers = headers@;
            headers.set(j, (header, value));
            proof {
                let post = headers_view(headers@);
                assert(post =~= pre.update(j as int, (old_headers[j as int].0@, post[j as int].1)));
                assert(post[j as int] == (pre[j as int].0, post[j as int].1));
                lemma_record_header_at_match(pre, j as int, post[j as int].1);
                assert(post =~= record_header(pre, pre[j as int].0, post[j as int].1));
            }
        } else {
            headers.push((header, value));
            proof {
                let post = headers_view(headers@);
                assert(post =~= pre.push((headers@.last().0@, headers@.last().1@)));
                lemma_record_header_fresh(pre, post.last().0, post.last().1);
            }
        }
        HttpRequestBuilder { method: self.method, payload: self.payload, headers }
    }

    /// The number of distinct headers recorded.
    pub fn header_count(&self) -> (n: usize)
        ensures
            n == self.headers().len(),
    {
        self.headers.len()
    }

    /// One recorded header, as owned plain values.
    pub fn header_at(&self, i: usize) -> (r: (String, String))
        requires
            i < self.headers().len(),
        ensures
            (r.0@, r.1@) == self.headers()[i as int],
    {
        (
            crate::non_empty_cart::clone_string(&self.headers[i].0),
            crate::non_empty_cart::clone_string(&self.headers[i].1),
        )
    }
}

impl HttpRequestBuilder<NoMethod, EmptyPayload> {
    /// A builder starts with no method chosen and an empty payload.
    pub fn new() -> (r: HttpRequestBuilder<NoMethod, EmptyPayload>)
        ensures
            r.headers() == Seq::<(Seq<char>, Seq<char>)>::empty(),
            r.payload_text() == Seq::<char>::empty(),
    {
        let r = HttpRequestBuilder {
            method: NoMethod {  },
            payload: EmptyPayload {  },
            headers: Vec::new(),
        };
        proof {
            assert(r.headers() =~= Seq::<(Seq<char>, Seq<char>)>::empty());
        }
        r
    }

    /// Choose GET; a GET never takes a payload.
    pub fn with_get_method(self) -> (r: HttpRequestBuilder<Get, EmptyPayload>)
        ensures
            r.headers() == self.headers(),
            r.payload_text() == self.payload_text(),
    {
        HttpRequestBuilder { method: Get {  }, payload: self.payload, headers: self.headers }
    }

    /// Choose POST; a payload may follow.
    pub fn with_post_method(self) -> (r: HttpRequestBuilder<Post, EmptyPayload>)
        ensures
            r.headers() == self.headers(),
            r.payload_text() == self.payload_text(),
    {
        HttpRequestBuilder { method: Post {  }, payload: self.payload, headers: self.headers }
    }
}

impl HttpRequestBuilder<Post, EmptyPayload> {
    /// Only a POST without a body yet can be given one.
    pub fn with_payload(self, value: String) -> (r: HttpRequestBuilder<Post, NonEmptyPayload>)
        ensures
            r.headers() == self.headers(),
            r.payload_text() == value@,
    {
        HttpRequestBuilder {
            method: self.method,
            payload: NonEmptyPayload(value),
            headers: self.headers,
        }
    }
}

impl<P: Payload> HttpRequestBuilder<Post, P> {
    /// A POST usually names its content type; recorded as a header.
    pub fn with_content_type(self, content_type: String) -> (r: Self)
        ensures
            r.headers() == record_header(self.headers(), "Content-Type"@, content_type@),
            r.payload_text() == self.payload_text(),
    {
        self.add_header(content_type_name(), content_type)
    }
}

/// The position of a header name in the list, or its length when absent.
fn find_header(headers: &Vec<(String, String)>, name: &String) -> (j: usize)
    ensures
        j <= headers@.len(),
        forall|k: int| 0 <= k < j ==> headers_view(headers@)[k].0 != name@,
        j < headers@.len() ==> headers_view(headers@)[j as int].0 == name@,
{
    let mut j: usize = 0;
    while j < headers.len()
        invariant
            j <= headers@.len(),
            forall|k: int| 0 <= k < j ==> headers_view(headers@)[k].0 != name@,
        decreases headers@.len() - j,
    {
        if crate::non_empty_cart::string_eq(&headers[j].0, name) {
            proof {
                assert(headers_view(headers@)[j as int].0 == name@);
            }
            return j;
        }
        j += 1;
    }
    j
}

/// Updating the value at the first position holding a name records that
/// header.
proof fn lemma_record_header_at_match(
    headers: Seq<(Seq<char>, Seq<char>)>,
    j: int,
    value: Seq<char>,
)
    requires
        0 <= j < headers.len(),
        forall|k: int| 0 <= k < j ==> headers[k].0 != headers[j].0,
    ensures
        record_header(headers, headers[j].0, value) == headers.update(j, (headers[j].0, value)),
    decreases headers.len(),
{
    if j == 0 {
        assert(record_header(headers, headers[0].0, value) == seq![(headers[0].0, value)]
            + headers.drop_first());
        assert(seq![(headers[0].0, value)] + headers.drop_first() =~= headers.update(
            0,
            (headers[0].0, value),
        ));
    } else {
        assert(headers.first().0 != headers[j].0);
        lemma_record_header_at_match(headers.drop_first(), j - 1, value);
        assert(headers.drop_first()[j - 1] == headers[j]);
        assert(seq![headers.first()] + headers.drop_first().update(j - 1, (headers[j].0, value))
            =~= headers.update(j, (headers[j].0, value)));
    }
}

/// Appending a name that is absent records that header.
proof fn lemma_record_header_fresh(
    headers: Seq<(Seq<char>, Seq<char>)>,
    name: Seq<char>,
    value: Seq<char>,
)
    requires
        forall|k: int| 0 <= k < headers.len() ==> headers[k].0 != name,
    ensures
        record_header(headers, name, value) == headers.push((name, value)),
    decreases headers.len(),
{
    if headers.len() == 0 {
        assert(record_header(headers, name, value) =~= headers.push((name, value)));
    } else {
        assert(headers.first().0 != name);
        lemma_record_header_fresh(headers.drop_first(), name, value);
        assert(seq![headers.first()] + headers.drop_first().push((name, value)) =~= headers.push(
            (name, value),
        ));
    }
}

/// The canonical content-type header name.
fn content_type_name() -> (r: String)
    ensures
        r@ == "Content-Type"@,
{
    "Content-Type".to_owned()
}

/// Both legal chains: a POST that gains a content type, a body and an
/// authorisation header, and a GET that only carries headers.
pub fn test() {
    let post_builder = HttpRequestBuilder::new().with_post_method().with_content_type(
        String::new(),
    ).with_payload(String::new()).add_header(String::new(), String::new());
    let _ = post_builder;
    let get_builder = HttpRequestBuilder::new().add_header(
        String::new(),
        String::new(),
    ).with_get_method();
    let _ = get_builder;
}

} // verus!
