use vstd::prelude::*;

verus! {

/// A minimal model of the responses this service produces:
/// a numeric status code and a text body.
pub struct HttpResponse {
    pub status: u16,
    pub body: String,
}

/// The routes the service knows: the one script endpoint, or the
/// catch-all fallback.
#[derive(PartialEq, Eq, Structural, Clone, Copy, Debug)]
pub enum Route {
    KickstartScript,
    Fallback,
}

/// A response as the contracts see it: the status code as a mathematical
/// integer and the body as a sequence of characters.
pub ghost struct ResponseModel {
    pub status: int,
    pub body: Seq<char>,
}

impl HttpResponse {
    pub open spec fn model(&self) -> ResponseModel {
        ResponseModel { status: self.status as int, body: self.body@ }
    }
}

/// The fixed body sent when no route matches.
pub open spec fn not_found_text() -> Seq<char> {
    "404 Not Found"@
}

/// The fixed body sent when the script file cannot be read.
pub open spec fn server_error_text() -> Seq<char> {
    "500 Internal Server Error"@
}

pub open spec fn not_found_model() -> ResponseModel {
    ResponseModel { status: 404, body: not_found_text() }
}

pub open spec fn server_error_model() -> ResponseModel {
    ResponseModel { status: 500, body: server_error_text() }
}

/// What the script endpoint answers, as a function of the outcome of the
/// fresh read of the backing file made for this request.
pub open spec fn kickstart_model(read: Option<Seq<char>>) -> ResponseModel {
    match read {
        Some(contents) => ResponseModel { status: 200, body: contents },
        None => server_error_model(),
    }
}

/// The whole service, one request at a time: what is answered to a request
/// with the given method and path, when the fresh read of the backing file
/// made for it (performed only on the matched route) had the given outcome.
pub open spec fn response_spec(
    method: Seq<char>,
    path: Seq<char>,
    read: Option<Seq<char>>,
) -> ResponseModel {
    if matches_kickstart(method, path) {
        kickstart_model(read)
    } else {
        not_found_model()
    }
}

/// A request reaches the script endpoint exactly when its method is `GET`
/// and its path is `/kickstart/sh`, character for character.
pub open spec fn matches_kickstart(method: Seq<char>, path: Seq<char>) -> bool {
    method == "GET"@ && path == "/kickstart/sh"@
}

pub open spec fn route_spec(method: Seq<char>, path: Seq<char>) -> Route {
    if matches_kickstart(method, path) {
        Route::KickstartScript
    } else {
        Route::Fallback
    }
}

/// Character-for-character equality of two string slices.
fn str_eq(a: &str, b: &str) -> (r: bool)
    ensures
        r == (a@ == b@),
{
    let a_len = a.unicode_len();
    let b_len = b.unicode_len();
    if a_len != b_len {
        return false;
    }
    let mut i: usize = 0;
    while i < a_len
        invariant
            a_len == a@.len(),
            a_len == b@.len(),
            i <= a_len,
            forall|j: int| 0 <= j < i ==> a@[j] == b@[j],
        decreases a_len - i,
    {
        if a.get_char(i) != b.get_char(i) {
            return false;
        }
        i = i + 1;
    }
    proof {
        assert(a@ =~= b@);
    }
    true
}

/// Dispatch by exact match on method and path: `GET /kickstart/sh` goes to
/// the script endpoint, everything else to the fallback.
pub fn route_request(method: &str, path: &str) -> (r: Route)
    ensures
        r == route_spec(method@, path@),
{
    if str_eq(method, "GET") && str_eq(path, "/kickstart/sh") {
        Route::KickstartScript
    } else {
        Route::Fallback
    }
}

/// The fixed response for any request that matches no route.
pub fn not_found_response() -> (r: HttpResponse)
    ensures
        r.status == 404,
        r.body@ == not_found_text(),
        r.model() == not_found_model(),
{
    HttpResponse { status: 404, body: "404 Not Found".to_owned() }
}

/// The fixed response when the script file cannot be read.
pub fn internal_server_error_response() -> (r: HttpResponse)
    ensures
        r.status == 500,
        r.body@ == server_error_text(),
        r.model() == server_error_model(),
{
    HttpResponse { status: 500, body: "500 Internal Server Error".to_owned() }
}

/// The response of the script endpoint, from the outcome of a fresh read of
/// the backing file: the file's full contents with status 200 when the read
/// succeeded, the fixed error response with status 500 when it failed.
pub fn kickstart_response(read: Option<String>) -> (r: HttpResponse)
    ensures
        r.model() == kickstart_model(read.deep_view()),
        read matches Some(contents) ==> r.status == 200 && r.body@ == contents@,
        read is None ==> r.status == 500 && r.body@ == server_error_text(),
{
    match read {
        Some(contents) => HttpResponse { status: 200, body: contents },
        None => internal_server_error_response(),
    }
}

/// The route decides the response: a request routed to the script endpoint
/// is answered from its fresh read, and a request routed to the fallback is
/// answered with the fixed not-found response.
pub proof fn lemma_route_drives_response(
    method: Seq<char>,
    path: Seq<char>,
    read: Option<Seq<char>>,
)
    ensures
        route_spec(method, path) == Route::KickstartScript ==> response_spec(
            method,
            path,
            read,
        ) == kickstart_model(read),
        route_spec(method, path) == Route::Fallback ==> response_spec(method, path, read)
            == not_found_model(),
{
}

/// A request for `GET /kickstart/sh` is answered from the fresh read alone:
/// with status 200 and exactly the contents that the read returned this
/// time when it succeeded, and with the fixed 500 response when it failed.
/// No exception and no other body ever reaches the client.
pub proof fn lemma_matched_request_served(
    method: Seq<char>,
    path: Seq<char>,
    read: Option<Seq<char>>,
)
    requires
        matches_kickstart(method, path),
    ensures
        read matches Some(contents) ==> response_spec(method, path, read) == (ResponseModel {
            status: 200,
            body: contents,
        }),
        read is None ==> response_spec(method, path, read) == server_error_model(),
{
}

/// Any other request, whatever its method or path and whatever a read would
/// have returned, is answered with status 404 and the fixed not-found body.
pub proof fn lemma_unmatched_request_not_found(
    method: Seq<char>,
    path: Seq<char>,
    read: Option<Seq<char>>,
)
    requires
        !matches_kickstart(method, path),
    ensures
        response_spec(method, path, read) == not_found_model(),
{
}

/// A response is a function of its own request's method, path and fresh
/// read outcome, and of nothing else: two requests with equal inputs get
/// equal responses, however many are in flight and in whatever order they
/// complete, and nothing stale survives between calls. Together with
/// `lemma_matched_request_served` this says that consecutive calls agree
/// while the file is unchanged and that a change in the file's contents is
/// reflected by the very next successful read.
pub proof fn lemma_response_depends_only_on_request(
    method1: Seq<char>,
    path1: Seq<char>,
    read1: Option<Seq<char>>,
    method2: Seq<char>,
    path2: Seq<char>,
    read2: Option<Seq<char>>,
)
    requires
        method1 == method2,
        path1 == path2,
        read1 == read2,
    ensures
        response_spec(method1, path1, read1) == response_spec(method2, path2, read2),
{
}

} // verus!
