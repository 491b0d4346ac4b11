//! Request planning and response handling: the decisions of each call,
//! apart from the transport that carries it out.
use vstd::prelude::*;
use crate::meta::opt_string_view;
use crate::error::{CallError, DecodeError, DecodeStage, HttpStatusError, Status, UrlError, required_attr};
use crate::request::{
    lemma_watch_flag_sent,
    GetOptions, GroupVersionResource, ListOptions, RequestOptions, is_default, options_default,
    opt_view, pair_views, path_segments, path_spec, query_pairs, query_pairs_spec, string_views,
};

verus! {

#[verifier::external_type_specification]
#[verifier::external_body]
pub struct ExQueryError(serde_urlencoded::ser::Error);

/// What `serde_urlencoded::to_string` makes of a sequence of name/value
/// pairs: the `application/x-www-form-urlencoded` text.
pub uninterp spec fn form_encoded(pairs: Seq<(Seq<char>, Seq<char>)>) -> Seq<char>;

/// Relies on `serde_urlencoded::to_string`: a sequence of string pairs
/// always encodes, in order, as a form-urlencoded query.
#[verifier::external_body]
fn encode_pairs(pairs: &Vec<(String, String)>) -> (r: Result<String, serde_urlencoded::ser::Error>)
    ensures
        r is Ok,
        r matches Ok(q) ==> q@ == form_encoded(pair_views(pairs@)),
{
    serde_urlencoded::to_string(pairs)
}

/// Whether `url::Url::parse` accepts `server`.
pub uninterp spec fn parses_as_url(server: Seq<char>) -> bool;

/// Whether the URL that `url::Url::parse` makes of `server` can have path
/// segments (`path_segments_mut` succeeds on it).
pub uninterp spec fn has_path_segments(server: Seq<char>) -> bool;

/// The serialization of the URL parsed from `server`, its path replaced by
/// `segments` (each percent-encoded; `.` and `..` are skipped) and its query
/// set to `query`.
pub uninterp spec fn joined_url(
    server: Seq<char>,
    segments: Seq<Seq<char>>,
    query: Option<Seq<char>>,
) -> Seq<char>;

/// Relies on `url::Url::parse`, `Url::path_segments_mut` (with `clear` and
/// `extend` of the segments it returns), `Url::set_query` and `Url::as_str`:
/// joins a path and query to a server address.
#[verifier::external_body]
fn build_url(server: &str, segments: &Vec<String>, query: Option<&str>) -> (r: Result<String, UrlError>)
    ensures
        r matches Err(e) ==> e == (if parses_as_url(server@) {
            UrlError::NoPathSegments
        } else {
            UrlError::InvalidBase
        }),
        r is Ok <==> (parses_as_url(server@) && has_path_segments(server@)),
        r matches Ok(s) ==> s@ == joined_url(server@, string_views(segments@), opt_view(query)),
{
    let mut u = match url::Url::parse(server) {
        Ok(u) => u,
        Err(_) => return Err(UrlError::InvalidBase),
    };
    match u.path_segments_mut() {
        Ok(mut path) => {
            path.clear();
            path.extend(segments.iter());
        },
        Err(()) => return Err(UrlError::NoPathSegments),
    }
    u.set_query(query);
    Ok(u.as_str().to_owned())
}

/// The path and query of a request, before they are joined to a server
/// address.
#[derive(Debug, Clone, PartialEq, Eq)]
pub struct ResourceUrl {
    pub segments: Vec<String>,
    pub query: Option<String>,
}

/// The query string of `opts`: none for default options, the encoded
/// non-default fields otherwise.
pub fn request_query(opts: &RequestOptions) -> (r: Result<Option<String>, UrlError>)
    ensures
        options_default(*opts) ==> r == Ok::<Option<String>, UrlError>(None),
        !options_default(*opts) ==> (r matches Ok(Some(q)) && q@ == form_encoded(
            query_pairs_spec(*opts),
        )),
{
    if is_default(opts) {
        Ok(None)
    } else {
        let pairs = query_pairs(opts);
        match encode_pairs(&pairs) {
            Ok(q) => Ok(Some(q)),
            Err(_) => Err(UrlError::Query),
        }
    }
}

/// `t` is the path and query for the resource `gvr`, in `namespace`,
/// named `name`, with options `opts`.
pub open spec fn targets(
    t: ResourceUrl,
    gvr: GroupVersionResource,
    namespace: Option<Seq<char>>,
    name: Option<Seq<char>>,
    opts: RequestOptions,
) -> bool {
    &&& string_views(t.segments@) == path_spec(gvr.group@, gvr.version@, gvr.resource@, namespace, name)
    &&& match t.query {
        None => options_default(opts),
        Some(q) => !options_default(opts) && q@ == form_encoded(query_pairs_spec(opts)),
    }
}

/// The path and query for the resource `gvr`, in `namespace`, named
/// `name`, with options `opts`; fails only where the query cannot be
/// encoded.
pub fn resource_target(
    gvr: &GroupVersionResource,
    namespace: Option<&str>,
    name: Option<&str>,
    opts: &RequestOptions,
) -> (r: Result<ResourceUrl, UrlError>)
    ensures
        r matches Ok(t) && targets(t, *gvr, opt_view(namespace), opt_view(name), *opts),
{
    let segments = path_segments(gvr, namespace, name);
    match request_query(opts) {
        Ok(query) => Ok(ResourceUrl { segments, query }),
        Err(e) => Err(e),
    }
}

/// The query string of `opts`: none for default options.
pub open spec fn query_spec(opts: RequestOptions) -> Option<Seq<char>> {
    if options_default(opts) {
        None
    } else {
        Some(form_encoded(query_pairs_spec(opts)))
    }
}

/// The outcome of joining `segments` and `query` to the server address
/// `server`: an error where it is no URL or cannot have a path, the
/// joined URL otherwise.
pub open spec fn url_outcome(
    r: Result<String, UrlError>,
    server: Seq<char>,
    segments: Seq<Seq<char>>,
    query: Option<Seq<char>>,
) -> bool {
    if !parses_as_url(server) {
        r == Err::<String, UrlError>(UrlError::InvalidBase)
    } else if !has_path_segments(server) {
        r == Err::<String, UrlError>(UrlError::NoPathSegments)
    } else {
        r matches Ok(s) && s@ == joined_url(server, segments, query)
    }
}

/// Joins a path and query to the server address `server`: its path is
/// replaced by the segments, and its query by the one given.
pub fn render_url(server: &str, target: &ResourceUrl) -> (r: Result<String, UrlError>)
    ensures
        url_outcome(r, server@, string_views(target.segments@), opt_string_view(target.query)),
{
    let query: Option<&str> = match &target.query {
        Some(q) => Some(q.as_str()),
        None => None,
    };
    build_url(server, &target.segments, query)
}

/// The URL of the resource `gvr` at the server `server`, in `namespace`,
/// named `name`, with options `opts`.
pub fn resource_url(
    server: &str,
    gvr: &GroupVersionResource,
    namespace: Option<&str>,
    name: Option<&str>,
    opts: &RequestOptions,
) -> (r: Result<String, UrlError>)
    ensures
        url_outcome(
            r,
            server@,
            path_spec(gvr.group@, gvr.version@, gvr.resource@, opt_view(namespace), opt_view(name)),
            query_spec(*opts),
        ),
{
    match resource_target(gvr, namespace, name, opts) {
        Ok(t) => render_url(server, &t),
        Err(e) => Err(e),
    }
}

/// The options of a watch: those given, with `watch` set.
pub fn watch_options(opts: ListOptions) -> (r: ListOptions)
    ensures
        r == (ListOptions { watch: true, ..opts }),
{
    let mut o = opts;
    o.watch = true;
    o
}

fn plan(
    gvr: &GroupVersionResource,
    namespace: Option<&str>,
    name: Option<&str>,
    opts: RequestOptions,
) -> (r: Result<ResourceUrl, CallError>)
    ensures
        r matches Ok(t) && targets(t, *gvr, opt_view(namespace), opt_view(name), opts),
{
    match resource_target(gvr, namespace, name, &opts) {
        Ok(t) => Ok(t),
        Err(e) => Err(CallError::Url(e)),
    }
}

/// The request for the object `name` of `gvr`.
pub fn get_target(gvr: &GroupVersionResource, namespace: Option<&str>, name: &str, opts: GetOptions) -> (r: Result<ResourceUrl, CallError>)
    ensures
        r matches Ok(t) && targets(t, *gvr, opt_view(namespace), Some(name@), RequestOptions::Get(opts)),
{
    plan(gvr, namespace, Some(name), RequestOptions::Get(opts))
}

/// The request that replaces an object, given the namespace and name that
/// it carries; the name is required.
pub fn put_target(gvr: &GroupVersionResource, namespace: Option<&str>, name: Option<&str>, opts: GetOptions) -> (r: Result<ResourceUrl, CallError>)
    ensures
        name is None ==> (r matches Err(CallError::MissingAttribute(e)) && e.attr@ == "name"@),
        name is Some ==> (r matches Ok(t) && targets(t, *gvr, opt_view(namespace), opt_view(name), RequestOptions::Get(opts))),
{
    match name {
        None => Err(CallError::MissingAttribute(required_attr("name"))),
        Some(n) => plan(gvr, namespace, Some(n), RequestOptions::Get(opts)),
    }
}

/// The request that watches the object `name` of `gvr`; `watch` is set
/// whatever `opts` holds.
pub fn watch_target(gvr: &GroupVersionResource, namespace: Option<&str>, name: &str, opts: ListOptions) -> (r: Result<ResourceUrl, CallError>)
    ensures
        r matches Ok(t) && targets(t, *gvr, opt_view(namespace), Some(name@), RequestOptions::List(ListOptions { watch: true, ..opts })),
{
    plan(gvr, namespace, Some(name), RequestOptions::List(watch_options(opts)))
}

/// The request that watches every object of `gvr`; `watch` is set
/// whatever `opts` holds.
pub fn watch_list_target(gvr: &GroupVersionResource, namespace: Option<&str>, opts: ListOptions) -> (r: Result<ResourceUrl, CallError>)
    ensures
        r matches Ok(t) && targets(t, *gvr, opt_view(namespace), None, RequestOptions::List(ListOptions { watch: true, ..opts })),
{
    plan(gvr, namespace, None, RequestOptions::List(watch_options(opts)))
}

/// The request that lists the objects of `gvr`.
pub fn list_target(gvr: &GroupVersionResource, namespace: Option<&str>, opts: ListOptions) -> (r: Result<ResourceUrl, CallError>)
    ensures
        r matches Ok(t) && targets(t, *gvr, opt_view(namespace), None, RequestOptions::List(opts)),
{
    plan(gvr, namespace, None, RequestOptions::List(opts))
}

/// A status code of success.
pub open spec fn success_status(code: u16) -> bool {
    200 <= code && code < 300
}

/// True for a status code of success (2xx).
pub fn is_success(code: u16) -> (r: bool)
    ensures
        r == success_status(code),
{
    200 <= code && code < 300
}

/// The error for a failed response with status `code`, whose body decoded
/// as `status` where it was a structured status.
pub fn failure_error(code: u16, status: Option<Status>) -> (r: CallError)
    ensures
        match status {
            Some(s) => r == CallError::ApiStatus(s),
            None => r == CallError::HttpStatus(HttpStatusError { status: code }),
        },
{
    match status {
        Some(s) => CallError::ApiStatus(s),
        None => CallError::HttpStatus(HttpStatusError { status: code }),
    }
}

/// The result of decoding a body or line at `stage`; a failure to decode,
/// described by its message, is a decode error.
pub fn decoded_result<T>(stage: DecodeStage, decoded: Result<T, String>) -> (r: Result<T, CallError>)
    ensures
        match decoded {
            Ok(v) => r == Ok::<T, CallError>(v),
            Err(m) => r == Err::<T, CallError>(CallError::Decode(DecodeError { stage, message: m })),
        },
{
    match decoded {
        Ok(v) => Ok(v),
        Err(m) => Err(CallError::Decode(DecodeError { stage, message: m })),
    }
}

/// The outcome of a single request: the body, decoded as the expected type,
/// for a status of success; else the structured status where the body
/// decoded as one, the bare status code otherwise.
pub fn response_result<T>(code: u16, body: Result<T, String>, status: Option<Status>) -> (r: Result<T, CallError>)
    ensures
        success_status(code) ==> match body {
            Ok(v) => r == Ok::<T, CallError>(v),
            Err(m) => r == Err::<T, CallError>(CallError::Decode(DecodeError { stage: DecodeStage::ResponseBody, message: m })),
        },
        !success_status(code) ==> match status {
            Some(s) => r == Err::<T, CallError>(CallError::ApiStatus(s)),
            None => r == Err::<T, CallError>(CallError::HttpStatus(HttpStatusError { status: code })),
        },
{
    if is_success(code) {
        decoded_result(DecodeStage::ResponseBody, body)
    } else {
        Err(failure_error(code, status))
    }
}

/// A watch request, whatever options the caller gave, carries a query,
/// and that query encodes `watch=true` among its parameters.
pub proof fn lemma_watch_request_sends_watch(
    t: ResourceUrl,
    gvr: GroupVersionResource,
    namespace: Option<Seq<char>>,
    name: Option<Seq<char>>,
    opts: ListOptions,
)
    requires
        targets(t, gvr, namespace, name, RequestOptions::List(ListOptions { watch: true, ..opts })),
    ensures
        t.query matches Some(q) && q@ == form_encoded(
            query_pairs_spec(RequestOptions::List(ListOptions { watch: true, ..opts })),
        ),
        query_pairs_spec(RequestOptions::List(ListOptions { watch: true, ..opts })).contains(
            ("watch"@, "true"@),
        ),
{
    lemma_watch_flag_sent(ListOptions { watch: true, ..opts });
}

} // verus!
