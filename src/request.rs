//! Resource paths, query strings and request URLs.
use vstd::prelude::*;

verus! {

/// A resource type within the API: its group, version and plural name.
#[derive(Debug, Clone, PartialEq, Eq)]
pub struct GroupVersionResource {
    pub group: String,
    pub version: String,
    pub resource: String,
}

/// Options of a request for one object.
#[derive(Debug, Clone, Copy, PartialEq, Eq)]
pub struct GetOptions {
    pub pretty: bool,
}

/// Options of a list or watch request.
#[derive(Debug, Clone, PartialEq, Eq)]
pub struct ListOptions {
    pub resource_version: String,
    pub timeout_seconds: u32,
    pub watch: bool,
    pub pretty: bool,
    pub field_selector: String,
    pub label_selector: String,
    pub include_uninitialized: bool,
    pub limit: u32,
    /// The continuation token; sent as `continue`.
    pub continu: String,
}

impl Default for GetOptions {
    fn default() -> (r: GetOptions)
        ensures
            r == (GetOptions { pretty: false }),
    {
        GetOptions { pretty: false }
    }
}

impl Default for ListOptions {
    fn default() -> (r: ListOptions)
        ensures
            list_options_default(r),
    {
        ListOptions {
            resource_version: String::new(),
            timeout_seconds: 0,
            watch: false,
            pretty: false,
            field_selector: String::new(),
            label_selector: String::new(),
            include_uninitialized: false,
            limit: 0,
            continu: String::new(),
        }
    }
}

impl ListOptions {
    /// A copy of the options, field by field.
    pub fn duplicate(&self) -> (r: ListOptions)
        ensures
            r == *self,
    {
        ListOptions {
            resource_version: self.resource_version.clone(),
            timeout_seconds: self.timeout_seconds,
            watch: self.watch,
            pretty: self.pretty,
            field_selector: self.field_selector.clone(),
            label_selector: self.label_selector.clone(),
            include_uninitialized: self.include_uninitialized,
            limit: self.limit,
            continu: self.continu.clone(),
        }
    }
}

/// Every field of `o` holds its default value.
pub open spec fn list_options_default(o: ListOptions) -> bool {
    &&& o.resource_version@.len() == 0
    &&& o.timeout_seconds == 0
    &&& !o.watch
    &&& !o.pretty
    &&& o.field_selector@.len() == 0
    &&& o.label_selector@.len() == 0
    &&& !o.include_uninitialized
    &&& o.limit == 0
    &&& o.continu@.len() == 0
}

/// The options of a request, of either kind.
#[derive(Debug, Clone, PartialEq, Eq)]
pub enum RequestOptions {
    Get(GetOptions),
    List(ListOptions),
}

/// Every field of `o` holds its default value.
pub open spec fn options_default(o: RequestOptions) -> bool {
    match o {
        RequestOptions::Get(g) => !g.pretty,
        RequestOptions::List(l) => list_options_default(l),
    }
}

/// True where every field of the options holds its default value.
pub fn is_default(opts: &RequestOptions) -> (r: bool)
    ensures
        r == options_default(*opts),
{
    match opts {
        RequestOptions::Get(g) => !g.pretty,
        RequestOptions::List(l) => {
            string_is_empty(&l.resource_version) && l.timeout_seconds == 0 && !l.watch
                && !l.pretty && string_is_empty(&l.field_selector) && string_is_empty(
                &l.label_selector,
            ) && !l.include_uninitialized && l.limit == 0 && string_is_empty(&l.continu)
        },
    }
}

fn string_is_empty(s: &String) -> (r: bool)
    ensures
        r == (s@.len() == 0),
{
    let e = String::new();
    let r = *s == e;
    proof {
        if s@.len() == 0 {
            assert(s@ =~= e@);
        }
    }
    r
}

/// The decimal digit for `d`.
pub open spec fn digit_char(d: nat) -> char {
    if d == 0 { '0' }
    else if d == 1 { '1' }
    else if d == 2 { '2' }
    else if d == 3 { '3' }
    else if d == 4 { '4' }
    else if d == 5 { '5' }
    else if d == 6 { '6' }
    else if d == 7 { '7' }
    else if d == 8 { '8' }
    else { '9' }
}

/// The decimal notation of `n`, without leading zeros.
pub open spec fn decimal_text(n: nat) -> Seq<char>
    decreases n,
{
    if n < 10 {
        seq![digit_char(n)]
    } else {
        decimal_text(n / 10).push(digit_char(n % 10))
    }
}

/// The text of a boolean flag.
pub open spec fn flag_text(b: bool) -> Seq<char> {
    if b { "true"@ } else { "false"@ }
}

/// Relies on `u32`'s `Display` (through `ToString`): decimal notation.
#[verifier::external_body]
fn decimal(n: u32) -> (r: String)
    ensures
        r@ == decimal_text(n as nat),
{
    n.to_string()
}

/// `pairs` followed by the pair `(key, value)` where `present` holds.
pub open spec fn push_if(
    pairs: Seq<(Seq<char>, Seq<char>)>,
    present: bool,
    key: Seq<char>,
    value: Seq<char>,
) -> Seq<(Seq<char>, Seq<char>)> {
    if present { pairs.push((key, value)) } else { pairs }
}

/// The query parameters of `o`: one per field that differs from its
/// default, in declaration order, under its wire name.
pub open spec fn query_pairs_spec(o: RequestOptions) -> Seq<(Seq<char>, Seq<char>)> {
    match o {
        RequestOptions::Get(g) => push_if(Seq::empty(), g.pretty, "pretty"@, "true"@),
        RequestOptions::List(l) => {
            let q0 = Seq::empty();
            let q1 = push_if(q0, l.resource_version@.len() > 0, "resourceVersion"@, l.resource_version@);
            let q2 = push_if(q1, l.timeout_seconds != 0, "timeoutSeconds"@, decimal_text(l.timeout_seconds as nat));
            let q3 = push_if(q2, l.watch, "watch"@, "true"@);
            let q4 = push_if(q3, l.pretty, "pretty"@, "true"@);
            let q5 = push_if(q4, l.field_selector@.len() > 0, "fieldSelector"@, l.field_selector@);
            let q6 = push_if(q5, l.label_selector@.len() > 0, "labelSelector"@, l.label_selector@);
            let q7 = push_if(q6, l.include_uninitialized, "includeUninitialized"@, "true"@);
            let q8 = push_if(q7, l.limit != 0, "limit"@, decimal_text(l.limit as nat));
            push_if(q8, l.continu@.len() > 0, "continue"@, l.continu@)
        },
    }
}

/// The views of a vector of string pairs.
pub open spec fn pair_views(v: Seq<(String, String)>) -> Seq<(Seq<char>, Seq<char>)> {
    v.map_values(|p: (String, String)| (p.0@, p.1@))
}

fn push_pair(pairs: &mut Vec<(String, String)>, present: bool, key: &str, value: String)
    ensures
        pair_views(final(pairs)@) == push_if(pair_views(old(pairs)@), present, key@, value@),
{
    if present {
        let ghost before = pairs@;
        pairs.push((key.to_owned(), value));
        assert(pair_views(pairs@) =~= pair_views(before).push((key@, value@)));
    }
}

/// The query parameters of `opts`, as name and value.
pub fn query_pairs(opts: &RequestOptions) -> (r: Vec<(String, String)>)
    ensures
        pair_views(r@) == query_pairs_spec(*opts),
{
    let mut pairs: Vec<(String, String)> = Vec::new();
    assert(pair_views(pairs@) =~= Seq::<(Seq<char>, Seq<char>)>::empty());
    match opts {
        RequestOptions::Get(g) => {
            push_pair(&mut pairs, g.pretty, "pretty", "true".to_owned());
        },
        RequestOptions::List(l) => {
            push_pair(&mut pairs, !string_is_empty(&l.resource_version), "resourceVersion", l.resource_version.clone());
            push_pair(&mut pairs, l.timeout_seconds != 0, "timeoutSeconds", decimal(l.timeout_seconds));
            push_pair(&mut pairs, l.watch, "watch", "true".to_owned());
            push_pair(&mut pairs, l.pretty, "pretty", "true".to_owned());
            push_pair(&mut pairs, !string_is_empty(&l.field_selector), "fieldSelector", l.field_selector.clone());
            push_pair(&mut pairs, !string_is_empty(&l.label_selector), "labelSelector", l.label_selector.clone());
            push_pair(&mut pairs, l.include_uninitialized, "includeUninitialized", "true".to_owned());
            push_pair(&mut pairs, l.limit != 0, "limit", decimal(l.limit));
            push_pair(&mut pairs, !string_is_empty(&l.continu), "continue", l.continu.clone());
        },
    }
    pairs
}

/// The path segments of a resource: `api/{version}` for the core group at
/// `v1`, `apis/{group}/{version}` otherwise; then `namespaces/{namespace}`
/// where a namespace is given; the resource; and the name, where given.
pub open spec fn path_spec(
    group: Seq<char>,
    version: Seq<char>,
    resource: Seq<char>,
    namespace: Option<Seq<char>>,
    name: Option<Seq<char>>,
) -> Seq<Seq<char>> {
    let root = if group.len() == 0 && version == "v1"@ {
        seq!["api"@]
    } else {
        seq!["apis"@, group]
    };
    let ns = match namespace {
        Some(n) => seq!["namespaces"@, n],
        None => Seq::empty(),
    };
    let tail = match name {
        Some(n) => seq![n],
        None => Seq::empty(),
    };
    root + seq![version] + ns + seq![resource] + tail
}

/// The views of a vector of strings.
pub open spec fn string_views(v: Seq<String>) -> Seq<Seq<char>> {
    v.map_values(|s: String| s@)
}

/// The view of an optional string slice.
pub open spec fn opt_view(o: Option<&str>) -> Option<Seq<char>> {
    match o {
        Some(s) => Some(s@),
        None => None,
    }
}

fn push_segment(segs: &mut Vec<String>, s: String)
    ensures
        string_views(final(segs)@) == string_views(old(segs)@).push(s@),
{
    let ghost before = segs@;
    segs.push(s);
    assert(string_views(segs@) =~= string_views(before).push(s@));
}

/// The path segments for `gvr`, in the namespace and with the name given.
pub fn path_segments(gvr: &GroupVersionResource, namespace: Option<&str>, name: Option<&str>) -> (r: Vec<String>)
    ensures
        string_views(r@) == path_spec(gvr.group@, gvr.version@, gvr.resource@, opt_view(namespace), opt_view(name)),
{
    let mut segs: Vec<String> = Vec::new();
    let v1 = "v1".to_owned();
    if string_is_empty(&gvr.group) && gvr.version == v1 {
        push_segment(&mut segs, "api".to_owned());
    } else {
        push_segment(&mut segs, "apis".to_owned());
        push_segment(&mut segs, gvr.group.clone());
    }
    push_segment(&mut segs, gvr.version.clone());
    match namespace {
        Some(ns) => {
            push_segment(&mut segs, "namespaces".to_owned());
            push_segment(&mut segs, ns.to_owned());
        },
        None => {},
    }
    push_segment(&mut segs, gvr.resource.clone());
    match name {
        Some(n) => push_segment(&mut segs, n.to_owned()),
        None => {},
    }
    assert(string_views(segs@) =~= path_spec(gvr.group@, gvr.version@, gvr.resource@, opt_view(namespace), opt_view(name)));
    segs
}

/// The path of a resource starts with `api/{version}` exactly where the
/// group is empty and the version is `v1`, and with
/// `apis/{group}/{version}` otherwise.
pub proof fn lemma_path_root(
    group: Seq<char>,
    version: Seq<char>,
    resource: Seq<char>,
    namespace: Option<Seq<char>>,
    name: Option<Seq<char>>,
)
    ensures
        ({
            let p = path_spec(group, version, resource, namespace, name);
            &&& (p[0] == "api"@) <==> (group.len() == 0 && version == "v1"@)
            &&& group.len() == 0 && version == "v1"@ ==> p.take(2) == seq!["api"@, version]
            &&& !(group.len() == 0 && version == "v1"@) ==> p.take(3) == seq![
                "apis"@,
                group,
                version,
            ]
        }),
{
    reveal_strlit("api");
    reveal_strlit("apis");
    assert("api"@.len() != "apis"@.len());
    let p = path_spec(group, version, resource, namespace, name);
    if group.len() == 0 && version == "v1"@ {
        assert(p.take(2) =~= seq!["api"@, version]);
    } else {
        assert(p.take(3) =~= seq!["apis"@, group, version]);
    }
}

/// The number of segments before the namespace part of a path.
pub open spec fn root_len(group: Seq<char>, version: Seq<char>) -> int {
    if group.len() == 0 && version == "v1"@ { 2 } else { 3 }
}

/// A path has the segments `namespaces/{namespace}` right after the version
/// exactly where a namespace is given (for any resource but `namespaces`
/// itself, whose name would take that place).
pub proof fn lemma_namespace_segment(
    group: Seq<char>,
    version: Seq<char>,
    resource: Seq<char>,
    namespace: Option<Seq<char>>,
    name: Option<Seq<char>>,
)
    requires
        resource != "namespaces"@,
    ensures
        ({
            let p = path_spec(group, version, resource, namespace, name);
            let k = root_len(group, version);
            &&& (namespace is Some) <==> (p.len() > k + 1 && p[k] == "namespaces"@)
            &&& namespace matches Some(ns) ==> p[k + 1] == ns && p[k + 2] == resource
            &&& namespace is None ==> p[k] == resource
        }),
{
}

/// Options whose fields all hold their defaults have no query parameter.
pub proof fn lemma_default_options_have_no_query(o: RequestOptions)
    requires
        options_default(o),
    ensures
        query_pairs_spec(o).len() == 0,
{
}

/// Whether the field number `i` of `l` holds its default value, the fields
/// taken in declaration order.
pub open spec fn field_is_default(l: ListOptions, i: int) -> bool {
    if i == 0 {
        l.resource_version@.len() == 0
    } else if i == 1 {
        l.timeout_seconds == 0
    } else if i == 2 {
        !l.watch
    } else if i == 3 {
        !l.pretty
    } else if i == 4 {
        l.field_selector@.len() == 0
    } else if i == 5 {
        l.label_selector@.len() == 0
    } else if i == 6 {
        !l.include_uninitialized
    } else if i == 7 {
        l.limit == 0
    } else {
        l.continu@.len() == 0
    }
}

/// The query parameter of the field number `i` of `l`: its wire name and
/// its value.
pub open spec fn field_param(l: ListOptions, i: int) -> (Seq<char>, Seq<char>) {
    if i == 0 {
        ("resourceVersion"@, l.resource_version@)
    } else if i == 1 {
        ("timeoutSeconds"@, decimal_text(l.timeout_seconds as nat))
    } else if i == 2 {
        ("watch"@, "true"@)
    } else if i == 3 {
        ("pretty"@, "true"@)
    } else if i == 4 {
        ("fieldSelector"@, l.field_selector@)
    } else if i == 5 {
        ("labelSelector"@, l.label_selector@)
    } else if i == 6 {
        ("includeUninitialized"@, "true"@)
    } else if i == 7 {
        ("limit"@, decimal_text(l.limit as nat))
    } else {
        ("continue"@, l.continu@)
    }
}

/// List options that differ from the defaults in one field alone have one
/// query parameter: that field's, under its wire name (`continue` for the
/// continuation token).
pub proof fn lemma_single_field_query(l: ListOptions, i: int)
    requires
        0 <= i < 9,
        !field_is_default(l, i),
        forall|j: int| 0 <= j < 9 && j != i ==> field_is_default(l, j),
    ensures
        query_pairs_spec(RequestOptions::List(l)) == seq![field_param(l, i)],
{
    assert(field_is_default(l, 0) || i == 0);
    assert(field_is_default(l, 1) || i == 1);
    assert(field_is_default(l, 2) || i == 2);
    assert(field_is_default(l, 3) || i == 3);
    assert(field_is_default(l, 4) || i == 4);
    assert(field_is_default(l, 5) || i == 5);
    assert(field_is_default(l, 6) || i == 6);
    assert(field_is_default(l, 7) || i == 7);
    assert(field_is_default(l, 8) || i == 8);
    assert(query_pairs_spec(RequestOptions::List(l)) =~= seq![field_param(l, i)]);
}

/// Get options with `pretty` set have the one query parameter `pretty=true`.
pub proof fn lemma_pretty_query(g: GetOptions)
    requires
        g.pretty,
    ensures
        query_pairs_spec(RequestOptions::Get(g)) == seq![("pretty"@, "true"@)],
{
    assert(query_pairs_spec(RequestOptions::Get(g)) =~= seq![("pretty"@, "true"@)]);
}

proof fn lemma_push_if_keeps(
    pairs: Seq<(Seq<char>, Seq<char>)>,
    present: bool,
    key: Seq<char>,
    value: Seq<char>,
    p: (Seq<char>, Seq<char>),
)
    requires
        pairs.contains(p),
    ensures
        push_if(pairs, present, key, value).contains(p),
{
    if present {
        let i = choose|i: int| 0 <= i < pairs.len() && pairs[i] == p;
        assert(pairs.push((key, value))[i] == p);
    }
}

/// Options with `watch` set, whatever their other fields, are not the
/// defaults and send `watch=true`.
pub proof fn lemma_watch_flag_sent(l: ListOptions)
    requires
        l.watch,
    ensures
        !options_default(RequestOptions::List(l)),
        query_pairs_spec(RequestOptions::List(l)).contains(("watch"@, "true"@)),
{
    let w = ("watch"@, "true"@);
    let q0 = Seq::empty();
    let q1 = push_if(q0, l.resource_version@.len() > 0, "resourceVersion"@, l.resource_version@);
    let q2 = push_if(q1, l.timeout_seconds != 0, "timeoutSeconds"@, decimal_text(l.timeout_seconds as nat));
    let q3 = push_if(q2, l.watch, "watch"@, "true"@);
    assert(q3[q3.len() - 1] == w);
    let q4 = push_if(q3, l.pretty, "pretty"@, "true"@);
    lemma_push_if_keeps(q3, l.pretty, "pretty"@, "true"@, w);
    let q5 = push_if(q4, l.field_selector@.len() > 0, "fieldSelector"@, l.field_selector@);
    lemma_push_if_keeps(q4, l.field_selector@.len() > 0, "fieldSelector"@, l.field_selector@, w);
    let q6 = push_if(q5, l.label_selector@.len() > 0, "labelSelector"@, l.label_selector@);
    lemma_push_if_keeps(q5, l.label_selector@.len() > 0, "labelSelector"@, l.label_selector@, w);
    let q7 = push_if(q6, l.include_uninitialized, "includeUninitialized"@, "true"@);
    lemma_push_if_keeps(q6, l.include_uninitialized, "includeUninitialized"@, "true"@, w);
    let q8 = push_if(q7, l.limit != 0, "limit"@, decimal_text(l.limit as nat));
    lemma_push_if_keeps(q7, l.limit != 0, "limit"@, decimal_text(l.limit as nat), w);
    lemma_push_if_keeps(q8, l.continu@.len() > 0, "continue"@, l.continu@, w);
}

} // verus!
