use kubeapi::client::{
    get_target, list_target, put_target, request_query, resource_url, watch_list_target,
    watch_target,
};
use kubeapi::error::{CallError, UrlError};
use kubeapi::request::{
    is_default, path_segments, query_pairs, GetOptions, GroupVersionResource, ListOptions,
    RequestOptions,
};

fn gvr(group: &str, version: &str, resource: &str) -> GroupVersionResource {
    GroupVersionResource {
        group: group.to_string(),
        version: version.to_string(),
        resource: resource.to_string(),
    }
}

const SERVER: &str = "https://192.168.42.147:8443";

#[test]
fn test_url() {
    let url = resource_url(
        SERVER,
        &gvr("", "v1", "pods"),
        Some("myns"),
        Some("myname"),
        &RequestOptions::Get(GetOptions::default()),
    )
    .unwrap();
    assert_eq!(
        url,
        "https://192.168.42.147:8443/api/v1/namespaces/myns/pods/myname"
    );

    let url = resource_url(
        SERVER,
        &gvr("rbac.authorization.k8s.io", "v1beta1", "clusterroles"),
        None,
        Some("myrole"),
        &RequestOptions::Get(GetOptions {
            pretty: true,
            ..Default::default()
        }),
    )
    .unwrap();
    assert_eq!(url, "https://192.168.42.147:8443/apis/rbac.authorization.k8s.io/v1beta1/clusterroles/myrole?pretty=true");

    let url = resource_url(
        SERVER,
        &gvr("", "v1", "namespaces"),
        None,
        None,
        &RequestOptions::List(ListOptions {
            resource_version: "abcdef".into(),
            limit: 27,
            ..Default::default()
        }),
    )
    .unwrap();
    assert_eq!(
        url,
        "https://192.168.42.147:8443/api/v1/namespaces?resourceVersion=abcdef&limit=27"
    );
}

#[test]
fn core_group_path_uses_api_root() {
    let segs = path_segments(&gvr("", "v1", "pods"), None, None);
    assert_eq!(segs, vec!["api", "v1", "pods"]);
}

#[test]
fn other_group_path_uses_apis_root() {
    let segs = path_segments(&gvr("apps", "v1", "deployments"), Some("ns"), Some("d"));
    assert_eq!(
        segs,
        vec!["apis", "apps", "v1", "namespaces", "ns", "deployments", "d"]
    );
}

#[test]
fn namespace_segment_only_when_given() {
    let with = path_segments(&gvr("", "v1", "pods"), Some("kube-system"), None);
    assert_eq!(with, vec!["api", "v1", "namespaces", "kube-system", "pods"]);
    let without = path_segments(&gvr("", "v1", "pods"), None, Some("p"));
    assert_eq!(without, vec!["api", "v1", "pods", "p"]);
}

#[test]
fn default_options_have_no_query() {
    let get = RequestOptions::Get(GetOptions::default());
    let list = RequestOptions::List(ListOptions::default());
    assert!(is_default(&get));
    assert!(is_default(&list));
    assert_eq!(request_query(&get), Ok(None));
    assert_eq!(request_query(&list), Ok(None));
    let url = resource_url(SERVER, &gvr("", "v1", "pods"), None, None, &list).unwrap();
    assert_eq!(url, "https://192.168.42.147:8443/api/v1/pods");
}

#[test]
fn each_single_field_has_its_name() {
    let cases: Vec<(ListOptions, &str, &str)> = vec![
        (ListOptions { resource_version: "7".into(), ..Default::default() }, "resourceVersion", "7"),
        (ListOptions { timeout_seconds: 30, ..Default::default() }, "timeoutSeconds", "30"),
        (ListOptions { watch: true, ..Default::default() }, "watch", "true"),
        (ListOptions { pretty: true, ..Default::default() }, "pretty", "true"),
        (ListOptions { field_selector: "a=b".into(), ..Default::default() }, "fieldSelector", "a=b"),
        (ListOptions { label_selector: "app".into(), ..Default::default() }, "labelSelector", "app"),
        (ListOptions { include_uninitialized: true, ..Default::default() }, "includeUninitialized", "true"),
        (ListOptions { limit: 500, ..Default::default() }, "limit", "500"),
        (ListOptions { continu: "tok".into(), ..Default::default() }, "continue", "tok"),
    ];
    for (opts, name, value) in cases {
        let pairs = query_pairs(&RequestOptions::List(opts));
        assert_eq!(pairs, vec![(name.to_string(), value.to_string())]);
    }
}

#[test]
fn query_values_are_encoded() {
    let opts = RequestOptions::List(ListOptions {
        label_selector: "app in (a b)".into(),
        continu: "x=y".into(),
        ..Default::default()
    });
    let q = request_query(&opts).unwrap().unwrap();
    assert_eq!(q, "labelSelector=app+in+%28a+b%29&continue=x%3Dy");
}

#[test]
fn watch_always_sends_watch_true() {
    let t = watch_list_target(&gvr("", "v1", "pods"), None, ListOptions::default()).unwrap();
    assert_eq!(t.query, Some("watch=true".to_string()));
    let t = watch_target(
        &gvr("", "v1", "pods"),
        Some("ns"),
        "p",
        ListOptions { watch: false, limit: 3, ..Default::default() },
    )
    .unwrap();
    assert_eq!(t.query, Some("watch=true&limit=3".to_string()));
    assert_eq!(t.segments, vec!["api", "v1", "namespaces", "ns", "pods", "p"]);
}

#[test]
fn get_and_list_targets() {
    let t = get_target(&gvr("", "v1", "pods"), Some("ns"), "p", GetOptions::default()).unwrap();
    assert_eq!(t.segments, vec!["api", "v1", "namespaces", "ns", "pods", "p"]);
    assert_eq!(t.query, None);
    let t = list_target(&gvr("", "v1", "pods"), None, ListOptions { limit: 1, ..Default::default() }).unwrap();
    assert_eq!(t.segments, vec!["api", "v1", "pods"]);
    assert_eq!(t.query, Some("limit=1".to_string()));
}

#[test]
fn put_requires_a_name() {
    let r = put_target(&gvr("", "v1", "pods"), Some("ns"), None, GetOptions::default());
    match r {
        Err(CallError::MissingAttribute(e)) => assert_eq!(e.attr, "name"),
        other => panic!("unexpected {:?}", other),
    }
    let t = put_target(&gvr("", "v1", "pods"), None, Some("p"), GetOptions::default()).unwrap();
    assert_eq!(t.segments, vec!["api", "v1", "pods", "p"]);
}

#[test]
fn bad_server_address_is_a_url_error() {
    let opts = RequestOptions::Get(GetOptions::default());
    let r = resource_url("not a url", &gvr("", "v1", "pods"), None, None, &opts);
    assert_eq!(r, Err(UrlError::InvalidBase));
    let r = resource_url("mailto:someone@example.com", &gvr("", "v1", "pods"), None, None, &opts);
    assert_eq!(r, Err(UrlError::NoPathSegments));
}
