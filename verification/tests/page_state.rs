use kubelens::display::{
    cell_text, container_badge, context_choice, default_context_label, endpoint_addresses_text,
    endpoint_status_text, equals_ignoring_ascii_case, is_default_storage_class, logs_container,
    logs_title, modes_text, node_port_text, protocol_text, service_port_text, slice_port_text,
    table_columns, target_port_arrow,
};
use kubelens::events::{apply_resource_event, event_payload, parse_resource_event, ResourceEvent};
use kubelens::highlight::{escape_html, highlight_matches};
use kubelens::json::{JsonNumber, JsonValue};
use kubelens::overview::{push_builtin_targets, ResourceGroup};
use kubelens::plural::guess_plural;
use kubelens::selection::{
    cascade_targets, default_selection, find_selected_group, group_key, menu_choice, menu_item_active,
    namespace_filter, namespace_option_selected, namespace_options, panel_state, split_selection_key,
    static_menu, text_less,
};
use kubelens::summary::{
    summarize_item, ContainerStatus, EndpointSliceEndpoint, EndpointSlicePort, ResourceRefGvk,
    ResourceSummary, ServicePort,
};
use kubelens::watch::{watch_start, watch_step, StreamItem, WatchAction, WatchEvent, WatchPhase};

fn s(x: &str) -> JsonValue {
    JsonValue::Str(x.to_string())
}

fn obj(members: Vec<(&str, JsonValue)>) -> JsonValue {
    JsonValue::Object(members.into_iter().map(|(k, v)| (k.to_string(), v)).collect())
}

fn gvk(group: &str, version: &str, kind: &str) -> ResourceRefGvk {
    ResourceRefGvk { group: group.to_string(), version: version.to_string(), kind: kind.to_string() }
}

fn item(name: &str, ns: Option<&str>, tag: &str) -> JsonValue {
    let mut meta = vec![("name", s(name))];
    if let Some(n) = ns {
        meta.push(("namespace", s(n)));
    }
    obj(vec![("metadata", obj(meta)), ("tag", s(tag))])
}

fn summary(g: &ResourceRefGvk, name: &str, ns: Option<&str>) -> ResourceSummary {
    summarize_item(&item(name, ns, ""), g)
}

fn group(g: ResourceRefGvk, items: Vec<ResourceSummary>) -> ResourceGroup {
    ResourceGroup { gvk: g, namespaced: true, items, errors: vec![] }
}

fn names(g: &ResourceGroup) -> Vec<String> {
    g.items.iter().map(|i| i.reference.name.clone()).collect()
}

fn event(op: &str, g: &ResourceRefGvk, name: &str, ns: Option<&str>) -> ResourceEvent {
    let payload = event_payload(op, g, item(name, ns, op));
    parse_resource_event(&payload).expect("payload reads back")
}

#[test]
fn payload_reads_back() {
    let g = gvk("apps", "v1", "Deployment");
    let ev = event("MODIFIED", &g, "web", Some("prod"));
    assert_eq!(ev.op, "MODIFIED");
    assert_eq!(ev.gvk.group, "apps");
    assert_eq!(ev.gvk.version, "v1");
    assert_eq!(ev.gvk.kind, "Deployment");
    assert_eq!(ev.summary.reference.name, "web");
    assert_eq!(ev.summary.reference.namespace.as_deref(), Some("prod"));
}

#[test]
fn wrapped_payload_reads_back() {
    let g = gvk("", "v1", "Pod");
    let inner = event_payload("ADDED", &g, item("p", None, ""));
    let root = obj(vec![("event", s("k8s:resource_event")), ("payload", inner)]);
    let ev = parse_resource_event(&root).expect("reads");
    assert_eq!(ev.op, "ADDED");
    assert_eq!(ev.summary.reference.namespace, None);
}

#[test]
fn incomplete_payload_is_ignored() {
    assert!(parse_resource_event(&obj(vec![("op", s("ADDED"))])).is_none());
    let no_gvk = obj(vec![("op", s("ADDED")), ("item", obj(vec![]))]);
    assert!(parse_resource_event(&no_gvk).is_none());
}

#[test]
fn events_update_the_matching_group() {
    let pods = gvk("", "v1", "Pod");
    let svcs = gvk("", "v1", "Service");
    let mut groups = vec![
        group(svcs.copy(), vec![summary(&svcs, "s1", Some("a"))]),
        group(pods.copy(), vec![summary(&pods, "p1", Some("a")), summary(&pods, "p2", Some("b"))]),
    ];
    apply_resource_event(&mut groups, event("ADDED", &pods, "p3", Some("a")));
    assert_eq!(names(&groups[1]), vec!["p1", "p2", "p3"]);
    apply_resource_event(&mut groups, event("MODIFIED", &pods, "p1", Some("a")));
    assert_eq!(names(&groups[1]), vec!["p1", "p2", "p3"]);
    apply_resource_event(&mut groups, event("ADDED", &pods, "p1", Some("b")));
    assert_eq!(names(&groups[1]), vec!["p1", "p2", "p3", "p1"]);
    apply_resource_event(&mut groups, event("DELETED", &pods, "p1", Some("a")));
    assert_eq!(names(&groups[1]), vec!["p2", "p3", "p1"]);
    apply_resource_event(&mut groups, event("BOOKMARK", &pods, "p2", Some("b")));
    assert_eq!(names(&groups[1]), vec!["p2", "p3", "p1"]);
    assert_eq!(names(&groups[0]), vec!["s1"]);
}

#[test]
fn repeated_addition_changes_nothing_more() {
    let pods = gvk("", "v1", "Pod");
    let mut groups = vec![group(pods.copy(), vec![])];
    apply_resource_event(&mut groups, event("ADDED", &pods, "p", Some("a")));
    apply_resource_event(&mut groups, event("ADDED", &pods, "p", Some("a")));
    assert_eq!(names(&groups[0]), vec!["p"]);
    apply_resource_event(&mut groups, event("DELETED", &pods, "p", Some("a")));
    assert!(groups[0].items.is_empty());
}

#[test]
fn event_matches_group_by_kind_when_version_differs() {
    let v1 = gvk("batch", "v1", "Job");
    let mut groups = vec![group(v1.copy(), vec![])];
    apply_resource_event(&mut groups, event("ADDED", &gvk("batch", "v2", "Job"), "j", None));
    assert_eq!(names(&groups[0]), vec!["j"]);
    apply_resource_event(&mut groups, event("ADDED", &gvk("apps", "v1", "Job"), "k", None));
    assert_eq!(names(&groups[0]), vec!["j"]);
}

#[test]
fn watcher_lists_then_streams() {
    let st = watch_start();
    let (st, a) = watch_step(st, WatchEvent::Resume { cancelled: false });
    assert!(matches!(a, WatchAction::List));
    let (st, a) = watch_step(st, WatchEvent::Listed { resource_version: Some("41".to_string()) });
    assert!(matches!(a, WatchAction::EmitListedThenOpen(ref v) if v == "41"));
    let (st, a) = watch_step(st, WatchEvent::Opened);
    assert!(matches!(a, WatchAction::ReadNext));
    let (st, a) = watch_step(st, WatchEvent::Received { cancelled: false, item: StreamItem::Deleted });
    assert!(matches!(a, WatchAction::Emit(ref op) if op == "DELETED"));
    let (st, a) = watch_step(st, WatchEvent::Received { cancelled: false, item: StreamItem::Bookmark("50".to_string()) });
    assert!(matches!(a, WatchAction::ReadNext));
    assert_eq!(st.resource_version.as_deref(), Some("50"));
    let (st, a) = watch_step(st, WatchEvent::Ended);
    assert!(matches!(a, WatchAction::Resume));
    let (st, a) = watch_step(st, WatchEvent::Resume { cancelled: false });
    assert!(matches!(a, WatchAction::OpenFrom(ref v) if v == "50"));
    let (st, a) = watch_step(st, WatchEvent::Opened);
    assert!(matches!(a, WatchAction::ReadNext));
    let (st, a) = watch_step(st, WatchEvent::Received { cancelled: false, item: StreamItem::Error });
    assert!(matches!(a, WatchAction::Resume));
    assert_eq!(st.resource_version, None);
    let (st, a) = watch_step(st, WatchEvent::Resume { cancelled: true });
    assert!(matches!(a, WatchAction::Stop));
    assert!(st.phase == WatchPhase::Stopped);
    let (st, a) = watch_step(st, WatchEvent::Opened);
    assert!(matches!(a, WatchAction::Stop));
    assert!(st.phase == WatchPhase::Stopped);
}

#[test]
fn watcher_sleeps_after_failures_and_ignores_stray_reports() {
    let (st, a) = watch_step(watch_start(), WatchEvent::Ended);
    assert!(matches!(a, WatchAction::Ignore));
    let (st, _) = watch_step(st, WatchEvent::Resume { cancelled: false });
    let (st, a) = watch_step(st, WatchEvent::ListFailed);
    assert!(matches!(a, WatchAction::SleepThenResume));
    let (st, _) = watch_step(st, WatchEvent::Resume { cancelled: false });
    let (st, a) = watch_step(st, WatchEvent::Listed { resource_version: None });
    assert!(matches!(a, WatchAction::EmitListedThenOpen(ref v) if v.is_empty()));
    let (st, a) = watch_step(st, WatchEvent::OpenFailed);
    assert!(matches!(a, WatchAction::SleepThenResume));
    assert!(st.phase == WatchPhase::Top);
    let (st, _) = watch_step(st, WatchEvent::Resume { cancelled: false });
    let (st, _) = watch_step(st, WatchEvent::Listed { resource_version: Some("1".to_string()) });
    let (st, _) = watch_step(st, WatchEvent::Opened);
    let (st, a) = watch_step(st, WatchEvent::Received { cancelled: true, item: StreamItem::Added });
    assert!(matches!(a, WatchAction::Stop));
    assert!(st.phase == WatchPhase::Stopped);
}

#[test]
fn selection_keys() {
    let g = gvk("apps", "v1", "Deployment");
    assert_eq!(group_key(&g), "Deployment.v1/apps");
    let (k, grp) = split_selection_key("Deployment.v1/apps").unwrap();
    assert_eq!((k.as_str(), grp.as_str()), ("Deployment", "apps"));
    let (k, grp) = split_selection_key("Pod.*/").unwrap();
    assert_eq!((k.as_str(), grp.as_str()), ("Pod", ""));
    let (k, grp) = split_selection_key("Node/").unwrap();
    assert_eq!((k.as_str(), grp.as_str()), ("Node", ""));
    assert!(split_selection_key("a/b/c").is_none());
    assert!(split_selection_key("nokey").is_none());
    assert!(menu_item_active(&Some("Deployment.v2/apps".to_string()), "Deployment", "apps"));
    assert!(!menu_item_active(&Some("Deployment.v2/apps".to_string()), "StatefulSet", "apps"));
    assert!(!menu_item_active(&None, "Deployment", "apps"));
}

#[test]
fn default_selection_prefers_nodes() {
    let pods = gvk("", "v1", "Pod");
    let nodes = gvk("", "v1", "Node");
    let groups = vec![group(pods.copy(), vec![]), group(nodes.copy(), vec![])];
    assert_eq!(default_selection(&groups).as_deref(), Some("Node.v1/"));
    let groups = vec![group(pods.copy(), vec![])];
    assert_eq!(default_selection(&groups).as_deref(), Some("Pod.v1/"));
    assert_eq!(default_selection(&vec![]), None);
}

#[test]
fn panel_shows_the_selected_group_filtered() {
    let pods = gvk("", "v1", "Pod");
    let mut g = group(
        pods.copy(),
        vec![summary(&pods, "a", Some("x")), summary(&pods, "b", Some("y")), summary(&pods, "c", Some("x")), summary(&pods, "d", None)],
    );
    g.errors = vec!["one".to_string(), "two".to_string()];
    let groups = vec![group(gvk("", "v1", "Node"), vec![]), g];
    let p = panel_state(Some(&groups), &Some("Pod.v1/".to_string()), &Some("x".to_string()));
    assert!(p.found);
    assert_eq!(p.group, Some(1));
    assert_eq!(p.items, vec![0, 2]);
    assert!(p.has_errors);
    assert_eq!(p.errors_text, "one | two");
    let p = panel_state(Some(&groups), &Some("Pod.*/".to_string()), &None);
    assert_eq!(p.group, Some(1));
    assert_eq!(p.items, vec![0, 1, 2, 3]);
    let p = panel_state(Some(&groups), &Some("Secret.v1/".to_string()), &None);
    assert!(!p.found);
    let p = panel_state(None, &Some("Pod.v1/".to_string()), &None);
    assert!(!p.found);
    assert_eq!(find_selected_group(&groups, "Node.v1/"), Some(0));
}

#[test]
fn menu_and_cascades() {
    let menu = static_menu();
    let titles: Vec<&str> = menu.iter().map(|g| g.group_title).collect();
    assert_eq!(titles, vec!["Workloads", "Networking", "Storage", "Cluster"]);
    assert_eq!(menu[0].items.len(), 7);
    assert_eq!(menu[2].items[0].title, "PVs");
    assert_eq!(menu[3].items[3].kind, "Secret");
    let c = cascade_targets("apps", "Deployment");
    let kinds: Vec<&str> = c.iter().map(|g| g.kind.as_str()).collect();
    assert_eq!(kinds, vec!["ReplicaSet", "Pod"]);
    assert_eq!(cascade_targets("", "Service")[0].group, "discovery.k8s.io");
    assert!(cascade_targets("", "Node").is_empty());
    let groups = vec![group(gvk("batch", "v1", "CronJob"), vec![])];
    let choice = menu_choice(Some(&groups), "batch", "CronJob", &Some("ns".to_string()));
    assert_eq!(choice.key, "CronJob.v1/batch");
    let kinds: Vec<&str> = choice.watches.iter().map(|w| w.gvk.kind.as_str()).collect();
    assert_eq!(kinds, vec!["CronJob", "Job", "Pod"]);
    assert!(choice.watches.iter().all(|w| w.namespace.as_deref() == Some("ns")));
    let choice = menu_choice(None, "apps", "StatefulSet", &None);
    assert_eq!(choice.key, "StatefulSet.*/apps");
    assert_eq!(choice.watches[0].gvk.version, "");
    assert_eq!(choice.watches.len(), 2);
}

#[test]
fn namespace_choices_are_sorted_and_unique() {
    let pods = gvk("", "v1", "Pod");
    let groups = vec![
        group(pods.copy(), vec![summary(&pods, "a", Some("prod")), summary(&pods, "b", None), summary(&pods, "c", Some("dev"))]),
        group(gvk("", "v1", "Service"), vec![summary(&pods, "d", Some("prod")), summary(&pods, "e", Some("Zeta"))]),
    ];
    assert_eq!(namespace_options(&groups), vec!["All", "Zeta", "dev", "prod"]);
    assert_eq!(namespace_options(&vec![]), vec!["All"]);
    assert!(text_less("ab", "b"));
    assert!(text_less("a", "ab"));
    assert!(!text_less("b", "ab"));
    assert!(!text_less("a", "a"));
}

fn container(name: &str, ready: bool, state: &str, reason: Option<&str>) -> ContainerStatus {
    ContainerStatus {
        name: name.to_string(),
        ready,
        state: state.to_string(),
        reason: reason.map(|r| r.to_string()),
        init: false,
    }
}

fn init_container(name: &str, ready: bool, state: &str, reason: Option<&str>) -> ContainerStatus {
    ContainerStatus { init: true, ..container(name, ready, state, reason) }
}

#[test]
fn container_badges() {
    let b = container_badge(&container("main", false, "running", None));
    assert_eq!((b.background, b.foreground, b.text.as_str()), ("#ffd700", "#333", "main: running"));
    let b = container_badge(&container("app", true, "running", None));
    assert_eq!(b.background, "#28a745");
    let b = container_badge(&container("app", false, "running", None));
    assert_eq!(b.background, "#dc3545");
    let b = container_badge(&container("app", false, "unknown", None));
    assert_eq!(b.background, "#b3d9ff");
    let b = container_badge(&container("init", false, "init", None));
    assert_eq!(b.background, "#ffd700");
    let b = container_badge(&container("job", false, "terminated", Some("Completed")));
    assert_eq!((b.background, b.text.as_str()), ("#28a745", "job: terminated (Completed)"));
    let b = container_badge(&container("job", false, "terminated", Some("OOMKilled")));
    assert_eq!(b.background, "#dc3545");
    let b = container_badge(&container("job", false, "terminated", None));
    assert_eq!((b.background, b.text.as_str()), ("#dc3545", "job: terminated"));
}

#[test]
fn logs_choose_the_first_non_init_container() {
    let cs = Some(vec![init_container("setup", false, "init", None), container("main", true, "running", None)]);
    assert_eq!(logs_container(&cs).as_deref(), Some("main"));
    assert_eq!(logs_container(&Some(vec![init_container("setup", false, "init", None)])), None);
    let finished_init = Some(vec![
        init_container("init-db", false, "terminated", Some("Completed")),
        container("app", true, "running", None),
    ]);
    assert_eq!(logs_container(&finished_init).as_deref(), Some("app"));
    let running_init = Some(vec![
        init_container("sidecar", true, "running", None),
        container("web", false, "waiting", None),
    ]);
    assert_eq!(logs_container(&running_init).as_deref(), Some("web"));
    assert_eq!(logs_container(&None), None);
    assert_eq!(logs_title(&Some("main".to_string())), "Logs - main");
    assert_eq!(logs_title(&None), "Logs");
}

#[test]
fn port_and_endpoint_labels() {
    let p = ServicePort {
        port: 443,
        target_port: Some("8443".to_string()),
        protocol: None,
        name: Some("https".to_string()),
        node_port: Some(30443),
    };
    assert_eq!(service_port_text(&p), "https:443");
    assert_eq!(target_port_arrow(&p).as_deref(), Some("→8443"));
    assert_eq!(node_port_text(&Some("NodePort".to_string()), &p).as_deref(), Some("(NodePort:30443)"));
    assert_eq!(node_port_text(&Some("ClusterIP".to_string()), &p), None);
    assert_eq!(protocol_text(&p.protocol), "TCP");
    let q = ServicePort { port: 53, target_port: None, protocol: Some("UDP".to_string()), name: None, node_port: None };
    assert_eq!(service_port_text(&q), "53");
    assert_eq!(protocol_text(&q.protocol), "UDP");
    let sp = |port: Option<i64>, name: Option<&str>| EndpointSlicePort { port, protocol: None, name: name.map(|n| n.to_string()) };
    assert_eq!(slice_port_text(&sp(Some(80), Some("http"))), "http:80");
    assert_eq!(slice_port_text(&sp(Some(80), None)), "80");
    assert_eq!(slice_port_text(&sp(None, Some("http"))), "http");
    assert_eq!(slice_port_text(&sp(None, None)), "-");
    let e = EndpointSliceEndpoint {
        addresses: vec!["10.0.0.1".to_string(), "10.0.0.2".to_string()],
        ready: Some(true),
        serving: None,
        terminating: Some(false),
    };
    assert_eq!(endpoint_addresses_text(&e), "10.0.0.1, 10.0.0.2");
    assert_eq!(endpoint_status_text(&e), " (Ready, NotTerminating)");
    let none = EndpointSliceEndpoint { addresses: vec![], ready: None, serving: None, terminating: None };
    assert_eq!(endpoint_addresses_text(&none), "-");
    assert_eq!(endpoint_status_text(&none), "");
}

#[test]
fn cells_and_columns() {
    assert_eq!(cell_text(&None), "-");
    assert_eq!(cell_text(&Some("x".to_string())), "x");
    assert_eq!(modes_text(&None), "-");
    assert_eq!(modes_text(&Some(vec![])), "-");
    assert_eq!(modes_text(&Some(vec!["RWO".to_string(), "ROX".to_string()])), "RWO,ROX");
    let svc = gvk("", "v1", "Service");
    let cols = table_columns(&vec![summary(&svc, "s", None)]);
    assert!(cols.is_service && !cols.is_pv && !cols.is_pvc && !cols.is_endpointslice);
    let cols = table_columns(&vec![]);
    assert!(!cols.is_service);
    assert_eq!(context_choice(""), None);
    assert_eq!(context_choice("kind-dev").as_deref(), Some("kind-dev"));
    assert_eq!(default_context_label(&None), "default");
    assert_eq!(default_context_label(&Some("prod".to_string())), "prod");
}

#[test]
fn default_storage_class() {
    let sc = gvk("storage.k8s.io", "v1", "StorageClass");
    let mut it = summary(&sc, "fast", None);
    assert!(!is_default_storage_class(&it));
    it.annotations = obj(vec![("storageclass.kubernetes.io/is-default-class", s("TRUE"))]);
    assert!(is_default_storage_class(&it));
    it.annotations = obj(vec![("storageclass.beta.kubernetes.io/is-default-class", s("True"))]);
    assert!(is_default_storage_class(&it));
    it.annotations = obj(vec![("storageclass.kubernetes.io/is-default-class", s("yes"))]);
    assert!(!is_default_storage_class(&it));
    it.annotations = obj(vec![("storageclass.kubernetes.io/is-default-class", JsonValue::Bool(true))]);
    assert!(!is_default_storage_class(&it));
    assert!(equals_ignoring_ascii_case("TrUe", "true"));
    assert!(!equals_ignoring_ascii_case("tru", "true"));
    let _ = JsonNumber::PosInt(1);
}

#[test]
fn highlighting() {
    assert_eq!(highlight_matches("a <b> & c", ""), "a &lt;b&gt; &amp; c");
    let mark = "<mark style=\"background-color:#ffeb3b;color:#000;padding:0 2px;\">";
    assert_eq!(highlight_matches("Foo <x> foo", "FOO"), format!("{m}Foo</mark> &lt;x&gt; {m}foo</mark>", m = mark));
    assert_eq!(highlight_matches("abc", "zz"), "abc");
    assert_eq!(highlight_matches("a&b", "zz"), "a&amp;b");
    assert_eq!(highlight_matches("aaa", "aa"), format!("{m}aa</mark>a", m = mark));
    assert_eq!(highlight_matches("", "x"), "");
    assert_eq!(highlight_matches("é", "É"), format!("{m}é</mark>", m = mark));
    assert_eq!(highlight_matches("İabc", "b"), format!("İa{m}b</mark>c", m = mark));
    assert_eq!(highlight_matches("x<y", "<"), format!("x{m}&lt;</mark>y", m = mark));
    assert_eq!(escape_html("<a href=\"x\">&</a>"), "&lt;a href=\"x\"&gt;&amp;&lt;/a&gt;");
}

#[test]
fn namespace_menu_choice_and_selection() {
    assert_eq!(namespace_filter("All".to_string()), None);
    assert_eq!(namespace_filter("prod".to_string()).as_deref(), Some("prod"));
    assert!(namespace_option_selected("All", &None));
    assert!(!namespace_option_selected("prod", &None));
    assert!(namespace_option_selected("prod", &Some("prod".to_string())));
    assert!(!namespace_option_selected("All", &Some("prod".to_string())));
}

#[test]
fn menu_offers_each_builtin_type_once() {
    let mut menu: Vec<(String, String)> = Vec::new();
    for g in static_menu() {
        for i in g.items {
            assert!(!guess_plural(i.group, i.kind).is_empty());
            menu.push((i.group.to_string(), i.kind.to_string()));
        }
    }
    let mut targets = Vec::new();
    push_builtin_targets(&mut targets);
    let mut builtins: Vec<(String, String)> =
        targets.into_iter().map(|t| (t.gvk.group, t.gvk.kind)).collect();
    assert_eq!(menu.len(), 17);
    menu.sort();
    menu.dedup();
    assert_eq!(menu.len(), 17);
    builtins.sort();
    assert_eq!(menu, builtins);
}

fn shown(html: &str) -> String {
    html.replace("<mark style=\"background-color:#ffeb3b;color:#000;padding:0 2px;\">", "")
        .replace("</mark>", "")
        .replace("&lt;", "<")
        .replace("&gt;", ">")
        .replace("&amp;", "&")
}

#[test]
fn highlighted_text_shows_the_text_once() {
    let text = "kind: Pod\nname: <a & b>\nPOD again";
    let html = highlight_matches(text, "pod");
    assert!(html.contains("<mark"));
    assert_eq!(shown(&html), text);
    let plain = highlight_matches("no match here", "zzz");
    assert_eq!(shown(&plain), "no match here");
    let overlapping = highlight_matches("aaa\n", "aa");
    assert_eq!(shown(&overlapping), "aaa\n");
    assert_eq!(shown(&highlight_matches("İabc <b>", "B")), "İabc <b>");
    assert_eq!(shown(&highlight_matches("a <b> & c", "")), "a <b> & c");
}
