use kubelens::commands::{
    clipboard_error_message, contexts_json, copy_failed_message, describe_timeout_secs, greet,
    is_find_shortcut, lock_failed_message, logs_previous, logs_timeout_secs, parse_contexts,
    pod_log_request, K8sSettings, OverviewLoads,
};
use kubelens::errors::format_error;
use kubelens::json::JsonValue;
use kubelens::overview::{
    crd_summary, crd_target, finish_overview, group_from_listing, listing_timeout_message, overview_without_client,
    plan_overview, CallFailure, CrdRecord, CrdVersion, ListTarget,
};
use kubelens::plural::{checked_resource_plural, guess_plural, plural_or_guess, resource_plural};
use kubelens::summary::{ObjectRecord, ResourceRefGvk};
use kubelens::text::decimal_string;

fn gvk(group: &str, version: &str, kind: &str) -> ResourceRefGvk {
    ResourceRefGvk { group: group.to_string(), version: version.to_string(), kind: kind.to_string() }
}

fn crd(kind: &str, scope: &str, versions: Vec<(&str, bool)>) -> CrdRecord {
    CrdRecord {
        name: Some(format!("{}s.example.com", kind.to_lowercase())),
        group: "example.com".to_string(),
        versions: versions
            .into_iter()
            .map(|(n, s)| CrdVersion { name: n.to_string(), storage: s })
            .collect(),
        scope: scope.to_string(),
        plural: format!("{}s", kind.to_lowercase()),
        kind: kind.to_string(),
    }
}

#[test]
fn format_error_fixed_messages() {
    assert_eq!(
        format_error("error trying to connect: client error (Connect)"),
        "Failed to connect to Kubernetes cluster. Please check your network connection or cluster configuration"
    );
    assert_eq!(format_error("failed to load kubeconfig: no file"), "Failed to load kubeconfig file");
    assert_eq!(
        format_error("failed to infer kube config (in-cluster or kubeconfig)"),
        "Failed to auto-detect Kubernetes configuration"
    );
    assert_eq!(format_error("request timeout"), "Operation timed out. Please try again later");
}

#[test]
fn format_error_rewrites_client_errors() {
    assert_eq!(format_error("  client error: boom (x)  "), "Connection error: boom (x");
    assert_eq!(format_error("client error: boom"), "Connection error: boom");
    assert_eq!(format_error("client error (Connect refused)"), "Connection failed refused");
    assert_eq!(format_error("client error (SendRequest)"), "SendRequest");
}

#[test]
fn format_error_strips_type_names() {
    assert_eq!(format_error("kube::Error(Api error)"), "Api error)");
    assert_eq!(format_error(" kube::config::Thing "), "config::Thing");
    assert_eq!(format_error("plain"), "plain");
}

#[test]
fn guess_plural_table() {
    assert_eq!(guess_plural("", "Pod"), "pods");
    assert_eq!(guess_plural("apps", "Deployment"), "deployments");
    assert_eq!(guess_plural("networking.k8s.io", "Ingress"), "ingresses");
    assert_eq!(guess_plural("storage.k8s.io", "StorageClass"), "storageclasses");
    assert_eq!(guess_plural("apps", "Pod"), "");
    assert_eq!(guess_plural("example.com", "Widget"), "");
}

#[test]
fn resource_plural_follows_kube() {
    assert_eq!(resource_plural("", "v1", "Pod"), "pods");
    assert_eq!(resource_plural("networking.k8s.io", "v1", "Ingress"), "ingresses");
    assert_eq!(resource_plural("", "v1", "Endpoints"), "endpoints");
    assert_eq!(resource_plural("networking.k8s.io", "v1", "NetworkPolicy"), "networkpolicies");
    assert_eq!(resource_plural("example.com", "v1", "Gateway"), "gateways");
    assert_eq!(resource_plural("metrics.k8s.io", "v1beta1", "NodeMetrics"), "nodes");
    assert_eq!(resource_plural("example.com", "v1", "Box"), "boxes");
    assert_eq!(resource_plural("example.com", "v1", "Brush"), "brushes");
    assert_eq!(resource_plural("example.com", "v1", "Éy"), "Éies");
    assert_eq!(resource_plural("example.com", "v1", "Éay"), "Éaies");
    assert_eq!(resource_plural("example.com", "v1", "Relay"), "relays");
    assert_eq!(checked_resource_plural("", "v1", "y"), None);
    assert_eq!(checked_resource_plural("", "v1", "Y"), None);
    assert_eq!(checked_resource_plural("", "v1", "Node").as_deref(), Some("nodes"));
}

#[test]
fn plural_falls_back_to_the_table_when_empty() {
    assert_eq!(plural_or_guess(String::new(), "", "Secret"), "secrets");
    assert_eq!(plural_or_guess("things".to_string(), "", "Secret"), "things");
}

#[test]
fn decimal_rendering() {
    assert_eq!(decimal_string(0), "0");
    assert_eq!(decimal_string(42), "42");
    assert_eq!(decimal_string(-7), "-7");
    assert_eq!(decimal_string(i64::MIN), i64::MIN.to_string());
    assert_eq!(decimal_string(i64::MAX), i64::MAX.to_string());
}

#[test]
fn crd_summary_and_target() {
    let c = crd("Widget", "Namespaced", vec![("v1alpha1", false), ("v1", true), ("v2", true)]);
    let s = crd_summary(&c);
    assert_eq!(s.name, "widgets.example.com");
    assert_eq!(s.versions, vec!["v1alpha1", "v1", "v2"]);
    assert_eq!(s.scope, "Namespaced");
    let t = crd_target(&c).expect("has versions");
    assert_eq!(t.gvk.version, "v1");
    assert_eq!(t.gvk.kind, "Widget");
    assert_eq!(t.plural, "widgets");
    assert!(t.namespaced);
    let c2 = crd("Gadget", "Cluster", vec![("v1beta1", false), ("v1", false)]);
    let t2 = crd_target(&c2).expect("has versions");
    assert_eq!(t2.gvk.version, "v1beta1");
    assert!(!t2.namespaced);
    assert!(crd_target(&crd("Empty", "Namespaced", vec![])).is_none());
    assert!(crd_target(&crd("Shouty", "NAMESPACED", vec![("v1", true)])).unwrap().namespaced);
}

#[test]
fn plan_lists_definitions_then_builtins() {
    let plan = plan_overview(Ok(vec![crd("Widget", "Namespaced", vec![("v1", true)])]));
    assert_eq!(plan.crds.len(), 1);
    assert_eq!(plan.targets.len(), 18);
    assert_eq!(plan.targets[0].gvk.kind, "Widget");
    assert_eq!(plan.targets[1].gvk.kind, "Pod");
    assert_eq!(plan.targets[1].plural, "pods");
    assert!(!plan.targets[5].namespaced);
    assert_eq!(plan.targets[5].gvk.kind, "PersistentVolume");
    assert_eq!(plan.targets[17].gvk.kind, "StorageClass");
    assert_eq!(plan.targets[17].gvk.group, "storage.k8s.io");
    assert!(plan.errors.is_empty());
}

#[test]
fn plan_keeps_builtins_when_definitions_fail() {
    let plan = plan_overview(Err(CallFailure::TimedOut));
    assert!(plan.crds.is_empty());
    assert_eq!(plan.targets.len(), 17);
    assert_eq!(plan.errors, vec!["Operation timed out. Please try again later".to_string()]);
    let plan = plan_overview(Err(CallFailure::Error("kube::Error(forbidden)".to_string())));
    assert_eq!(plan.errors, vec!["forbidden)".to_string()]);
}

#[test]
fn listing_timeout_names_the_type() {
    assert_eq!(listing_timeout_message(&gvk("", "v1", "Pod")), "Timeout while listing Pod.v1 core resources");
    assert_eq!(
        listing_timeout_message(&gvk("apps", "v1", "Deployment")),
        "Timeout while listing Deployment.v1 apps resources"
    );
}

#[test]
fn groups_from_listings() {
    let t = ListTarget { gvk: gvk("", "v1", "ConfigMap"), plural: "configmaps".to_string(), namespaced: true };
    let objs = vec![
        ObjectRecord {
            name: Some("a".to_string()),
            namespace: Some("x".to_string()),
            labels: None,
            annotations: None,
            creation_timestamp: None,
            data: JsonValue::Null,
        },
        ObjectRecord {
            name: Some("b".to_string()),
            namespace: Some("y".to_string()),
            labels: None,
            annotations: None,
            creation_timestamp: None,
            data: JsonValue::Null,
        },
    ];
    let g = group_from_listing(&t, Ok(objs));
    assert_eq!(g.items.len(), 2);
    assert_eq!(g.items[1].reference.name, "b");
    assert!(g.errors.is_empty());
    assert!(g.namespaced);
    let g = group_from_listing(&t, Err(CallFailure::TimedOut));
    assert!(g.items.is_empty());
    assert_eq!(g.errors, vec!["Timeout while listing ConfigMap.v1 core resources".to_string()]);
    let g = group_from_listing(&t, Err(CallFailure::Error("request timeout".to_string())));
    assert_eq!(g.errors, vec!["Operation timed out. Please try again later".to_string()]);
}

#[test]
fn overview_without_a_client() {
    let o = overview_without_client(&CallFailure::Error("client error (Connect)".to_string()));
    assert!(o.crds.is_empty());
    assert!(o.resources.is_empty());
    assert_eq!(o.errors.len(), 1);
    assert!(o.errors[0].starts_with("Failed to connect"));
}

#[test]
fn greeting() {
    assert_eq!(greet("Ada"), "Hello, Ada! You've been greeted from Rust!");
}

#[test]
fn settings_hand_back_watchers() {
    let mut s: K8sSettings<u32> = K8sSettings::new();
    s.add_watcher(1);
    s.add_watcher(2);
    let stopped = s.set_context(Some("prod".to_string()));
    assert_eq!(stopped, vec![1, 2]);
    assert!(s.watcher_cancels.is_empty());
    assert_eq!(s.selected_context.as_deref(), Some("prod"));
    s.add_watcher(3);
    assert_eq!(s.take_watchers(), vec![3]);
    assert_eq!(s.selected_context.as_deref(), Some("prod"));
}

#[test]
fn contexts_round_trip() {
    let v = contexts_json(&vec!["a".to_string(), "b".to_string()], &Some("b".to_string()));
    let l = parse_contexts(&v);
    assert_eq!(l.names, vec!["a", "b"]);
    assert_eq!(l.current.as_deref(), Some("b"));
    let v = contexts_json(&vec![], &None);
    let l = parse_contexts(&v);
    assert!(l.names.is_empty());
    assert_eq!(l.current.as_deref(), Some(""));
}

#[test]
fn log_and_describe_parameters() {
    let a = pod_log_request("ns".to_string(), "p".to_string(), None);
    assert_eq!(a.tail_lines, Some(200));
    assert!(!logs_previous(&a));
    assert_eq!(logs_timeout_secs(&a), 5);
    let mut b = pod_log_request("ns".to_string(), "p".to_string(), Some("c".to_string()));
    b.previous = None;
    b.timeout_secs = None;
    assert!(!logs_previous(&b));
    assert_eq!(logs_timeout_secs(&b), 5);
    b.previous = Some(true);
    b.timeout_secs = Some(9);
    assert!(logs_previous(&b));
    assert_eq!(logs_timeout_secs(&b), 9);
    assert_eq!(describe_timeout_secs(None), 3);
    assert_eq!(describe_timeout_secs(Some(10)), 10);
}

#[test]
fn command_messages() {
    assert_eq!(clipboard_error_message("kube::oops"), "Clipboard error: oops");
    assert_eq!(copy_failed_message("x"), "Failed to copy to clipboard: x");
    assert_eq!(lock_failed_message(), "Settings lock failed");
    assert!(is_find_shortcut(true, false, 70));
    assert!(is_find_shortcut(false, true, 70));
    assert!(!is_find_shortcut(false, false, 70));
    assert!(!is_find_shortcut(true, true, 71));
}

#[test]
fn overview_loads_drop_overlaps() {
    let mut l = OverviewLoads::new();
    assert_eq!(l.begin(), Some(1));
    assert_eq!(l.begin(), None);
    assert!(l.finish(1));
    assert_eq!(l.begin(), Some(2));
    assert!(!l.finish(1));
    assert!(!l.fetching);
}

#[test]
fn overview_has_one_group_per_listed_type() {
    let plan = plan_overview(Ok(vec![crd("Widget", "Namespaced", vec![("v1", true)])]));
    let kinds: Vec<String> = plan.targets.iter().map(|t| t.gvk.kind.clone()).collect();
    assert_eq!(kinds.len(), 18);
    let mut fetched = Vec::new();
    for i in 0..kinds.len() {
        if i == 1 {
            fetched.push(Err(CallFailure::TimedOut));
        } else {
            fetched.push(Ok(Vec::new()));
        }
    }
    let ov = finish_overview(plan, fetched);
    assert_eq!(ov.resources.len(), 18);
    for (g, k) in ov.resources.iter().zip(kinds.iter()) {
        assert_eq!(&g.gvk.kind, k);
    }
    assert_eq!(ov.resources[1].errors.len(), 1);
    assert!(ov.resources[0].errors.is_empty());
}
