use kubelens::json::{JsonNumber, JsonValue};
use kubelens::display::logs_container;
use kubelens::summary::{summarize_dynamic, summarize_item, ContainerStatus, ObjectRecord, ResourceRefGvk};

fn copy_status(c: &ContainerStatus) -> ContainerStatus {
    ContainerStatus {
        name: c.name.clone(),
        ready: c.ready,
        state: c.state.clone(),
        reason: c.reason.clone(),
        init: c.init,
    }
}

fn s(x: &str) -> JsonValue {
    JsonValue::Str(x.to_string())
}

fn num(n: i64) -> JsonValue {
    if n < 0 {
        JsonValue::Number(JsonNumber::NegInt(n))
    } else {
        JsonValue::Number(JsonNumber::PosInt(n as u64))
    }
}

fn obj(members: Vec<(&str, JsonValue)>) -> JsonValue {
    JsonValue::Object(members.into_iter().map(|(k, v)| (k.to_string(), v)).collect())
}

fn arr(items: Vec<JsonValue>) -> JsonValue {
    JsonValue::Array(items)
}

fn gvk(group: &str, version: &str, kind: &str) -> ResourceRefGvk {
    ResourceRefGvk { group: group.to_string(), version: version.to_string(), kind: kind.to_string() }
}

fn record(data: JsonValue) -> ObjectRecord {
    ObjectRecord {
        name: Some("web".to_string()),
        namespace: Some("prod".to_string()),
        labels: Some(vec![("app".to_string(), "web".to_string())]),
        annotations: None,
        creation_timestamp: Some("2024-01-02T03:04:05+00:00".to_string()),
        data,
    }
}

fn pod_data() -> JsonValue {
    obj(vec![(
        "status",
        obj(vec![
            (
                "initContainerStatuses",
                arr(vec![
                    obj(vec![
                        ("name", s("setup")),
                        ("ready", JsonValue::Bool(false)),
                        ("state", obj(vec![("waiting", obj(vec![]))])),
                    ]),
                    obj(vec![
                        ("name", s("migrate")),
                        ("state", obj(vec![("terminated", obj(vec![("reason", s("Completed"))]))])),
                    ]),
                    obj(vec![("ready", JsonValue::Bool(true))]),
                ]),
            ),
            (
                "containerStatuses",
                arr(vec![
                    obj(vec![
                        ("name", s("main")),
                        ("ready", JsonValue::Bool(true)),
                        ("state", obj(vec![("running", obj(vec![]))])),
                    ]),
                    obj(vec![("name", s("sidecar")), ("state", obj(vec![("waiting", obj(vec![]))]))]),
                    obj(vec![("name", s("odd")), ("state", obj(vec![("paused", obj(vec![]))]))]),
                    obj(vec![("name", s("new"))]),
                ]),
            ),
        ]),
    )])
}

#[test]
fn pod_summary_lists_init_then_regular_containers() {
    let r = summarize_dynamic(&record(pod_data()), &gvk("", "v1", "Pod"));
    assert_eq!(r.reference.name, "web");
    assert_eq!(r.reference.namespace.as_deref(), Some("prod"));
    assert_eq!(r.reference.kind, "Pod");
    assert_eq!(r.creation_timestamp.as_deref(), Some("2024-01-02T03:04:05+00:00"));
    let cs = r.container_statuses.expect("pod has statuses");
    let marks: Vec<bool> = cs.iter().map(|c| c.init).collect();
    assert_eq!(marks, vec![true, true, false, false, false, false]);
    assert_eq!(logs_container(&Some(cs.iter().map(copy_status).collect())).as_deref(), Some("main"));
    let got: Vec<(String, bool, String, Option<String>)> =
        cs.into_iter().map(|c| (c.name, c.ready, c.state, c.reason)).collect();
    assert_eq!(
        got,
        vec![
            ("setup".to_string(), false, "init".to_string(), None),
            ("migrate".to_string(), false, "terminated".to_string(), Some("Completed".to_string())),
            ("main".to_string(), true, "running".to_string(), None),
            ("sidecar".to_string(), false, "waiting".to_string(), None),
            ("odd".to_string(), false, "unknown".to_string(), None),
            ("new".to_string(), false, "unknown".to_string(), None),
        ]
    );
    assert!(r.service_ports.is_none());
    assert!(r.pv_status.is_none());
    match r.labels {
        JsonValue::Object(m) => {
            assert_eq!(m.len(), 1);
            assert_eq!(m[0].0, "app");
            assert!(matches!(&m[0].1, JsonValue::Str(v) if v == "web"));
        }
        _ => panic!("labels are an object"),
    }
    assert!(matches!(r.annotations, JsonValue::Null));
}

#[test]
fn pod_without_statuses_has_none() {
    let r = summarize_dynamic(&record(obj(vec![("status", obj(vec![]))])), &gvk("", "v1", "Pod"));
    assert!(r.container_statuses.is_none());
    let r = summarize_dynamic(&record(obj(vec![])), &gvk("", "v1", "Pod"));
    assert!(r.container_statuses.is_none());
}

#[test]
fn pod_of_another_group_gets_no_statuses() {
    let r = summarize_dynamic(&record(pod_data()), &gvk("metrics.k8s.io", "v1beta1", "Pod"));
    assert!(r.container_statuses.is_none());
}

#[test]
fn service_summary_reads_ports_and_type() {
    let data = obj(vec![(
        "spec",
        obj(vec![
            ("type", s("NodePort")),
            (
                "ports",
                arr(vec![
                    obj(vec![
                        ("name", s("http")),
                        ("port", num(80)),
                        ("targetPort", num(8080)),
                        ("protocol", s("TCP")),
                        ("nodePort", num(30080)),
                    ]),
                    obj(vec![("targetPort", s("metrics"))]),
                    obj(vec![("port", num(-5)), ("targetPort", JsonValue::Number(JsonNumber::Float("1.5".to_string())))]),
                ]),
            ),
        ]),
    )]);
    let r = summarize_dynamic(&record(data), &gvk("", "v1", "Service"));
    assert_eq!(r.service_type.as_deref(), Some("NodePort"));
    let ports = r.service_ports.expect("ports");
    assert_eq!(ports.len(), 3);
    assert_eq!(ports[0].port, 80);
    assert_eq!(ports[0].target_port.as_deref(), Some("8080"));
    assert_eq!(ports[0].name.as_deref(), Some("http"));
    assert_eq!(ports[0].node_port, Some(30080));
    assert_eq!(ports[1].port, 0);
    assert_eq!(ports[1].target_port.as_deref(), Some("metrics"));
    assert_eq!(ports[2].port, -5);
    assert_eq!(ports[2].target_port, None);
}

#[test]
fn service_without_ports_keeps_its_type() {
    let data = obj(vec![("spec", obj(vec![("type", s("ClusterIP")), ("ports", arr(vec![]))]))]);
    let r = summarize_dynamic(&record(data), &gvk("", "v1", "Service"));
    assert!(r.service_ports.is_none());
    assert_eq!(r.service_type.as_deref(), Some("ClusterIP"));
}

#[test]
fn persistent_volume_fields_and_claim() {
    let data = obj(vec![
        (
            "spec",
            obj(vec![
                ("capacity", obj(vec![("storage", s("10Gi"))])),
                ("accessModes", arr(vec![s("ReadWriteOnce"), num(3), s("ReadOnlyMany")])),
                ("persistentVolumeReclaimPolicy", s("Retain")),
                ("storageClassName", s("fast")),
            ]),
        ),
        (
            "status",
            obj(vec![
                ("phase", s("Bound")),
                ("claimRef", obj(vec![("namespace", s("prod")), ("name", s("data"))])),
            ]),
        ),
    ]);
    let r = summarize_dynamic(&record(data), &gvk("", "v1", "PersistentVolume"));
    assert_eq!(r.pv_capacity.as_deref(), Some("10Gi"));
    assert_eq!(r.pv_access_modes, Some(vec!["ReadWriteOnce".to_string(), "ReadOnlyMany".to_string()]));
    assert_eq!(r.pv_reclaim_policy.as_deref(), Some("Retain"));
    assert_eq!(r.pv_status.as_deref(), Some("Bound"));
    assert_eq!(r.pv_claim.as_deref(), Some("prod/data"));
    assert_eq!(r.pv_storage_class.as_deref(), Some("fast"));
    assert_eq!(r.pv_volume_attributes_class, None);
    assert_eq!(r.pv_reason, None);
    assert!(r.pvc_status.is_none());
}

#[test]
fn claim_needs_both_namespace_and_name() {
    let data = obj(vec![("status", obj(vec![("claimRef", obj(vec![("name", s("data"))]))]))]);
    let r = summarize_dynamic(&record(data), &gvk("", "v1", "PersistentVolume"));
    assert_eq!(r.pv_claim, None);
}

#[test]
fn persistent_volume_claim_fields() {
    let data = obj(vec![
        (
            "spec",
            obj(vec![
                ("accessModes", arr(vec![s("ReadWriteMany")])),
                ("volumeName", s("pv-1")),
                ("volumeAttributesClassName", s("gold")),
            ]),
        ),
        ("status", obj(vec![("phase", s("Pending")), ("capacity", obj(vec![("storage", s("1Gi"))]))])),
    ]);
    let r = summarize_dynamic(&record(data), &gvk("", "v1", "PersistentVolumeClaim"));
    assert_eq!(r.pvc_status.as_deref(), Some("Pending"));
    assert_eq!(r.pvc_volume.as_deref(), Some("pv-1"));
    assert_eq!(r.pvc_capacity.as_deref(), Some("1Gi"));
    assert_eq!(r.pvc_access_modes, Some(vec!["ReadWriteMany".to_string()]));
    assert_eq!(r.pvc_storage_class, None);
    assert_eq!(r.pvc_volume_attributes_class.as_deref(), Some("gold"));
    assert!(r.pv_status.is_none());
}

#[test]
fn endpoint_slice_ports_and_endpoints() {
    let data = obj(vec![
        ("ports", arr(vec![obj(vec![("port", num(443)), ("name", s("https")), ("protocol", s("TCP"))])])),
        (
            "endpoints",
            arr(vec![
                obj(vec![
                    ("addresses", arr(vec![s("10.0.0.1"), JsonValue::Null, s("10.0.0.2")])),
                    ("conditions", obj(vec![("ready", JsonValue::Bool(true)), ("terminating", JsonValue::Bool(false))])),
                ]),
                obj(vec![]),
            ]),
        ),
    ]);
    let r = summarize_dynamic(&record(data), &gvk("discovery.k8s.io", "v1", "EndpointSlice"));
    let ports = r.endpointslice_ports.expect("ports");
    assert_eq!(ports.len(), 1);
    assert_eq!(ports[0].port, Some(443));
    assert_eq!(ports[0].name.as_deref(), Some("https"));
    let eps = r.endpointslice_endpoints.expect("endpoints");
    assert_eq!(eps.len(), 2);
    assert_eq!(eps[0].addresses, vec!["10.0.0.1".to_string(), "10.0.0.2".to_string()]);
    assert_eq!(eps[0].ready, Some(true));
    assert_eq!(eps[0].serving, None);
    assert_eq!(eps[0].terminating, Some(false));
    assert!(eps[1].addresses.is_empty());
}

#[test]
fn endpoint_slice_in_core_group_is_not_read() {
    let data = obj(vec![("ports", arr(vec![obj(vec![("port", num(1))])]))]);
    let r = summarize_dynamic(&record(data), &gvk("", "v1", "EndpointSlice"));
    assert!(r.endpointslice_ports.is_none());
}

#[test]
fn unnamed_object_gets_empty_name() {
    let mut rec = record(obj(vec![]));
    rec.name = None;
    rec.namespace = None;
    rec.labels = None;
    let r = summarize_dynamic(&rec, &gvk("apps", "v1", "Deployment"));
    assert_eq!(r.reference.name, "");
    assert_eq!(r.reference.namespace, None);
    assert!(matches!(r.labels, JsonValue::Null));
    assert_eq!(r.reference.group, "apps");
}

#[test]
fn item_summary_reads_metadata_from_the_document() {
    let item = obj(vec![
        (
            "metadata",
            obj(vec![
                ("name", s("cfg")),
                ("namespace", s("dev")),
                ("labels", obj(vec![("tier", s("db"))])),
                ("creationTimestamp", s("2024-05-06T07:08:09Z")),
            ]),
        ),
        ("data", obj(vec![])),
    ]);
    let r = summarize_item(&item, &gvk("", "v1", "ConfigMap"));
    assert_eq!(r.reference.name, "cfg");
    assert_eq!(r.reference.namespace.as_deref(), Some("dev"));
    assert_eq!(r.creation_timestamp.as_deref(), Some("2024-05-06T07:08:09Z"));
    assert!(matches!(r.annotations, JsonValue::Null));
    match r.labels {
        JsonValue::Object(m) => assert_eq!(m[0].0, "tier"),
        _ => panic!("labels copied"),
    }
}

fn status_rows(r: &Option<Vec<ContainerStatus>>) -> Vec<(String, bool, String, Option<String>, bool)> {
    match r {
        Some(cs) => cs.iter().map(|c| (c.name.clone(), c.ready, c.state.clone(), c.reason.clone(), c.init)).collect(),
        None => Vec::new(),
    }
}

fn label_rows(v: &JsonValue) -> Vec<(String, String)> {
    match v {
        JsonValue::Object(m) => m
            .iter()
            .map(|(k, v)| match v {
                JsonValue::Str(t) => (k.clone(), t.clone()),
                _ => (k.clone(), String::new()),
            })
            .collect(),
        _ => Vec::new(),
    }
}

#[test]
fn watched_pod_summary_matches_listed_one() {
    let status = match pod_data() {
        JsonValue::Object(mut m) => m.remove(0).1,
        _ => unreachable!(),
    };
    let item = obj(vec![
        ("apiVersion", s("v1")),
        ("kind", s("Pod")),
        (
            "metadata",
            obj(vec![
                ("name", s("web")),
                ("namespace", s("prod")),
                ("labels", obj(vec![("app", s("web"))])),
                ("creationTimestamp", s("2024-01-02T03:04:05Z")),
            ]),
        ),
        ("status", status),
    ]);
    let watched = summarize_item(&item, &gvk("", "v1", "Pod"));
    let listed = summarize_dynamic(&record(pod_data()), &gvk("", "v1", "Pod"));
    assert_eq!(watched.reference.name, listed.reference.name);
    assert_eq!(watched.reference.namespace, listed.reference.namespace);
    assert_eq!(watched.reference.kind, listed.reference.kind);
    assert_eq!(label_rows(&watched.labels), label_rows(&listed.labels));
    assert_eq!(status_rows(&watched.container_statuses), status_rows(&listed.container_statuses));
    assert_eq!(watched.creation_timestamp.as_deref(), Some("2024-01-02T03:04:05Z"));
    assert_eq!(listed.creation_timestamp.as_deref(), Some("2024-01-02T03:04:05+00:00"));
}
