//! Summaries of listed cluster objects: the reference of each object, its
//! labels and annotations, and the fields that the overview shows for pods,
//! services, persistent volumes and their claims, and endpoint slices.
use vstd::prelude::*;
use crate::json::{
    JsonValue, field, field_of, as_str, as_i64, str_at, i64_at, bool_at, array_at, deref_opt,
    get_in, str_in, i64_in, bool_in, array_in, same_json, copy_json,
};
use crate::text::{decimal, decimal_string, owned, clone_opt, str_eq};

verus! {

// ---------------------------------------------------------------------------
// Types
// ---------------------------------------------------------------------------

/// Group, version and kind of a resource type.
pub struct ResourceRefGvk {
    pub group: String,
    pub version: String,
    pub kind: String,
}

/// Reference to one object.
pub struct ResourceRef {
    pub group: String,
    pub version: String,
    pub kind: String,
    pub namespace: Option<String>,
    pub name: String,
}

/// State of one container of a pod.
pub struct ContainerStatus {
    pub name: String,
    pub ready: bool,
    /// "running", "waiting", "terminated", "init" or "unknown"
    pub state: String,
    /// Reason given when the container terminated.
    pub reason: Option<String>,
    /// Whether the entry comes from the pod's init containers.
    pub init: bool,
}

/// One port of a service.
pub struct ServicePort {
    pub port: i64,
    /// The target port, as text whether it was given as a name or a number.
    pub target_port: Option<String>,
    pub protocol: Option<String>,
    pub name: Option<String>,
    pub node_port: Option<i64>,
}

/// One port of an endpoint slice.
pub struct EndpointSlicePort {
    pub port: Option<i64>,
    pub protocol: Option<String>,
    pub name: Option<String>,
}

/// One endpoint of an endpoint slice.
pub struct EndpointSliceEndpoint {
    pub addresses: Vec<String>,
    pub ready: Option<bool>,
    pub serving: Option<bool>,
    pub terminating: Option<bool>,
}

/// What the overview shows of one object.
pub struct ResourceSummary {
    pub reference: ResourceRef,
    pub labels: JsonValue,
    pub annotations: JsonValue,
    pub creation_timestamp: Option<String>,
    pub container_statuses: Option<Vec<ContainerStatus>>,
    pub service_ports: Option<Vec<ServicePort>>,
    pub service_type: Option<String>,
    pub pv_capacity: Option<String>,
    pub pv_access_modes: Option<Vec<String>>,
    pub pv_reclaim_policy: Option<String>,
    pub pv_status: Option<String>,
    pub pv_claim: Option<String>,
    pub pv_storage_class: Option<String>,
    pub pv_volume_attributes_class: Option<String>,
    pub pv_reason: Option<String>,
    pub pvc_status: Option<String>,
    pub pvc_volume: Option<String>,
    pub pvc_capacity: Option<String>,
    pub pvc_access_modes: Option<Vec<String>>,
    pub pvc_storage_class: Option<String>,
    pub pvc_volume_attributes_class: Option<String>,
    pub endpointslice_ports: Option<Vec<EndpointSlicePort>>,
    pub endpointslice_endpoints: Option<Vec<EndpointSliceEndpoint>>,
}

/// A listed object as the summary reads it: its metadata and the rest of its
/// document.
pub struct ObjectRecord {
    pub name: Option<String>,
    pub namespace: Option<String>,
    /// Labels in key order.
    pub labels: Option<Vec<(String, String)>>,
    /// Annotations in key order.
    pub annotations: Option<Vec<(String, String)>>,
    /// Creation time in RFC 3339 form.
    pub creation_timestamp: Option<String>,
    /// The document without its metadata.
    pub data: JsonValue,
}

/// The fields shown for a persistent volume.
pub struct PersistentVolumeFields {
    pub capacity: Option<String>,
    pub access_modes: Option<Vec<String>>,
    pub reclaim_policy: Option<String>,
    pub status: Option<String>,
    pub claim: Option<String>,
    pub storage_class: Option<String>,
    pub volume_attributes_class: Option<String>,
    pub reason: Option<String>,
}

/// The fields shown for a persistent volume claim.
pub struct PersistentVolumeClaimFields {
    pub status: Option<String>,
    pub volume: Option<String>,
    pub capacity: Option<String>,
    pub access_modes: Option<Vec<String>>,
    pub storage_class: Option<String>,
    pub volume_attributes_class: Option<String>,
}

// ---------------------------------------------------------------------------
// Views
// ---------------------------------------------------------------------------

pub struct GvkView {
    pub group: Seq<char>,
    pub version: Seq<char>,
    pub kind: Seq<char>,
}

impl DeepView for ResourceRefGvk {
    type V = GvkView;

    open spec fn deep_view(&self) -> GvkView {
        GvkView { group: self.group@, version: self.version@, kind: self.kind@ }
    }
}

impl ResourceRefGvk {
    /// A copy holding the same texts.
    pub fn copy(&self) -> (r: ResourceRefGvk)
        ensures
            r.deep_view() == self.deep_view(),
    {
        ResourceRefGvk {
            group: self.group.clone(),
            version: self.version.clone(),
            kind: self.kind.clone(),
        }
    }
}

pub struct ContainerStatusView {
    pub name: Seq<char>,
    pub ready: bool,
    pub state: Seq<char>,
    pub reason: Option<Seq<char>>,
    pub init: bool,
}

impl DeepView for ContainerStatus {
    type V = ContainerStatusView;

    open spec fn deep_view(&self) -> ContainerStatusView {
        ContainerStatusView {
            name: self.name@,
            ready: self.ready,
            state: self.state@,
            reason: self.reason.deep_view(),
            init: self.init,
        }
    }
}

pub struct ServicePortView {
    pub port: i64,
    pub target_port: Option<Seq<char>>,
    pub protocol: Option<Seq<char>>,
    pub name: Option<Seq<char>>,
    pub node_port: Option<i64>,
}

impl DeepView for ServicePort {
    type V = ServicePortView;

    open spec fn deep_view(&self) -> ServicePortView {
        ServicePortView {
            port: self.port,
            target_port: self.target_port.deep_view(),
            protocol: self.protocol.deep_view(),
            name: self.name.deep_view(),
            node_port: self.node_port,
        }
    }
}

pub struct EndpointSlicePortView {
    pub port: Option<i64>,
    pub protocol: Option<Seq<char>>,
    pub name: Option<Seq<char>>,
}

impl DeepView for EndpointSlicePort {
    type V = EndpointSlicePortView;

    open spec fn deep_view(&self) -> EndpointSlicePortView {
        EndpointSlicePortView {
            port: self.port,
            protocol: self.protocol.deep_view(),
            name: self.name.deep_view(),
        }
    }
}

pub struct EndpointSliceEndpointView {
    pub addresses: Seq<Seq<char>>,
    pub ready: Option<bool>,
    pub serving: Option<bool>,
    pub terminating: Option<bool>,
}

impl DeepView for EndpointSliceEndpoint {
    type V = EndpointSliceEndpointView;

    open spec fn deep_view(&self) -> EndpointSliceEndpointView {
        EndpointSliceEndpointView {
            addresses: self.addresses.deep_view(),
            ready: self.ready,
            serving: self.serving,
            terminating: self.terminating,
        }
    }
}

pub struct PersistentVolumeFieldsView {
    pub capacity: Option<Seq<char>>,
    pub access_modes: Option<Seq<Seq<char>>>,
    pub reclaim_policy: Option<Seq<char>>,
    pub status: Option<Seq<char>>,
    pub claim: Option<Seq<char>>,
    pub storage_class: Option<Seq<char>>,
    pub volume_attributes_class: Option<Seq<char>>,
    pub reason: Option<Seq<char>>,
}

impl DeepView for PersistentVolumeFields {
    type V = PersistentVolumeFieldsView;

    open spec fn deep_view(&self) -> PersistentVolumeFieldsView {
        PersistentVolumeFieldsView {
            capacity: self.capacity.deep_view(),
            access_modes: self.access_modes.deep_view(),
            reclaim_policy: self.reclaim_policy.deep_view(),
            status: self.status.deep_view(),
            claim: self.claim.deep_view(),
            storage_class: self.storage_class.deep_view(),
            volume_attributes_class: self.volume_attributes_class.deep_view(),
            reason: self.reason.deep_view(),
        }
    }
}

pub struct PersistentVolumeClaimFieldsView {
    pub status: Option<Seq<char>>,
    pub volume: Option<Seq<char>>,
    pub capacity: Option<Seq<char>>,
    pub access_modes: Option<Seq<Seq<char>>>,
    pub storage_class: Option<Seq<char>>,
    pub volume_attributes_class: Option<Seq<char>>,
}

impl DeepView for PersistentVolumeClaimFields {
    type V = PersistentVolumeClaimFieldsView;

    open spec fn deep_view(&self) -> PersistentVolumeClaimFieldsView {
        PersistentVolumeClaimFieldsView {
            status: self.status.deep_view(),
            volume: self.volume.deep_view(),
            capacity: self.capacity.deep_view(),
            access_modes: self.access_modes.deep_view(),
            storage_class: self.storage_class.deep_view(),
            volume_attributes_class: self.volume_attributes_class.deep_view(),
        }
    }
}

// ---------------------------------------------------------------------------
// Specification of the extraction
// ---------------------------------------------------------------------------

/// The empty group is the core API group.
pub open spec fn is_core(group: Seq<char>) -> bool {
    group.len() == 0
}

/// State label and termination reason of a container status entry. An entry
/// that waits is labelled "init" among init containers, "waiting" otherwise.
pub open spec fn container_state_spec(c: JsonValue, init: bool) -> (Seq<char>, Option<Seq<char>>) {
    let st = field(c, "state"@);
    if st is None {
        ("unknown"@, None)
    } else if field_of(st, "waiting"@) is Some {
        (if init { "init"@ } else { "waiting"@ }, None)
    } else if field_of(st, "running"@) is Some {
        ("running"@, None)
    } else if field_of(st, "terminated"@) is Some {
        ("terminated"@, str_at(field_of(st, "terminated"@), "reason"@))
    } else {
        ("unknown"@, None)
    }
}

/// The status of one container entry; entries without a name are skipped.
pub open spec fn container_status_spec(c: JsonValue, init: bool) -> Option<ContainerStatusView> {
    match str_at(Some(c), "name"@) {
        Some(name) => Some(
            ContainerStatusView {
                name: name,
                ready: match bool_at(Some(c), "ready"@) {
                    Some(b) => b,
                    None => false,
                },
                state: container_state_spec(c, init).0,
                reason: container_state_spec(c, init).1,
                init: init,
            },
        ),
        None => None,
    }
}

/// The statuses of the named entries of `arr`, in order.
pub open spec fn container_list(arr: Seq<JsonValue>, init: bool) -> Seq<ContainerStatusView>
    decreases arr.len(),
{
    if arr.len() == 0 {
        Seq::empty()
    } else {
        let rest = container_list(arr.drop_last(), init);
        match container_status_spec(arr.last(), init) {
            Some(e) => rest.push(e),
            None => rest,
        }
    }
}

/// An optional array, empty when absent.
pub open spec fn or_empty(a: Option<Seq<JsonValue>>) -> Seq<JsonValue> {
    match a {
        Some(s) => s,
        None => Seq::empty(),
    }
}

/// Container statuses of a pod document: init containers first, then regular
/// containers; absent when the document has no status or lists none.
pub open spec fn pod_statuses_spec(data: JsonValue) -> Option<Seq<ContainerStatusView>> {
    let status = field(data, "status"@);
    if status is None {
        None
    } else {
        let all = container_list(or_empty(array_at(status, "initContainerStatuses"@)), true)
            + container_list(or_empty(array_at(status, "containerStatuses"@)), false);
        if all.len() > 0 {
            Some(all)
        } else {
            None
        }
    }
}

/// A target port given as a string or as an integer, as text.
pub open spec fn target_port_spec(v: Option<JsonValue>) -> Option<Seq<char>> {
    match v {
        Some(x) => match as_str(x) {
            Some(s) => Some(s),
            None => match as_i64(x) {
                Some(n) => Some(decimal(n as int)),
                None => None,
            },
        },
        None => None,
    }
}

/// One port entry of a service (port 0 when absent).
pub open spec fn service_port_spec(p: JsonValue) -> ServicePortView {
    ServicePortView {
        port: match i64_at(Some(p), "port"@) {
            Some(n) => n,
            None => 0,
        },
        target_port: target_port_spec(field(p, "targetPort"@)),
        protocol: str_at(Some(p), "protocol"@),
        name: str_at(Some(p), "name"@),
        node_port: i64_at(Some(p), "nodePort"@),
    }
}

/// All port entries of a service document.
pub open spec fn service_ports_spec(data: JsonValue) -> Seq<ServicePortView> {
    or_empty(array_at(field(data, "spec"@), "ports"@)).map_values(|p: JsonValue| service_port_spec(p))
}

/// The texts among the items of `arr`, in order.
pub open spec fn string_items(arr: Seq<JsonValue>) -> Seq<Seq<char>>
    decreases arr.len(),
{
    if arr.len() == 0 {
        Seq::empty()
    } else {
        let rest = string_items(arr.drop_last());
        match as_str(arr.last()) {
            Some(s) => rest.push(s),
            None => rest,
        }
    }
}

/// The string items of array member `key`, when that member is an array.
pub open spec fn strings_at(v: Option<JsonValue>, key: Seq<char>) -> Option<Seq<Seq<char>>> {
    match array_at(v, key) {
        Some(arr) => Some(string_items(arr)),
        None => None,
    }
}

/// "namespace/name" of the claim that a persistent volume is bound to.
pub open spec fn claim_spec(status: Option<JsonValue>) -> Option<Seq<char>> {
    let cr = field_of(status, "claimRef"@);
    match (str_at(cr, "namespace"@), str_at(cr, "name"@)) {
        (Some(ns), Some(n)) => Some(ns + "/"@ + n),
        _ => None,
    }
}

/// The persistent volume fields of a document.
pub open spec fn pv_spec(data: JsonValue) -> PersistentVolumeFieldsView {
    let spec = field(data, "spec"@);
    let status = field(data, "status"@);
    PersistentVolumeFieldsView {
        capacity: str_at(field_of(spec, "capacity"@), "storage"@),
        access_modes: strings_at(spec, "accessModes"@),
        reclaim_policy: str_at(spec, "persistentVolumeReclaimPolicy"@),
        status: str_at(status, "phase"@),
        claim: claim_spec(status),
        storage_class: str_at(spec, "storageClassName"@),
        volume_attributes_class: str_at(spec, "volumeAttributesClassName"@),
        reason: str_at(status, "reason"@),
    }
}

/// The persistent volume claim fields of a document.
pub open spec fn pvc_spec(data: JsonValue) -> PersistentVolumeClaimFieldsView {
    let spec = field(data, "spec"@);
    let status = field(data, "status"@);
    PersistentVolumeClaimFieldsView {
        status: str_at(status, "phase"@),
        volume: str_at(spec, "volumeName"@),
        capacity: str_at(field_of(status, "capacity"@), "storage"@),
        access_modes: strings_at(spec, "accessModes"@),
        storage_class: str_at(spec, "storageClassName"@),
        volume_attributes_class: str_at(spec, "volumeAttributesClassName"@),
    }
}

/// No field of a persistent volume is set.
pub open spec fn pv_none() -> PersistentVolumeFieldsView {
    PersistentVolumeFieldsView {
        capacity: None,
        access_modes: None,
        reclaim_policy: None,
        status: None,
        claim: None,
        storage_class: None,
        volume_attributes_class: None,
        reason: None,
    }
}

/// No field of a persistent volume claim is set.
pub open spec fn pvc_none() -> PersistentVolumeClaimFieldsView {
    PersistentVolumeClaimFieldsView {
        status: None,
        volume: None,
        capacity: None,
        access_modes: None,
        storage_class: None,
        volume_attributes_class: None,
    }
}

/// One port entry of an endpoint slice.
pub open spec fn slice_port_spec(p: JsonValue) -> EndpointSlicePortView {
    EndpointSlicePortView {
        port: i64_at(Some(p), "port"@),
        protocol: str_at(Some(p), "protocol"@),
        name: str_at(Some(p), "name"@),
    }
}

/// One endpoint entry of an endpoint slice.
pub open spec fn slice_endpoint_spec(e: JsonValue) -> EndpointSliceEndpointView {
    let cond = field(e, "conditions"@);
    EndpointSliceEndpointView {
        addresses: string_items(or_empty(array_at(Some(e), "addresses"@))),
        ready: bool_at(cond, "ready"@),
        serving: bool_at(cond, "serving"@),
        terminating: bool_at(cond, "terminating"@),
    }
}

/// All port entries of an endpoint slice document.
pub open spec fn slice_ports_spec(data: JsonValue) -> Seq<EndpointSlicePortView> {
    or_empty(array_at(Some(data), "ports"@)).map_values(|p: JsonValue| slice_port_spec(p))
}

/// All endpoint entries of an endpoint slice document.
pub open spec fn slice_endpoints_spec(data: JsonValue) -> Seq<EndpointSliceEndpointView> {
    or_empty(array_at(Some(data), "endpoints"@)).map_values(|e: JsonValue| slice_endpoint_spec(e))
}

/// A sequence as an option: absent when empty.
pub open spec fn nonempty<T>(s: Seq<T>) -> Option<Seq<T>> {
    if s.len() > 0 {
        Some(s)
    } else {
        None
    }
}

/// `out` is the JSON object of the key/value pairs `m`, or null when there are none.
pub open spec fn string_map_json(out: JsonValue, m: Option<Vec<(String, String)>>) -> bool {
    match m {
        None => out is Null,
        Some(entries) => match out {
            JsonValue::Object(members) => {
                &&& members@.len() == entries@.len()
                &&& forall|i: int|
                    0 <= i < entries@.len() ==> {
                        &&& (#[trigger] members@[i]).0@ == entries@[i].0@
                        &&& as_str(members@[i].1) == Some(entries@[i].1@)
                    }
            },
            _ => false,
        },
    }
}

/// The name of an object, empty when it has none.
pub open spec fn name_or_empty(n: Option<String>) -> Seq<char> {
    match n {
        Some(s) => s@,
        None => Seq::empty(),
    }
}

/// The kind-specific fields of `r` are those of the document `data` of type
/// `gvk`; each family is set only for its own kind.
pub open spec fn kind_fields(r: ResourceSummary, data: JsonValue, gvk: GvkView) -> bool {
    let kind = gvk.kind;
    let core = is_core(gvk.group);
    let is_pv = kind == "PersistentVolume"@ && core;
    let is_pvc = kind == "PersistentVolumeClaim"@ && core;
    let pv = if is_pv { pv_spec(data) } else { pv_none() };
    let pvc = if is_pvc { pvc_spec(data) } else { pvc_none() };
    let is_slice = kind == "EndpointSlice"@ && gvk.group == "discovery.k8s.io"@;
    &&& r.container_statuses.deep_view() == (if kind == "Pod"@ && core {
        pod_statuses_spec(data)
    } else {
        None
    })
    &&& r.service_ports.deep_view() == (if kind == "Service"@ && core {
        nonempty(service_ports_spec(data))
    } else {
        None
    })
    &&& r.service_type.deep_view() == (if kind == "Service"@ && core {
        str_at(field(data, "spec"@), "type"@)
    } else {
        None
    })
    &&& r.pv_capacity.deep_view() == pv.capacity
    &&& r.pv_access_modes.deep_view() == pv.access_modes
    &&& r.pv_reclaim_policy.deep_view() == pv.reclaim_policy
    &&& r.pv_status.deep_view() == pv.status
    &&& r.pv_claim.deep_view() == pv.claim
    &&& r.pv_storage_class.deep_view() == pv.storage_class
    &&& r.pv_volume_attributes_class.deep_view() == pv.volume_attributes_class
    &&& r.pv_reason.deep_view() == pv.reason
    &&& r.pvc_status.deep_view() == pvc.status
    &&& r.pvc_volume.deep_view() == pvc.volume
    &&& r.pvc_capacity.deep_view() == pvc.capacity
    &&& r.pvc_access_modes.deep_view() == pvc.access_modes
    &&& r.pvc_storage_class.deep_view() == pvc.storage_class
    &&& r.pvc_volume_attributes_class.deep_view() == pvc.volume_attributes_class
    &&& r.endpointslice_ports.deep_view() == (if is_slice {
        nonempty(slice_ports_spec(data))
    } else {
        None
    })
    &&& r.endpointslice_endpoints.deep_view() == (if is_slice {
        nonempty(slice_endpoints_spec(data))
    } else {
        None
    })
}

/// `r` is the summary of `obj` listed as `gvk`.
pub open spec fn summarizes(r: ResourceSummary, obj: ObjectRecord, gvk: ResourceRefGvk) -> bool {
    &&& r.reference.group@ == gvk.group@
    &&& r.reference.version@ == gvk.version@
    &&& r.reference.kind@ == gvk.kind@
    &&& r.reference.namespace.deep_view() == obj.namespace.deep_view()
    &&& r.reference.name@ == name_or_empty(obj.name)
    &&& string_map_json(r.labels, obj.labels)
    &&& string_map_json(r.annotations, obj.annotations)
    &&& r.creation_timestamp.deep_view() == obj.creation_timestamp.deep_view()
    &&& kind_fields(r, obj.data, gvk.deep_view())
}

/// Member `key` of the metadata `meta`, or null.
pub open spec fn member_or_null(meta: Option<JsonValue>, key: Seq<char>) -> JsonValue {
    match field_of(meta, key) {
        Some(v) => v,
        None => JsonValue::Null,
    }
}

/// `r` is the summary of the document `item` of type `gvk`, as a watch event
/// carries it: its metadata read from its "metadata" member.
pub open spec fn summarizes_item(r: ResourceSummary, item: JsonValue, gvk: GvkView) -> bool {
    let meta = field(item, "metadata"@);
    &&& r.reference.group@ == gvk.group
    &&& r.reference.version@ == gvk.version
    &&& r.reference.kind@ == gvk.kind
    &&& r.reference.namespace.deep_view() == str_at(meta, "namespace"@)
    &&& r.reference.name@ == (match str_at(meta, "name"@) {
        Some(n) => n,
        None => Seq::empty(),
    })
    &&& same_json(member_or_null(meta, "labels"@), r.labels)
    &&& same_json(member_or_null(meta, "annotations"@), r.annotations)
    &&& r.creation_timestamp.deep_view() == str_at(meta, "creationTimestamp"@)
    &&& kind_fields(r, item, gvk)
}

// ---------------------------------------------------------------------------
// Extraction
// ---------------------------------------------------------------------------

/// State label and termination reason of one container status entry.
pub fn container_state(c: &JsonValue, init: bool) -> (r: (String, Option<String>))
    ensures
        r.0@ == container_state_spec(*c, init).0,
        r.1.deep_view() == container_state_spec(*c, init).1,
{
    let st = c.get("state");
    if st.is_none() {
        (owned("unknown"), None)
    } else if get_in(st, "waiting").is_some() {
        if init {
            (owned("init"), None)
        } else {
            (owned("waiting"), None)
        }
    } else if get_in(st, "running").is_some() {
        (owned("running"), None)
    } else {
        let t = get_in(st, "terminated");
        if t.is_some() {
            (owned("terminated"), str_in(t, "reason"))
        } else {
            (owned("unknown"), None)
        }
    }
}

/// Appends the statuses of the named entries of `arr`.
pub fn push_container_statuses(arr: &Vec<JsonValue>, init: bool, out: &mut Vec<ContainerStatus>)
    ensures
        final(out).deep_view() == old(out).deep_view() + container_list(arr@, init),
{
    let ghost start = out.deep_view();
    let mut i: usize = 0;
    assert(arr@.take(0) =~= Seq::<JsonValue>::empty());
    assert(start + container_list(arr@.take(0), init) =~= start);
    while i < arr.len()
        invariant
            i <= arr.len(),
            out.deep_view() == start + container_list(arr@.take(i as int), init),
        decreases arr.len() - i,
    {
        let c = &arr[i];
        assert(arr@.take(i + 1).drop_last() =~= arr@.take(i as int));
        assert(arr@.take(i + 1).last() == *c);
        let name = str_in(Some(c), "name");
        match name {
            Some(n) => {
                let ready = match bool_in(Some(c), "ready") {
                    Some(b) => b,
                    None => false,
                };
                let (state, reason) = container_state(c, init);
                let ghost before = out.deep_view();
                out.push(ContainerStatus { name: n, ready, state, reason, init });
                assert(out.deep_view() =~= before.push(container_status_spec(*c, init).unwrap()));
            },
            None => {},
        }
        i = i + 1;
    }
    assert(arr@.take(arr.len() as int) =~= arr@);
}

/// Container statuses of a pod document.
pub fn pod_container_statuses(data: &JsonValue) -> (r: Option<Vec<ContainerStatus>>)
    ensures
        r.deep_view() == pod_statuses_spec(*data),
{
    let status = data.get("status");
    if status.is_none() {
        return None;
    }
    let mut statuses: Vec<ContainerStatus> = Vec::new();
    match array_in(status, "initContainerStatuses") {
        Some(arr) => push_container_statuses(arr, true, &mut statuses),
        None => {
            assert(container_list(Seq::<JsonValue>::empty(), true) =~= Seq::empty());
        },
    }
    let ghost mid = statuses.deep_view();
    match array_in(status, "containerStatuses") {
        Some(arr) => push_container_statuses(arr, false, &mut statuses),
        None => {
            assert(container_list(Seq::<JsonValue>::empty(), false) =~= Seq::empty());
        },
    }
    assert(statuses.deep_view() =~= container_list(
        or_empty(array_at(deref_opt(status), "initContainerStatuses"@)),
        true,
    ) + container_list(or_empty(array_at(deref_opt(status), "containerStatuses"@)), false));
    if statuses.len() > 0 {
        Some(statuses)
    } else {
        None
    }
}

/// A target port, as text.
pub fn target_port_text(v: Option<&JsonValue>) -> (r: Option<String>)
    ensures
        r.deep_view() == target_port_spec(deref_opt(v)),
{
    match v {
        Some(x) => match x.as_str() {
            Some(s) => Some(owned(s.as_str())),
            None => match x.as_i64() {
                Some(n) => Some(decimal_string(n)),
                None => None,
            },
        },
        None => None,
    }
}

/// Ports and type of a service document.
pub fn service_info(data: &JsonValue) -> (r: (Option<Vec<ServicePort>>, Option<String>))
    ensures
        r.0.deep_view() == nonempty(service_ports_spec(*data)),
        r.1.deep_view() == str_at(field(*data, "spec"@), "type"@),
{
    let spec = data.get("spec");
    let svc_type = str_in(spec, "type");
    let mut ports: Vec<ServicePort> = Vec::new();
    let ghost arr_spec = or_empty(array_at(deref_opt(spec), "ports"@));
    match array_in(spec, "ports") {
        Some(arr) => {
            let mut i: usize = 0;
            while i < arr.len()
                invariant
                    i <= arr.len(),
                    arr@ == arr_spec,
                    ports.deep_view() == arr_spec.take(i as int).map_values(
                        |p: JsonValue| service_port_spec(p),
                    ),
                decreases arr.len() - i,
            {
                let p = &arr[i];
                let port = match i64_in(Some(p), "port") {
                    Some(n) => n,
                    None => 0,
                };
                let target_port = target_port_text(p.get("targetPort"));
                let protocol = str_in(Some(p), "protocol");
                let name = str_in(Some(p), "name");
                let node_port = i64_in(Some(p), "nodePort");
                let sp = ServicePort { port, target_port, protocol, name, node_port };
                assert(sp.deep_view() == service_port_spec(arr_spec[i as int]));
                let ghost before = ports.deep_view();
                ports.push(sp);
                assert(ports.deep_view() =~= before.push(sp.deep_view()));
                assert(arr_spec.take(i + 1).map_values(|p: JsonValue| service_port_spec(p))
                    =~= arr_spec.take(i as int).map_values(|p: JsonValue| service_port_spec(p)).push(
                    service_port_spec(arr_spec[i as int]),
                ));
                i = i + 1;
            }
            assert(arr_spec.take(arr.len() as int) =~= arr_spec);
        },
        None => {},
    }
    assert(ports.deep_view() =~= service_ports_spec(*data));
    if ports.len() > 0 {
        (Some(ports), svc_type)
    } else {
        (None, svc_type)
    }
}

/// The texts among the items of an array.
pub fn string_items_of(arr: &Vec<JsonValue>) -> (r: Vec<String>)
    ensures
        r.deep_view() == string_items(arr@),
{
    let mut out: Vec<String> = Vec::new();
    let mut i: usize = 0;
    assert(arr@.take(0) =~= Seq::<JsonValue>::empty());
    while i < arr.len()
        invariant
            i <= arr.len(),
            out.deep_view() == string_items(arr@.take(i as int)),
        decreases arr.len() - i,
    {
        assert(arr@.take(i + 1).drop_last() =~= arr@.take(i as int));
        assert(arr@.take(i + 1).last() == arr@[i as int]);
        match arr[i].as_str() {
            Some(s) => {
                let ghost before = out.deep_view();
                out.push(owned(s.as_str()));
                assert(out.deep_view() =~= before.push(s@));
            },
            None => {},
        }
        i = i + 1;
    }
    assert(arr@.take(arr.len() as int) =~= arr@);
    out
}

/// The string items of array member `key`.
pub fn strings_in(v: Option<&JsonValue>, key: &str) -> (r: Option<Vec<String>>)
    ensures
        r.deep_view() == strings_at(deref_opt(v), key@),
{
    match array_in(v, key) {
        Some(arr) => Some(string_items_of(arr)),
        None => None,
    }
}

/// The persistent volume fields of a document.
pub fn persistent_volume_fields(data: &JsonValue) -> (r: PersistentVolumeFields)
    ensures
        r.deep_view() == pv_spec(*data),
{
    let spec = data.get("spec");
    let status = data.get("status");
    let claim_ref = get_in(status, "claimRef");
    let claim = match (str_in(claim_ref, "namespace"), str_in(claim_ref, "name")) {
        (Some(ns), Some(n)) => {
            let mut c = ns;
            c.append("/");
            c.append(n.as_str());
            Some(c)
        },
        _ => None,
    };
    PersistentVolumeFields {
        capacity: str_in(get_in(spec, "capacity"), "storage"),
        access_modes: strings_in(spec, "accessModes"),
        reclaim_policy: str_in(spec, "persistentVolumeReclaimPolicy"),
        status: str_in(status, "phase"),
        claim,
        storage_class: str_in(spec, "storageClassName"),
        volume_attributes_class: str_in(spec, "volumeAttributesClassName"),
        reason: str_in(status, "reason"),
    }
}

/// The persistent volume claim fields of a document.
pub fn persistent_volume_claim_fields(data: &JsonValue) -> (r: PersistentVolumeClaimFields)
    ensures
        r.deep_view() == pvc_spec(*data),
{
    let spec = data.get("spec");
    let status = data.get("status");
    PersistentVolumeClaimFields {
        status: str_in(status, "phase"),
        volume: str_in(spec, "volumeName"),
        capacity: str_in(get_in(status, "capacity"), "storage"),
        access_modes: strings_in(spec, "accessModes"),
        storage_class: str_in(spec, "storageClassName"),
        volume_attributes_class: str_in(spec, "volumeAttributesClassName"),
    }
}

/// Ports and endpoints of an endpoint slice document.
pub fn endpoint_slice_info(data: &JsonValue) -> (r: (
    Option<Vec<EndpointSlicePort>>,
    Option<Vec<EndpointSliceEndpoint>>,
))
    ensures
        r.0.deep_view() == nonempty(slice_ports_spec(*data)),
        r.1.deep_view() == nonempty(slice_endpoints_spec(*data)),
{
    let mut ports: Vec<EndpointSlicePort> = Vec::new();
    let ghost parr = or_empty(array_at(Some(*data), "ports"@));
    match array_in(Some(data), "ports") {
        Some(arr) => {
            let mut i: usize = 0;
            while i < arr.len()
                invariant
                    i <= arr.len(),
                    arr@ == parr,
                    ports.deep_view() == parr.take(i as int).map_values(
                        |p: JsonValue| slice_port_spec(p),
                    ),
                decreases arr.len() - i,
            {
                let p = &arr[i];
                let port = i64_in(Some(p), "port");
                let protocol = str_in(Some(p), "protocol");
                let name = str_in(Some(p), "name");
                let sp = EndpointSlicePort { port, protocol, name };
                assert(sp.deep_view() == slice_port_spec(parr[i as int]));
                let ghost before = ports.deep_view();
                ports.push(sp);
                assert(ports.deep_view() =~= before.push(sp.deep_view()));
                assert(parr.take(i + 1).map_values(|p: JsonValue| slice_port_spec(p))
                    =~= parr.take(i as int).map_values(|p: JsonValue| slice_port_spec(p)).push(
                    slice_port_spec(parr[i as int]),
                ));
                i = i + 1;
            }
            assert(parr.take(arr.len() as int) =~= parr);
        },
        None => {},
    }
    assert(ports.deep_view() =~= slice_ports_spec(*data));
    let mut endpoints: Vec<EndpointSliceEndpoint> = Vec::new();
    let ghost earr = or_empty(array_at(Some(*data), "endpoints"@));
    match array_in(Some(data), "endpoints") {
        Some(arr) => {
            let mut i: usize = 0;
            while i < arr.len()
                invariant
                    i <= arr.len(),
                    arr@ == earr,
                    endpoints.deep_view() == earr.take(i as int).map_values(
                        |e: JsonValue| slice_endpoint_spec(e),
                    ),
                decreases arr.len() - i,
            {
                let e = &arr[i];
                let addresses = match array_in(Some(e), "addresses") {
                    Some(a) => string_items_of(a),
                    None => {
                        let v: Vec<String> = Vec::new();
                        assert(v.deep_view() =~= string_items(Seq::<JsonValue>::empty()));
                        v
                    },
                };
                let cond = e.get("conditions");
                let ready = bool_in(cond, "ready");
                let serving = bool_in(cond, "serving");
                let terminating = bool_in(cond, "terminating");
                let ep = EndpointSliceEndpoint { addresses, ready, serving, terminating };
                assert(ep.deep_view() == slice_endpoint_spec(earr[i as int]));
                let ghost before = endpoints.deep_view();
                endpoints.push(ep);
                assert(endpoints.deep_view() =~= before.push(ep.deep_view()));
                assert(earr.take(i + 1).map_values(|e: JsonValue| slice_endpoint_spec(e))
                    =~= earr.take(i as int).map_values(|e: JsonValue| slice_endpoint_spec(e)).push(
                    slice_endpoint_spec(earr[i as int]),
                ));
                i = i + 1;
            }
            assert(earr.take(arr.len() as int) =~= earr);
        },
        None => {},
    }
    assert(endpoints.deep_view() =~= slice_endpoints_spec(*data));
    let p = if ports.len() > 0 {
        Some(ports)
    } else {
        None
    };
    let e = if endpoints.len() > 0 {
        Some(endpoints)
    } else {
        None
    };
    (p, e)
}

/// The JSON object of key/value pairs, or null when there are none.
pub fn string_map_to_json(m: &Option<Vec<(String, String)>>) -> (r: JsonValue)
    ensures
        string_map_json(r, *m),
{
    match m {
        None => JsonValue::Null,
        Some(entries) => {
            let mut members: Vec<(String, JsonValue)> = Vec::new();
            let mut i: usize = 0;
            while i < entries.len()
                invariant
                    i <= entries.len(),
                    members@.len() == i,
                    forall|k: int|
                        0 <= k < i ==> {
                            &&& (#[trigger] members@[k]).0@ == entries@[k].0@
                            &&& as_str(members@[k].1) == Some(entries@[k].1@)
                        },
                decreases entries.len() - i,
            {
                let key = entries[i].0.clone();
                let value = entries[i].1.clone();
                members.push((key, JsonValue::Str(value)));
                i = i + 1;
            }
            JsonValue::Object(members)
        },
    }
}

/// The kind-specific fields of a summary.
pub struct KindFields {
    pub container_statuses: Option<Vec<ContainerStatus>>,
    pub service_ports: Option<Vec<ServicePort>>,
    pub service_type: Option<String>,
    pub pv: PersistentVolumeFields,
    pub pvc: PersistentVolumeClaimFields,
    pub endpointslice_ports: Option<Vec<EndpointSlicePort>>,
    pub endpointslice_endpoints: Option<Vec<EndpointSliceEndpoint>>,
}

/// Assembles a summary from its parts.
pub open spec fn assembled(r: ResourceSummary, f: KindFields) -> bool {
    &&& r.container_statuses == f.container_statuses
    &&& r.service_ports == f.service_ports
    &&& r.service_type == f.service_type
    &&& r.pv_capacity == f.pv.capacity
    &&& r.pv_access_modes == f.pv.access_modes
    &&& r.pv_reclaim_policy == f.pv.reclaim_policy
    &&& r.pv_status == f.pv.status
    &&& r.pv_claim == f.pv.claim
    &&& r.pv_storage_class == f.pv.storage_class
    &&& r.pv_volume_attributes_class == f.pv.volume_attributes_class
    &&& r.pv_reason == f.pv.reason
    &&& r.pvc_status == f.pvc.status
    &&& r.pvc_volume == f.pvc.volume
    &&& r.pvc_capacity == f.pvc.capacity
    &&& r.pvc_access_modes == f.pvc.access_modes
    &&& r.pvc_storage_class == f.pvc.storage_class
    &&& r.pvc_volume_attributes_class == f.pvc.volume_attributes_class
    &&& r.endpointslice_ports == f.endpointslice_ports
    &&& r.endpointslice_endpoints == f.endpointslice_endpoints
}

/// The kind-specific fields of the document `data` of type `gvk`.
pub fn kind_fields_of(data: &JsonValue, gvk: &ResourceRefGvk) -> (f: KindFields)
    ensures
        forall|r: ResourceSummary| #[trigger] assembled(r, f) ==> kind_fields(r, *data, gvk.deep_view()),
{
    let core = gvk.group.as_str().is_empty();
    let kind = gvk.kind.as_str();
    let container_statuses = if str_eq(kind, "Pod") && core {
        pod_container_statuses(data)
    } else {
        None
    };
    let (service_ports, service_type) = if str_eq(kind, "Service") && core {
        service_info(data)
    } else {
        (None, None)
    };
    let pv = if str_eq(kind, "PersistentVolume") && core {
        persistent_volume_fields(data)
    } else {
        PersistentVolumeFields {
            capacity: None,
            access_modes: None,
            reclaim_policy: None,
            status: None,
            claim: None,
            storage_class: None,
            volume_attributes_class: None,
            reason: None,
        }
    };
    let pvc = if str_eq(kind, "PersistentVolumeClaim") && core {
        persistent_volume_claim_fields(data)
    } else {
        PersistentVolumeClaimFields {
            status: None,
            volume: None,
            capacity: None,
            access_modes: None,
            storage_class: None,
            volume_attributes_class: None,
        }
    };
    let (endpointslice_ports, endpointslice_endpoints) = if str_eq(kind, "EndpointSlice")
        && str_eq(gvk.group.as_str(), "discovery.k8s.io") {
        endpoint_slice_info(data)
    } else {
        (None, None)
    };
    KindFields {
        container_statuses,
        service_ports,
        service_type,
        pv,
        pvc,
        endpointslice_ports,
        endpointslice_endpoints,
    }
}

/// Builds a summary from its reference, metadata and kind-specific fields.
pub fn assemble(
    reference: ResourceRef,
    labels: JsonValue,
    annotations: JsonValue,
    creation_timestamp: Option<String>,
    f: KindFields,
) -> (r: ResourceSummary)
    ensures
        r.reference == reference,
        r.labels == labels,
        r.annotations == annotations,
        r.creation_timestamp == creation_timestamp,
        assembled(r, f),
{
    ResourceSummary {
        reference,
        labels,
        annotations,
        creation_timestamp,
        container_statuses: f.container_statuses,
        service_ports: f.service_ports,
        service_type: f.service_type,
        pv_capacity: f.pv.capacity,
        pv_access_modes: f.pv.access_modes,
        pv_reclaim_policy: f.pv.reclaim_policy,
        pv_status: f.pv.status,
        pv_claim: f.pv.claim,
        pv_storage_class: f.pv.storage_class,
        pv_volume_attributes_class: f.pv.volume_attributes_class,
        pv_reason: f.pv.reason,
        pvc_status: f.pvc.status,
        pvc_volume: f.pvc.volume,
        pvc_capacity: f.pvc.capacity,
        pvc_access_modes: f.pvc.access_modes,
        pvc_storage_class: f.pvc.storage_class,
        pvc_volume_attributes_class: f.pvc.volume_attributes_class,
        endpointslice_ports: f.endpointslice_ports,
        endpointslice_endpoints: f.endpointslice_endpoints,
    }
}

/// Summary of one listed object of type `gvk`.
pub fn summarize_dynamic(obj: &ObjectRecord, gvk: &ResourceRefGvk) -> (r: ResourceSummary)
    ensures
        summarizes(r, *obj, *gvk),
{
    let f = kind_fields_of(&obj.data, gvk);
    let name = match &obj.name {
        Some(n) => n.clone(),
        None => String::new(),
    };
    let reference = ResourceRef {
        group: gvk.group.clone(),
        version: gvk.version.clone(),
        kind: gvk.kind.clone(),
        namespace: clone_opt(&obj.namespace),
        name,
    };
    let labels = string_map_to_json(&obj.labels);
    let annotations = string_map_to_json(&obj.annotations);
    let r = assemble(reference, labels, annotations, clone_opt(&obj.creation_timestamp), f);
    assert(assembled(r, f));
    r
}

/// Member `key` of `meta` copied, or null.
fn member_copy(meta: Option<&JsonValue>, key: &str) -> (r: JsonValue)
    ensures
        same_json(member_or_null(deref_opt(meta), key@), r),
{
    match get_in(meta, key) {
        Some(v) => copy_json(v),
        None => JsonValue::Null,
    }
}

/// Summary of the document `item` of type `gvk`, its metadata read from the
/// document itself (as watch events carry objects).
pub fn summarize_item(item: &JsonValue, gvk: &ResourceRefGvk) -> (r: ResourceSummary)
    ensures
        summarizes_item(r, *item, gvk.deep_view()),
{
    let meta = item.get("metadata");
    let name = match str_in(meta, "name") {
        Some(n) => n,
        None => String::new(),
    };
    let reference = ResourceRef {
        group: gvk.group.clone(),
        version: gvk.version.clone(),
        kind: gvk.kind.clone(),
        namespace: str_in(meta, "namespace"),
        name,
    };
    let labels = member_copy(meta, "labels");
    let annotations = member_copy(meta, "annotations");
    let creation_timestamp = str_in(meta, "creationTimestamp");
    let f = kind_fields_of(item, gvk);
    let r = assemble(reference, labels, annotations, creation_timestamp, f);
    assert(assembled(r, f));
    r
}

/// At most one family of kind-specific fields is set in a summary: pod
/// containers, service ports and type, persistent volume fields, claim
/// fields, or endpoint slice ports and endpoints.
pub proof fn kind_fields_exclusive(r: ResourceSummary, data: JsonValue, gvk: GvkView)
    requires
        kind_fields(r, data, gvk),
    ensures
        r.container_statuses is Some ==> gvk.kind == "Pod"@ && is_core(gvk.group),
        (r.service_ports is Some || r.service_type is Some) ==> gvk.kind == "Service"@ && is_core(gvk.group),
        r.pv_status is Some ==> gvk.kind == "PersistentVolume"@ && is_core(gvk.group),
        r.pvc_status is Some ==> gvk.kind == "PersistentVolumeClaim"@ && is_core(gvk.group),
        (r.endpointslice_ports is Some || r.endpointslice_endpoints is Some) ==> gvk.kind
            == "EndpointSlice"@ && gvk.group == "discovery.k8s.io"@,
{
}


// ---------------------------------------------------------------------------
// Watched documents against listed objects
// ---------------------------------------------------------------------------

/// `obj` is what reading the document `item` as a listed object gives, its
/// creation time aside: the name, namespace, labels and annotations of its
/// "metadata" member, and its other members (those other than "metadata",
/// "apiVersion" and "kind") as the object's data.
pub open spec fn reads_as_record(item: JsonValue, obj: ObjectRecord) -> bool {
    let meta = field(item, "metadata"@);
    &&& obj.name.deep_view() == str_at(meta, "name"@)
    &&& obj.namespace.deep_view() == str_at(meta, "namespace"@)
    &&& string_map_json(member_or_null(meta, "labels"@), obj.labels)
    &&& string_map_json(member_or_null(meta, "annotations"@), obj.annotations)
    &&& forall|k: Seq<char>|
        k != "metadata"@ && k != "apiVersion"@ && k != "kind"@ ==> #[trigger] field(obj.data, k) == field(
            item,
            k,
        )
}

/// Two summaries name the same object and show the same kind-specific fields.
pub open spec fn same_object_fields(a: ResourceSummary, b: ResourceSummary) -> bool {
    &&& a.reference.group@ == b.reference.group@
    &&& a.reference.version@ == b.reference.version@
    &&& a.reference.kind@ == b.reference.kind@
    &&& a.reference.namespace.deep_view() == b.reference.namespace.deep_view()
    &&& a.reference.name@ == b.reference.name@
    &&& a.container_statuses.deep_view() == b.container_statuses.deep_view()
    &&& a.service_ports.deep_view() == b.service_ports.deep_view()
    &&& a.service_type.deep_view() == b.service_type.deep_view()
    &&& a.pv_capacity.deep_view() == b.pv_capacity.deep_view()
    &&& a.pv_access_modes.deep_view() == b.pv_access_modes.deep_view()
    &&& a.pv_reclaim_policy.deep_view() == b.pv_reclaim_policy.deep_view()
    &&& a.pv_status.deep_view() == b.pv_status.deep_view()
    &&& a.pv_claim.deep_view() == b.pv_claim.deep_view()
    &&& a.pv_storage_class.deep_view() == b.pv_storage_class.deep_view()
    &&& a.pv_volume_attributes_class.deep_view() == b.pv_volume_attributes_class.deep_view()
    &&& a.pv_reason.deep_view() == b.pv_reason.deep_view()
    &&& a.pvc_status.deep_view() == b.pvc_status.deep_view()
    &&& a.pvc_volume.deep_view() == b.pvc_volume.deep_view()
    &&& a.pvc_capacity.deep_view() == b.pvc_capacity.deep_view()
    &&& a.pvc_access_modes.deep_view() == b.pvc_access_modes.deep_view()
    &&& a.pvc_storage_class.deep_view() == b.pvc_storage_class.deep_view()
    &&& a.pvc_volume_attributes_class.deep_view() == b.pvc_volume_attributes_class.deep_view()
    &&& a.endpointslice_ports.deep_view() == b.endpointslice_ports.deep_view()
    &&& a.endpointslice_endpoints.deep_view() == b.endpointslice_endpoints.deep_view()
}

proof fn lemma_same_json_string_map(a: JsonValue, b: JsonValue, m: Option<Vec<(String, String)>>)
    requires
        same_json(a, b),
        string_map_json(a, m),
    ensures
        string_map_json(b, m),
{
    match m {
        None => {},
        Some(entries) => {
            match (a, b) {
                (JsonValue::Object(xs), JsonValue::Object(ys)) => {
                    assert forall|i: int| 0 <= i < entries@.len() implies {
                        &&& (#[trigger] ys@[i]).0@ == entries@[i].0@
                        &&& as_str(ys@[i].1) == Some(entries@[i].1@)
                    } by {
                        assert(xs@[i].0@ == entries@[i].0@);
                        assert(as_str(xs@[i].1) == Some(entries@[i].1@));
                        assert(same_json(xs@[i].1, ys@[i].1));
                    }
                },
                _ => {},
            }
        },
    }
}

/// The summary that a watch event's document gives is the one that listing
/// the same object gives, its creation time aside: the same reference, the
/// same labels and annotations, and the same kind-specific fields.
pub proof fn watched_summary_matches_listed(
    item: JsonValue,
    obj: ObjectRecord,
    gvk: ResourceRefGvk,
    watched: ResourceSummary,
    listed: ResourceSummary,
)
    requires
        reads_as_record(item, obj),
        summarizes_item(watched, item, gvk.deep_view()),
        summarizes(listed, obj, gvk),
    ensures
        same_object_fields(watched, listed),
        string_map_json(watched.labels, obj.labels),
        string_map_json(listed.labels, obj.labels),
        string_map_json(watched.annotations, obj.annotations),
        string_map_json(listed.annotations, obj.annotations),
{
    let meta = field(item, "metadata"@);
    lemma_same_json_string_map(member_or_null(meta, "labels"@), watched.labels, obj.labels);
    lemma_same_json_string_map(member_or_null(meta, "annotations"@), watched.annotations, obj.annotations);
    reveal_strlit("metadata");
    reveal_strlit("apiVersion");
    reveal_strlit("kind");
    reveal_strlit("spec");
    reveal_strlit("status");
    reveal_strlit("ports");
    reveal_strlit("endpoints");
    assert("metadata"@.len() == 8);
    assert("apiVersion"@.len() == 10);
    assert("kind"@.len() == 4);
    assert("spec"@.len() == 4);
    assert("spec"@[0] == 's');
    assert("kind"@[0] == 'k');
    assert("status"@.len() == 6);
    assert("ports"@.len() == 5);
    assert("endpoints"@.len() == 9);
    assert(field(obj.data, "spec"@) == field(item, "spec"@));
    assert(field(obj.data, "status"@) == field(item, "status"@));
    assert(field(obj.data, "ports"@) == field(item, "ports"@));
    assert(field(obj.data, "endpoints"@) == field(item, "endpoints"@));
}


proof fn lemma_kind_words()
    ensures
        "PersistentVolumeClaim"@ != "PersistentVolume"@,
        "PersistentVolumeClaim"@ != "Pod"@,
        "PersistentVolumeClaim"@ != "Service"@,
        "PersistentVolumeClaim"@ != "EndpointSlice"@,
        "PersistentVolume"@ != "Pod"@,
        "PersistentVolume"@ != "Service"@,
        "PersistentVolume"@ != "EndpointSlice"@,
        "discovery.k8s.io"@.len() > 0,
{
    reveal_strlit("PersistentVolumeClaim");
    reveal_strlit("PersistentVolume");
    reveal_strlit("Pod");
    reveal_strlit("Service");
    reveal_strlit("EndpointSlice");
    reveal_strlit("discovery.k8s.io");
    assert("PersistentVolumeClaim"@.len() == 21);
    assert("PersistentVolume"@.len() == 16);
    assert("Pod"@.len() == 3);
    assert("Service"@.len() == 7);
    assert("EndpointSlice"@.len() == 13);
    assert("discovery.k8s.io"@.len() == 16);
    assert("PersistentVolume"@[13] == 'u');
    assert("EndpointSlice"@[0] == 'E');
    assert("PersistentVolume"@[0] == 'P');
}

/// The fields of a persistent volume claim's summary are the members of its
/// document that the Kubernetes API defines for them: the phase from
/// `status.phase`, the volume from `spec.volumeName`, the capacity from
/// `status.capacity.storage`, the access modes from `spec.accessModes`, the
/// storage class from `spec.storageClassName` and the volume attributes class
/// from `spec.volumeAttributesClassName`. No other kind's fields are set.
pub proof fn claim_fields_read_from_document(r: ResourceSummary, data: JsonValue, gvk: GvkView)
    requires
        kind_fields(r, data, gvk),
        gvk.kind == "PersistentVolumeClaim"@,
        gvk.group.len() == 0,
    ensures
        r.pvc_status.deep_view() == str_at(field(data, "status"@), "phase"@),
        r.pvc_volume.deep_view() == str_at(field(data, "spec"@), "volumeName"@),
        r.pvc_capacity.deep_view() == str_at(field_of(field(data, "status"@), "capacity"@), "storage"@),
        r.pvc_access_modes.deep_view() == (match array_at(field(data, "spec"@), "accessModes"@) {
            Some(a) => Some(string_items(a)),
            None => None,
        }),
        r.pvc_storage_class.deep_view() == str_at(field(data, "spec"@), "storageClassName"@),
        r.pvc_volume_attributes_class.deep_view() == str_at(field(data, "spec"@), "volumeAttributesClassName"@),
        r.pv_status is None,
        r.pv_storage_class is None,
        r.container_statuses is None,
        r.service_ports is None,
        r.endpointslice_ports is None,
{
    lemma_kind_words();
}

/// The fields of a persistent volume's summary are the members of its
/// document that the Kubernetes API defines for them: the capacity from
/// `spec.capacity.storage`, the access modes from `spec.accessModes`, the
/// reclaim policy from `spec.persistentVolumeReclaimPolicy`, the phase from
/// `status.phase`, the storage class from `spec.storageClassName`, the volume
/// attributes class from `spec.volumeAttributesClassName` and the reason from
/// `status.reason`. No other kind's fields are set.
pub proof fn volume_fields_read_from_document(r: ResourceSummary, data: JsonValue, gvk: GvkView)
    requires
        kind_fields(r, data, gvk),
        gvk.kind == "PersistentVolume"@,
        gvk.group.len() == 0,
    ensures
        r.pv_capacity.deep_view() == str_at(field_of(field(data, "spec"@), "capacity"@), "storage"@),
        r.pv_access_modes.deep_view() == (match array_at(field(data, "spec"@), "accessModes"@) {
            Some(a) => Some(string_items(a)),
            None => None,
        }),
        r.pv_reclaim_policy.deep_view() == str_at(field(data, "spec"@), "persistentVolumeReclaimPolicy"@),
        r.pv_status.deep_view() == str_at(field(data, "status"@), "phase"@),
        r.pv_storage_class.deep_view() == str_at(field(data, "spec"@), "storageClassName"@),
        r.pv_volume_attributes_class.deep_view() == str_at(field(data, "spec"@), "volumeAttributesClassName"@),
        r.pv_reason.deep_view() == str_at(field(data, "status"@), "reason"@),
        r.pvc_status is None,
        r.pvc_storage_class is None,
        r.container_statuses is None,
        r.service_ports is None,
        r.endpointslice_ports is None,
{
    lemma_kind_words();
}


/// The fields of a service's summary are the members of its document that
/// the Kubernetes API defines for them: the type from `spec.type`, and one
/// port for each item of `spec.ports` (none when there are no items). No
/// other kind's fields are set.
pub proof fn service_fields_read_from_document(r: ResourceSummary, data: JsonValue, gvk: GvkView)
    requires
        kind_fields(r, data, gvk),
        gvk.kind == "Service"@,
        gvk.group.len() == 0,
    ensures
        r.service_type.deep_view() == str_at(field(data, "spec"@), "type"@),
        match r.service_ports.deep_view() {
            Some(ps) => {
                &&& array_at(field(data, "spec"@), "ports"@) matches Some(a)
                &&& ps.len() == a.len()
                &&& a.len() > 0
                &&& forall|i: int| 0 <= i < a.len() ==> (#[trigger] ps[i]).port == (match i64_at(Some(a[i]), "port"@) {
                    Some(n) => n,
                    None => 0,
                })
            },
            None => match array_at(field(data, "spec"@), "ports"@) {
                Some(a) => a.len() == 0,
                None => true,
            },
        },
        r.container_statuses is None,
        r.pv_status is None,
        r.pvc_status is None,
        r.endpointslice_ports is None,
{
    reveal_strlit("Service");
    reveal_strlit("Pod");
    reveal_strlit("PersistentVolume");
    reveal_strlit("PersistentVolumeClaim");
    reveal_strlit("EndpointSlice");
    assert("Service"@.len() == 7);
    assert("Pod"@.len() == 3);
    assert("PersistentVolume"@.len() == 16);
    assert("PersistentVolumeClaim"@.len() == 21);
    assert("EndpointSlice"@.len() == 13);
}

} // verus!
