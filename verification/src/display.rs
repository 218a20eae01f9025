//! The texts and colours of the resource table: cells with "-" for missing
//! values, port and endpoint labels, container state badges, the choice of a
//! container for logs, and the columns a list needs.
use vstd::prelude::*;
use crate::json::{JsonValue, str_at};
use crate::summary::{ContainerStatus, EndpointSliceEndpoint, EndpointSlicePort, ResourceSummary, ServicePort};
use crate::text::{chars_of, decimal, decimal_string, join, join_strings, owned, str_eq};

verus! {

// ---------------------------------------------------------------------------
// Cells
// ---------------------------------------------------------------------------

/// A text, or "-" when absent.
pub open spec fn dash_or(o: Option<Seq<char>>) -> Seq<char> {
    match o {
        Some(s) => s,
        None => "-"@,
    }
}

/// The cell for an optional text: the text, or "-".
pub fn cell_text(o: &Option<String>) -> (r: String)
    ensures
        r@ == dash_or(o.deep_view()),
{
    match o {
        Some(s) => s.clone(),
        None => owned("-"),
    }
}

/// Access modes joined by ",", or "-" when there are none.
pub open spec fn modes_line(o: Option<Seq<Seq<char>>>) -> Seq<char> {
    match o {
        Some(m) => if m.len() == 0 {
            "-"@
        } else {
            join(m, ","@)
        },
        None => "-"@,
    }
}

/// The cell for access modes.
pub fn modes_text(o: &Option<Vec<String>>) -> (r: String)
    ensures
        r@ == modes_line(o.deep_view()),
{
    match o {
        Some(m) => {
            if m.len() == 0 {
                owned("-")
            } else {
                join_strings(m, ",")
            }
        },
        None => owned("-"),
    }
}

/// A protocol, "TCP" when absent.
pub fn protocol_text(o: &Option<String>) -> (r: String)
    ensures
        r@ == (match o.deep_view() {
            Some(p) => p,
            None => "TCP"@,
        }),
{
    match o {
        Some(p) => p.clone(),
        None => owned("TCP"),
    }
}

// ---------------------------------------------------------------------------
// Ports and endpoints
// ---------------------------------------------------------------------------

/// "name:port" for a named service port, else the port number.
pub open spec fn service_port_label(p: ServicePort) -> Seq<char> {
    match p.name {
        Some(n) => n@ + ":"@ + decimal(p.port as int),
        None => decimal(p.port as int),
    }
}

/// The label of a service port.
pub fn service_port_text(p: &ServicePort) -> (r: String)
    ensures
        r@ == service_port_label(*p),
{
    match &p.name {
        Some(n) => {
            let mut t = n.clone();
            t.append(":");
            let d = decimal_string(p.port);
            t.append(d.as_str());
            t
        },
        None => decimal_string(p.port),
    }
}

/// "→target" for a service port with a target port.
pub fn target_port_arrow(p: &ServicePort) -> (r: Option<String>)
    ensures
        r.deep_view() == (match p.target_port {
            Some(t) => Some("→"@ + t@),
            None => None,
        }),
{
    match &p.target_port {
        Some(t) => {
            let mut s = owned("→");
            s.append(t.as_str());
            Some(s)
        },
        None => None,
    }
}

/// "(NodePort:n)" for a port of a NodePort service that has a node port.
pub open spec fn node_port_label(svc_type: Option<Seq<char>>, p: ServicePort) -> Option<Seq<char>> {
    if svc_type == Some("NodePort"@) {
        match p.node_port {
            Some(n) => Some("(NodePort:"@ + decimal(n as int) + ")"@),
            None => None,
        }
    } else {
        None
    }
}

/// The node port note of a service port.
pub fn node_port_text(svc_type: &Option<String>, p: &ServicePort) -> (r: Option<String>)
    ensures
        r.deep_view() == node_port_label(svc_type.deep_view(), *p),
{
    let is_node_port = match svc_type {
        Some(t) => str_eq(t.as_str(), "NodePort"),
        None => false,
    };
    if is_node_port {
        match p.node_port {
            Some(n) => {
                let mut s = owned("(NodePort:");
                let d = decimal_string(n);
                s.append(d.as_str());
                s.append(")");
                Some(s)
            },
            None => None,
        }
    } else {
        None
    }
}

/// "name:port", the port alone, the name alone, or "-".
pub open spec fn slice_port_label(p: EndpointSlicePort) -> Seq<char> {
    match (p.port, p.name) {
        (Some(n), Some(name)) => name@ + ":"@ + decimal(n as int),
        (Some(n), None) => decimal(n as int),
        (None, Some(name)) => name@,
        (None, None) => "-"@,
    }
}

/// The label of an endpoint slice port.
pub fn slice_port_text(p: &EndpointSlicePort) -> (r: String)
    ensures
        r@ == slice_port_label(*p),
{
    match (p.port, &p.name) {
        (Some(n), Some(name)) => {
            let mut t = name.clone();
            t.append(":");
            let d = decimal_string(n);
            t.append(d.as_str());
            t
        },
        (Some(n), None) => decimal_string(n),
        (None, Some(name)) => name.clone(),
        (None, None) => owned("-"),
    }
}

/// The addresses of an endpoint joined by ", ", or "-" when there are none.
pub fn endpoint_addresses_text(e: &EndpointSliceEndpoint) -> (r: String)
    ensures
        r@ == (if e.addresses@.len() == 0 {
            "-"@
        } else {
            join(e.addresses.deep_view(), ", "@)
        }),
{
    if e.addresses.len() == 0 {
        owned("-")
    } else {
        join_strings(&e.addresses, ", ")
    }
}

/// The condition words of an endpoint, in order: ready, serving, terminating.
pub open spec fn endpoint_conditions(e: EndpointSliceEndpoint) -> Seq<Seq<char>> {
    let r = match e.ready {
        Some(true) => seq!["Ready"@],
        Some(false) => seq!["NotReady"@],
        None => Seq::empty(),
    };
    let s = match e.serving {
        Some(true) => seq!["Serving"@],
        Some(false) => seq!["NotServing"@],
        None => Seq::empty(),
    };
    let t = match e.terminating {
        Some(true) => seq!["Terminating"@],
        Some(false) => seq!["NotTerminating"@],
        None => Seq::empty(),
    };
    r + s + t
}

/// The conditions of an endpoint as " (a, b)", or "" when none are known.
pub fn endpoint_status_text(e: &EndpointSliceEndpoint) -> (r: String)
    ensures
        r@ == (if endpoint_conditions(*e).len() == 0 {
            Seq::empty()
        } else {
            " ("@ + join(endpoint_conditions(*e), ", "@) + ")"@
        }),
{
    let mut parts: Vec<String> = Vec::new();
    match e.ready {
        Some(true) => parts.push(owned("Ready")),
        Some(false) => parts.push(owned("NotReady")),
        None => {},
    }
    match e.serving {
        Some(true) => parts.push(owned("Serving")),
        Some(false) => parts.push(owned("NotServing")),
        None => {},
    }
    match e.terminating {
        Some(true) => parts.push(owned("Terminating")),
        Some(false) => parts.push(owned("NotTerminating")),
        None => {},
    }
    assert(parts.deep_view() =~= endpoint_conditions(*e));
    if parts.len() == 0 {
        String::new()
    } else {
        let mut s = owned(" (");
        let j = join_strings(&parts, ", ");
        s.append(j.as_str());
        s.append(")");
        s
    }
}

// ---------------------------------------------------------------------------
// Container badges and logs
// ---------------------------------------------------------------------------

/// How a container is drawn: background and text colours and its label.
pub struct Badge {
    pub background: &'static str,
    pub foreground: &'static str,
    pub text: String,
}

/// The colours of a container badge: yellow for the running "main"
/// container and for containers starting, light blue for an unknown state,
/// green for ready running containers and completed ones, red otherwise.
pub open spec fn badge_colors(c: ContainerStatus) -> (Seq<char>, Seq<char>) {
    let state = c.state@;
    if c.name@ == "main"@ && state == "running"@ {
        ("#ffd700"@, "#333"@)
    } else if state.len() == 0 || state == "unknown"@ {
        ("#b3d9ff"@, "#333"@)
    } else if state == "init"@ || state == "waiting"@ {
        ("#ffd700"@, "#333"@)
    } else if c.ready && state == "running"@ {
        ("#28a745"@, "#fff"@)
    } else if state == "terminated"@ && c.reason.deep_view() == Some("Completed"@) {
        ("#28a745"@, "#fff"@)
    } else {
        ("#dc3545"@, "#fff"@)
    }
}

/// The label of a container badge: "name: state", with " (reason)" for a
/// terminated container with a reason.
pub open spec fn badge_label(c: ContainerStatus) -> Seq<char> {
    if c.state@ == "terminated"@ && c.reason is Some {
        c.name@ + ": "@ + c.state@ + " ("@ + c.reason->0@ + ")"@
    } else {
        c.name@ + ": "@ + c.state@
    }
}

/// The badge of a container.
pub fn container_badge(c: &ContainerStatus) -> (r: Badge)
    ensures
        (r.background@, r.foreground@) == badge_colors(*c),
        r.text@ == badge_label(*c),
{
    let state = c.state.as_str();
    let (background, foreground) = if str_eq(c.name.as_str(), "main") && str_eq(state, "running") {
        ("#ffd700", "#333")
    } else if state.is_empty() || str_eq(state, "unknown") {
        ("#b3d9ff", "#333")
    } else if str_eq(state, "init") || str_eq(state, "waiting") {
        ("#ffd700", "#333")
    } else if c.ready && str_eq(state, "running") {
        ("#28a745", "#fff")
    } else if str_eq(state, "terminated") {
        match &c.reason {
            Some(r) => {
                if str_eq(r.as_str(), "Completed") {
                    ("#28a745", "#fff")
                } else {
                    ("#dc3545", "#fff")
                }
            },
            None => ("#dc3545", "#fff"),
        }
    } else {
        ("#dc3545", "#fff")
    };
    let mut text = c.name.clone();
    text.append(": ");
    text.append(state);
    if str_eq(state, "terminated") {
        match &c.reason {
            Some(r) => {
                text.append(" (");
                text.append(r.as_str());
                text.append(")");
            },
            None => {},
        }
    }
    Badge { background, foreground, text }
}

/// The container whose logs the "Logs" button opens: the first regular
/// container, init containers skipped.
pub open spec fn logs_container_spec(cs: Option<Seq<ContainerStatusView>>) -> Option<Seq<char>> {
    match cs {
        Some(s) => if exists|i: int| 0 <= i < s.len() && !s[i].init {
            let i = choose|i: int|
                0 <= i < s.len() && !s[i].init && forall|j: int| 0 <= j < i ==> s[j].init;
            Some(s[i].name)
        } else {
            None
        },
        None => None,
    }
}

use crate::summary::ContainerStatusView;

/// The container whose logs the "Logs" button opens.
pub fn logs_container(cs: &Option<Vec<ContainerStatus>>) -> (r: Option<String>)
    ensures
        r.deep_view() == logs_container_spec(cs.deep_view()),
{
    match cs {
        None => None,
        Some(v) => {
            let ghost s = v.deep_view();
            let mut i: usize = 0;
            while i < v.len()
                invariant
                    i <= v.len(),
                    s == v.deep_view(),
                    cs.deep_view() == Some(s),
                    forall|j: int| 0 <= j < i ==> s[j].init,
                decreases v.len() - i,
            {
                if !v[i].init {
                    proof {
                        let w = choose|k: int|
                            0 <= k < s.len() && !s[k].init && forall|j: int| 0 <= j < k ==> s[j].init;
                        assert(0 <= i < s.len() && !s[i as int].init);
                        if w < i {
                            assert(s[w].init);
                        }
                        if w > i {
                            assert(s[i as int].init);
                        }
                    }
                    return Some(v[i].name.clone());
                }
                i = i + 1;
            }
            None
        },
    }
}

/// The title of the logs panel: "Logs - container", or "Logs".
pub fn logs_title(container: &Option<String>) -> (r: String)
    ensures
        r@ == (match container.deep_view() {
            Some(c) => "Logs - "@ + c,
            None => "Logs"@,
        }),
{
    match container {
        Some(c) => {
            let mut t = owned("Logs - ");
            t.append(c.as_str());
            t
        },
        None => owned("Logs"),
    }
}

// ---------------------------------------------------------------------------
// Table shape and storage classes
// ---------------------------------------------------------------------------

/// The extra columns a list needs, decided by its first item.
pub struct TableColumns {
    pub is_service: bool,
    pub is_pv: bool,
    pub is_pvc: bool,
    pub is_endpointslice: bool,
}

/// The item is of kind `kind` in group `group`.
pub open spec fn of_type(it: ResourceSummary, kind: Seq<char>, group: Seq<char>) -> bool {
    it.reference.kind@ == kind && it.reference.group@ == group
}

/// Whether a summary is of the given kind and group.
pub fn is_of_type(it: &ResourceSummary, kind: &str, group: &str) -> (r: bool)
    ensures
        r == of_type(*it, kind@, group@),
{
    str_eq(it.reference.kind.as_str(), kind) && str_eq(it.reference.group.as_str(), group)
}

/// The extra columns of a list.
pub fn table_columns(items: &Vec<ResourceSummary>) -> (r: TableColumns)
    ensures
        items@.len() == 0 ==> !r.is_service && !r.is_pv && !r.is_pvc && !r.is_endpointslice,
        items@.len() > 0 ==> {
            let f = items@[0];
            &&& r.is_service == of_type(f, "Service"@, ""@)
            &&& r.is_pv == of_type(f, "PersistentVolume"@, ""@)
            &&& r.is_pvc == of_type(f, "PersistentVolumeClaim"@, ""@)
            &&& r.is_endpointslice == of_type(f, "EndpointSlice"@, "discovery.k8s.io"@)
        },
{
    if items.len() == 0 {
        TableColumns { is_service: false, is_pv: false, is_pvc: false, is_endpointslice: false }
    } else {
        let f = &items[0];
        TableColumns {
            is_service: is_of_type(f, "Service", ""),
            is_pv: is_of_type(f, "PersistentVolume", ""),
            is_pvc: is_of_type(f, "PersistentVolumeClaim", ""),
            is_endpointslice: is_of_type(f, "EndpointSlice", "discovery.k8s.io"),
        }
    }
}

/// ASCII letters lowercased, other characters kept.
pub open spec fn ascii_lower(c: char) -> char {
    if 'A' <= c && c <= 'Z' {
        ((c as int) + 32) as char
    } else {
        c
    }
}

/// Equal ignoring ASCII case (what `eq_ignore_ascii_case` decides).
pub open spec fn eq_ignore_ascii_case(a: Seq<char>, b: Seq<char>) -> bool {
    a.len() == b.len() && forall|i: int| 0 <= i < a.len() ==> ascii_lower(a[i]) == ascii_lower(b[i])
}

fn lower_char(c: char) -> (r: char)
    ensures
        r == ascii_lower(c),
{
    if 'A' <= c && c <= 'Z' {
        let u = (c as u32) + 32;
        assert(65 <= u <= 122);
        let r = if u == 97 { 'a' } else if u == 98 { 'b' } else if u == 99 { 'c' } else if u == 100 {
            'd'
        } else if u == 101 { 'e' } else if u == 102 { 'f' } else if u == 103 { 'g' } else if u
            == 104 { 'h' } else if u == 105 { 'i' } else if u == 106 { 'j' } else if u == 107 {
            'k'
        } else if u == 108 { 'l' } else if u == 109 { 'm' } else if u == 110 { 'n' } else if u
            == 111 { 'o' } else if u == 112 { 'p' } else if u == 113 { 'q' } else if u == 114 {
            'r'
        } else if u == 115 { 's' } else if u == 116 { 't' } else if u == 117 { 'u' } else if u
            == 118 { 'v' } else if u == 119 { 'w' } else if u == 120 { 'x' } else if u == 121 {
            'y'
        } else {
            'z'
        };
        r
    } else {
        c
    }
}

/// Whether two texts are equal ignoring ASCII case.
pub fn equals_ignoring_ascii_case(a: &str, b: &str) -> (r: bool)
    ensures
        r == eq_ignore_ascii_case(a@, b@),
{
    let av = chars_of(a);
    let bv = chars_of(b);
    if av.len() != bv.len() {
        return false;
    }
    let mut i: usize = 0;
    while i < av.len()
        invariant
            i <= av.len(),
            av.len() == bv.len(),
            av@ == a@,
            bv@ == b@,
            forall|j: int| 0 <= j < i ==> ascii_lower(av@[j]) == ascii_lower(bv@[j]),
        decreases av.len() - i,
    {
        if lower_char(av[i]) != lower_char(bv[i]) {
            return false;
        }
        i = i + 1;
    }
    true
}

/// The annotation marking the default storage class.
pub open spec fn default_class_key() -> Seq<char> {
    "storageclass.kubernetes.io/is-default-class"@
}

/// The older annotation marking the default storage class.
pub open spec fn beta_default_class_key() -> Seq<char> {
    "storageclass.beta.kubernetes.io/is-default-class"@
}

/// An annotation's text, "" when absent or not a string.
pub open spec fn annotation_text(ann: JsonValue, key: Seq<char>) -> Seq<char> {
    match str_at(Some(ann), key) {
        Some(s) => s,
        None => Seq::empty(),
    }
}

/// Whether a storage class is marked as the default: either annotation
/// reads "true" in any ASCII case.
pub open spec fn is_default_class(it: ResourceSummary) -> bool {
    of_type(it, "StorageClass"@, "storage.k8s.io"@) && (eq_ignore_ascii_case(
        annotation_text(it.annotations, default_class_key()),
        "true"@,
    ) || eq_ignore_ascii_case(annotation_text(it.annotations, beta_default_class_key()), "true"@))
}

fn annotation(ann: &JsonValue, key: &str) -> (r: String)
    ensures
        r@ == annotation_text(*ann, key@),
{
    match crate::json::str_in(Some(ann), key) {
        Some(s) => s,
        None => String::new(),
    }
}

/// Whether a summary is the default storage class.
pub fn is_default_storage_class(it: &ResourceSummary) -> (r: bool)
    ensures
        r == is_default_class(*it),
{
    if !is_of_type(it, "StorageClass", "storage.k8s.io") {
        return false;
    }
    let stable = annotation(&it.annotations, "storageclass.kubernetes.io/is-default-class");
    let beta = annotation(&it.annotations, "storageclass.beta.kubernetes.io/is-default-class");
    equals_ignoring_ascii_case(stable.as_str(), "true") || equals_ignoring_ascii_case(beta.as_str(), "true")
}

// ---------------------------------------------------------------------------
// Kube contexts
// ---------------------------------------------------------------------------

/// The context to switch to for a choice in the context list: none (the
/// default) for the empty choice.
pub fn context_choice(value: &str) -> (r: Option<String>)
    ensures
        r.deep_view() == (if value@.len() == 0 {
            None
        } else {
            Some(value@)
        }),
{
    if value.is_empty() {
        None
    } else {
        Some(owned(value))
    }
}

/// The label of the default entry of the context list: the current context,
/// or "default".
pub fn default_context_label(current: &Option<String>) -> (r: String)
    ensures
        r@ == (match current.deep_view() {
            Some(c) => c,
            None => "default"@,
        }),
{
    match current {
        Some(c) => c.clone(),
        None => owned("default"),
    }
}

} // verus!
