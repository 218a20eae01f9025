//! Choosing what the resource list shows: selection keys of the form
//! "Kind.version/group", the default selection, the group a key selects,
//! the namespace filter and the side menu of resource types.
use vstd::prelude::*;
use crate::overview::{builtin_table, ListTargetView, ResourceGroup};
use crate::plural::plural_table;
use crate::summary::{GvkView, ResourceRefGvk, ResourceSummary};
use crate::text::{chars_of, join, join_strings, owned, str_eq, string_of};

verus! {

// ---------------------------------------------------------------------------
// Selection keys
// ---------------------------------------------------------------------------

/// The selection key of a type: "Kind.version/group".
pub open spec fn key_of(g: GvkView) -> Seq<char> {
    g.kind + "."@ + g.version + "/"@ + g.group
}

/// The selection key of a type.
pub fn group_key(gvk: &ResourceRefGvk) -> (r: String)
    ensures
        r@ == key_of(gvk.deep_view()),
{
    let mut k = gvk.kind.clone();
    k.append(".");
    k.append(gvk.version.as_str());
    k.append("/");
    k.append(gvk.group.as_str());
    k
}

/// The key a menu entry selects when the overview has no group for it:
/// "Kind.*/group".
pub open spec fn pattern_key(kind: Seq<char>, group: Seq<char>) -> Seq<char> {
    kind + ".*/"@ + group
}

/// The key a menu entry selects when the overview has no group for it.
pub fn menu_pattern_key(kind: &str, group: &str) -> (r: String)
    ensures
        r@ == pattern_key(kind@, group@),
{
    let mut k = owned(kind);
    k.append(".*/");
    k.append(group);
    k
}

/// Index of the first `c` in `s`.
pub open spec fn first_index(s: Seq<char>, c: char) -> Option<int> {
    if exists|i: int| 0 <= i < s.len() && s[i] == c {
        Some(choose|i: int| 0 <= i < s.len() && s[i] == c && forall|j: int| 0 <= j < i ==> s[j] != c)
    } else {
        None
    }
}

/// The two parts of a key around its single '/'; none when the key has no
/// '/' or more than one (as `split('/')` yields other than two parts).
pub open spec fn slash_parts(s: Seq<char>) -> Option<(Seq<char>, Seq<char>)> {
    match first_index(s, '/') {
        Some(i) => if forall|j: int| i < j < s.len() ==> s[j] != '/' {
            Some((s.take(i), s.skip(i + 1)))
        } else {
            None
        },
        None => None,
    }
}

/// The part of `s` before its first '.', or all of it.
pub open spec fn before_dot(s: Seq<char>) -> Seq<char> {
    match first_index(s, '.') {
        Some(i) => s.take(i),
        None => s,
    }
}

/// The kind and group a key names, ignoring its version.
pub open spec fn key_parts(s: Seq<char>) -> Option<(Seq<char>, Seq<char>)> {
    match slash_parts(s) {
        Some((left, right)) => Some((before_dot(left), right)),
        None => None,
    }
}

fn find_char(v: &Vec<char>, c: char, from: usize) -> (r: Option<usize>)
    requires
        from <= v.len(),
    ensures
        match r {
            Some(i) => from <= i < v.len() && v@[i as int] == c && forall|j: int|
                from <= j < i ==> v@[j] != c,
            None => forall|j: int| from <= j < v.len() ==> v@[j] != c,
        },
{
    let mut i: usize = from;
    while i < v.len()
        invariant
            from <= i <= v.len(),
            forall|j: int| from <= j < i ==> v@[j] != c,
        decreases v.len() - i,
    {
        if v[i] == c {
            return Some(i);
        }
        i = i + 1;
    }
    None
}

proof fn lemma_first_index(s: Seq<char>, c: char, i: int)
    requires
        0 <= i < s.len(),
        s[i] == c,
        forall|j: int| 0 <= j < i ==> s[j] != c,
    ensures
        first_index(s, c) == Some(i),
{
    let w = choose|k: int| 0 <= k < s.len() && s[k] == c && forall|j: int| 0 <= j < k ==> s[j] != c;
    if w < i {
        assert(s[w] == c);
    }
    if w > i {
        assert(s[i] != c);
    }
}

fn slice_string(v: &Vec<char>, a: usize, b: usize) -> (r: String)
    requires
        a <= b <= v.len(),
    ensures
        r@ == v@.subrange(a as int, b as int),
{
    let mut out: Vec<char> = Vec::new();
    let mut k: usize = a;
    while k < b
        invariant
            a <= k <= b <= v.len(),
            out@ == v@.subrange(a as int, k as int),
        decreases b - k,
    {
        out.push(v[k]);
        k = k + 1;
        assert(out@ =~= v@.subrange(a as int, k as int));
    }
    string_of(&out)
}

/// The kind and group a selection key names.
pub fn split_selection_key(key: &str) -> (r: Option<(String, String)>)
    ensures
        match r {
            Some((k, g)) => key_parts(key@) == Some((k@, g@)),
            None => key_parts(key@) is None,
        },
{
    let v = chars_of(key);
    match find_char(&v, '/', 0) {
        None => None,
        Some(i) => {
            proof {
                lemma_first_index(v@, '/', i as int);
            }
            match find_char(&v, '/', i + 1) {
                Some(j) => {
                    assert(v@[j as int] == '/');
                    None
                },
                None => {
                    let right = slice_string(&v, i + 1, v.len());
                    assert(v@.subrange(i + 1, v.len() as int) =~= v@.skip(i + 1));
                    let ghost left = v@.take(i as int);
                    let kind = match find_char(&v, '.', 0) {
                        Some(d) => {
                            if d < i {
                                proof {
                                    lemma_first_index(left, '.', d as int);
                                    assert(v@.subrange(0, d as int) =~= left.take(d as int));
                                }
                                slice_string(&v, 0, d)
                            } else {
                                proof {
                                    assert(forall|j: int| 0 <= j < left.len() ==> left[j] != '.');
                                    assert(v@.subrange(0, i as int) =~= left);
                                }
                                slice_string(&v, 0, i)
                            }
                        },
                        None => {
                            proof {
                                assert(forall|j: int| 0 <= j < left.len() ==> left[j] != '.');
                                assert(v@.subrange(0, i as int) =~= left);
                            }
                            slice_string(&v, 0, i)
                        },
                    };
                    Some((kind, right))
                },
            }
        },
    }
}

/// A key built from a type names that type's kind and group, when the kind
/// holds neither '.' nor '/' and the version and group hold no '/'.
pub proof fn key_names_its_type(g: GvkView)
    requires
        forall|i: int| 0 <= i < g.kind.len() ==> g.kind[i] != '.' && g.kind[i] != '/',
        forall|i: int| 0 <= i < g.version.len() ==> g.version[i] != '/',
        forall|i: int| 0 <= i < g.group.len() ==> g.group[i] != '/',
    ensures
        key_parts(key_of(g)) == Some((g.kind, g.group)),
{
    reveal_strlit(".");
    reveal_strlit("/");
    let s = key_of(g);
    let kl = g.kind.len() as int;
    let vl = g.version.len() as int;
    let slash = kl + 1 + vl;
    assert(s[slash] == '/');
    assert forall|j: int| 0 <= j < slash implies s[j] != '/' by {
        if j < kl {
            assert(s[j] == g.kind[j]);
        } else if j > kl {
            assert(s[j] == g.version[j - kl - 1]);
        }
    }
    lemma_first_index(s, '/', slash);
    assert forall|j: int| slash < j < s.len() implies s[j] != '/' by {
        assert(s[j] == g.group[j - slash - 1]);
    }
    assert(s.skip(slash + 1) =~= g.group);
    let left = s.take(slash);
    assert(left[kl] == '.');
    assert forall|j: int| 0 <= j < kl implies left[j] != '.' by {
        assert(left[j] == g.kind[j]);
    }
    lemma_first_index(left, '.', kl);
    assert(left.take(kl) =~= g.kind);
}

// ---------------------------------------------------------------------------
// Default selection and the selected group
// ---------------------------------------------------------------------------

/// The group is the core "Node" group.
pub open spec fn is_node_group(g: ResourceGroup) -> bool {
    g.gvk.kind@ == "Node"@ && g.gvk.group@.len() == 0
}

/// Index of the first group satisfying `p`.
pub open spec fn first_group(groups: Seq<ResourceGroup>, p: spec_fn(ResourceGroup) -> bool) -> Option<int> {
    if exists|i: int| 0 <= i < groups.len() && p(groups[i]) {
        Some(
            choose|i: int|
                0 <= i < groups.len() && p(groups[i]) && forall|j: int| 0 <= j < i ==> !p(#[trigger] groups[j]),
        )
    } else {
        None
    }
}

/// The key selected when nothing is: the core Node group's, else the first
/// group's, else none.
pub open spec fn default_key(groups: Seq<ResourceGroup>) -> Option<Seq<char>> {
    match first_group(groups, node_pred()) {
        Some(i) => Some(key_of(groups[i].gvk.deep_view())),
        None => if groups.len() > 0 {
            Some(key_of(groups[0].gvk.deep_view()))
        } else {
            None
        },
    }
}

proof fn lemma_first_group(groups: Seq<ResourceGroup>, p: spec_fn(ResourceGroup) -> bool, i: int)
    requires
        0 <= i < groups.len(),
        p(groups[i]),
        forall|j: int| 0 <= j < i ==> !p(#[trigger] groups[j]),
    ensures
        first_group(groups, p) == Some(i),
{
    let w = choose|k: int|
        0 <= k < groups.len() && p(groups[k]) && forall|j: int| 0 <= j < k ==> !p(#[trigger] groups[j]);
    if w < i {
        assert(p(groups[w]));
    }
    if w > i {
        assert(!p(groups[i]));
    }
}

/// Groups of the core Node type.
pub open spec fn node_pred() -> spec_fn(ResourceGroup) -> bool {
    |g: ResourceGroup| is_node_group(g)
}

/// Groups with selection key `key`.
pub open spec fn key_pred(key: Seq<char>) -> spec_fn(ResourceGroup) -> bool {
    |g: ResourceGroup| key_of(g.gvk.deep_view()) == key
}

/// Groups with kind `kind` and group `group`.
pub open spec fn kind_pred(kind: Seq<char>, group: Seq<char>) -> spec_fn(ResourceGroup) -> bool {
    |g: ResourceGroup| g.gvk.kind@ == kind && g.gvk.group@ == group
}

/// Index of the first core Node group.
pub fn find_node_group(groups: &Vec<ResourceGroup>) -> (r: Option<usize>)
    ensures
        match r {
            Some(i) => i < groups.len() && first_group(groups@, node_pred()) == Some(i as int),
            None => first_group(groups@, node_pred()) is None,
        },
{
    let mut i: usize = 0;
    while i < groups.len()
        invariant
            i <= groups.len(),
            forall|j: int| 0 <= j < i ==> !node_pred()(#[trigger] groups@[j]),
        decreases groups.len() - i,
    {
        let g = &groups[i];
        if str_eq(g.gvk.kind.as_str(), "Node") && g.gvk.group.as_str().is_empty() {
            proof {
                lemma_first_group(groups@, node_pred(), i as int);
            }
            return Some(i);
        }
        i = i + 1;
    }
    None
}

/// Index of the first group with selection key `key`.
pub fn find_group_with_key(groups: &Vec<ResourceGroup>, key: &str) -> (r: Option<usize>)
    ensures
        match r {
            Some(i) => i < groups.len() && first_group(groups@, key_pred(key@)) == Some(i as int),
            None => first_group(groups@, key_pred(key@)) is None,
        },
{
    let mut i: usize = 0;
    while i < groups.len()
        invariant
            i <= groups.len(),
            forall|j: int| 0 <= j < i ==> !key_pred(key@)(#[trigger] groups@[j]),
        decreases groups.len() - i,
    {
        let k = group_key(&groups[i].gvk);
        if str_eq(k.as_str(), key) {
            proof {
                lemma_first_group(groups@, key_pred(key@), i as int);
            }
            return Some(i);
        }
        i = i + 1;
    }
    None
}

/// Index of the first group with kind `kind` and group `group`.
pub fn find_group_with_kind(groups: &Vec<ResourceGroup>, kind: &str, group: &str) -> (r: Option<usize>)
    ensures
        match r {
            Some(i) => i < groups.len() && first_group(groups@, kind_pred(kind@, group@)) == Some(i as int),
            None => first_group(groups@, kind_pred(kind@, group@)) is None,
        },
{
    let mut i: usize = 0;
    while i < groups.len()
        invariant
            i <= groups.len(),
            forall|j: int| 0 <= j < i ==> !kind_pred(kind@, group@)(#[trigger] groups@[j]),
        decreases groups.len() - i,
    {
        let g = &groups[i];
        if str_eq(g.gvk.kind.as_str(), kind) && str_eq(g.gvk.group.as_str(), group) {
            proof {
                lemma_first_group(groups@, kind_pred(kind@, group@), i as int);
            }
            return Some(i);
        }
        i = i + 1;
    }
    None
}

/// The key selected by default after a load.
pub fn default_selection(groups: &Vec<ResourceGroup>) -> (r: Option<String>)
    ensures
        r.deep_view() == default_key(groups@),
{
    match find_node_group(groups) {
        Some(i) => Some(group_key(&groups[i].gvk)),
        None => {
            if groups.len() > 0 {
                Some(group_key(&groups[0].gvk))
            } else {
                None
            }
        },
    }
}

/// The group a key selects: the one with exactly that key, else the first
/// with the kind and group the key names.
pub open spec fn selected_group(groups: Seq<ResourceGroup>, key: Seq<char>) -> Option<int> {
    match first_group(groups, key_pred(key)) {
        Some(i) => Some(i),
        None => match key_parts(key) {
            Some((k, g)) => first_group(groups, kind_pred(k, g)),
            None => None,
        },
    }
}

/// Index of the group a key selects.
pub fn find_selected_group(groups: &Vec<ResourceGroup>, key: &str) -> (r: Option<usize>)
    ensures
        match r {
            Some(i) => i < groups.len() && selected_group(groups@, key@) == Some(i as int),
            None => selected_group(groups@, key@) is None,
        },
{
    match find_group_with_key(groups, key) {
        Some(i) => Some(i),
        None => match split_selection_key(key) {
            Some((k, g)) => find_group_with_kind(groups, k.as_str(), g.as_str()),
            None => None,
        },
    }
}

// ---------------------------------------------------------------------------
// The resource list panel
// ---------------------------------------------------------------------------

/// What the resource list shows: whether a group is selected, which one, the
/// indices of its items that pass the namespace filter, and its errors.
pub struct PanelState {
    pub found: bool,
    pub group: Option<usize>,
    pub items: Vec<usize>,
    pub has_errors: bool,
    pub errors_text: String,
}

/// The item passes the namespace filter (no filter passes everything).
pub open spec fn passes_filter(it: ResourceSummary, ns: Option<Seq<char>>) -> bool {
    match ns {
        None => true,
        Some(n) => it.reference.namespace.deep_view() == Some(n),
    }
}

/// The indices below `n` of the items that pass the filter, ascending.
pub open spec fn shown_indices(items: Seq<ResourceSummary>, ns: Option<Seq<char>>, n: int) -> Seq<usize>
    decreases n,
{
    if n <= 0 {
        Seq::empty()
    } else if passes_filter(items[n - 1], ns) {
        shown_indices(items, ns, n - 1).push((n - 1) as usize)
    } else {
        shown_indices(items, ns, n - 1)
    }
}

/// The error texts of a group, as shown: joined by " | ".
pub open spec fn errors_line(errors: Seq<Seq<char>>) -> Seq<char> {
    join(errors, " | "@)
}

/// `p` is the panel for the overview `groups` (if loaded), the selected key
/// and the namespace filter.
pub open spec fn panel_for(p: PanelState, groups: Option<Seq<ResourceGroup>>, key: Option<Seq<char>>, ns: Option<Seq<char>>) -> bool {
    let sel = match (groups, key) {
        (Some(gs), Some(k)) => selected_group(gs, k),
        _ => None,
    };
    match sel {
        None => !p.found && p.group is None && p.items@.len() == 0 && !p.has_errors && p.errors_text@.len() == 0,
        Some(i) => {
            let g = groups->0[i];
            &&& p.found
            &&& p.group == Some(i as usize)
            &&& p.items@ == shown_indices(g.items@, ns, g.items@.len() as int)
            &&& p.has_errors == (g.errors@.len() > 0)
            &&& p.errors_text@ == errors_line(g.errors.deep_view())
        },
    }
}

fn passes_filter_exec(it: &ResourceSummary, ns: &Option<String>) -> (r: bool)
    ensures
        r == passes_filter(*it, ns.deep_view()),
{
    match ns {
        None => true,
        Some(n) => match &it.reference.namespace {
            Some(x) => *x == *n,
            None => false,
        },
    }
}

/// The indices of the items that pass the namespace filter.
pub fn filter_items(items: &Vec<ResourceSummary>, ns: &Option<String>) -> (r: Vec<usize>)
    ensures
        r@ == shown_indices(items@, ns.deep_view(), items@.len() as int),
{
    let mut out: Vec<usize> = Vec::new();
    let mut i: usize = 0;
    while i < items.len()
        invariant
            i <= items.len(),
            out@ == shown_indices(items@, ns.deep_view(), i as int),
        decreases items.len() - i,
    {
        if passes_filter_exec(&items[i], ns) {
            out.push(i);
        }
        i = i + 1;
    }
    out
}

/// The resource list panel for the loaded overview (if any), the selected
/// key (if any) and the namespace filter.
pub fn panel_state(groups: Option<&Vec<ResourceGroup>>, key: &Option<String>, ns: &Option<String>) -> (r: PanelState)
    ensures
        panel_for(
            r,
            match groups {
                Some(g) => Some(g@),
                None => None,
            },
            key.deep_view(),
            ns.deep_view(),
        ),
{
    let none = PanelState {
        found: false,
        group: None,
        items: Vec::new(),
        has_errors: false,
        errors_text: String::new(),
    };
    match (groups, key) {
        (Some(gs), Some(k)) => match find_selected_group(gs, k.as_str()) {
            Some(i) => {
                let g = &gs[i];
                PanelState {
                    found: true,
                    group: Some(i),
                    items: filter_items(&g.items, ns),
                    has_errors: g.errors.len() > 0,
                    errors_text: join_strings(&g.errors, " | "),
                }
            },
            None => none,
        },
        _ => none,
    }
}

// ---------------------------------------------------------------------------
// The side menu
// ---------------------------------------------------------------------------

/// One entry of the side menu.
pub struct MenuItem {
    pub group: &'static str,
    pub kind: &'static str,
    pub title: &'static str,
}

/// A titled section of the side menu.
pub struct MenuGroup {
    pub group_title: &'static str,
    pub items: Vec<MenuItem>,
}

/// A menu entry: group, kind and title.
pub open spec fn entry(g: Seq<char>, k: Seq<char>, t: Seq<char>) -> (Seq<char>, Seq<char>, Seq<char>) {
    (g, k, t)
}

/// The sections of the side menu with their entries.
pub open spec fn menu_table() -> Seq<(Seq<char>, Seq<(Seq<char>, Seq<char>, Seq<char>)>)> {
    seq![
        ("Workloads"@, seq![
            entry(""@, "Pod"@, "Pods"@),
            entry("apps"@, "Deployment"@, "Deployments"@),
            entry("apps"@, "StatefulSet"@, "StatefulSets"@),
            entry("apps"@, "DaemonSet"@, "DaemonSets"@),
            entry("apps"@, "ReplicaSet"@, "ReplicaSets"@),
            entry("batch"@, "Job"@, "Jobs"@),
            entry("batch"@, "CronJob"@, "CronJobs"@),
        ]),
        ("Networking"@, seq![
            entry(""@, "Service"@, "Services"@),
            entry("networking.k8s.io"@, "Ingress"@, "Ingresses"@),
            entry("discovery.k8s.io"@, "EndpointSlice"@, "EndpointSlices"@),
        ]),
        ("Storage"@, seq![
            entry(""@, "PersistentVolume"@, "PVs"@),
            entry(""@, "PersistentVolumeClaim"@, "PVCs"@),
            entry("storage.k8s.io"@, "StorageClass"@, "StorageClasses"@),
        ]),
        ("Cluster"@, seq![
            entry(""@, "Node"@, "Nodes"@),
            entry(""@, "Namespace"@, "Namespaces"@),
            entry(""@, "ConfigMap"@, "ConfigMaps"@),
            entry(""@, "Secret"@, "Secrets"@),
        ]),
    ]
}

/// The view of a menu section.
pub open spec fn menu_group_view(g: MenuGroup) -> (Seq<char>, Seq<(Seq<char>, Seq<char>, Seq<char>)>) {
    (g.group_title@, g.items@.map_values(|m: MenuItem| (m.group@, m.kind@, m.title@)))
}

fn item(group: &'static str, kind: &'static str, title: &'static str) -> (r: MenuItem)
    ensures
        (r.group@, r.kind@, r.title@) == entry(group@, kind@, title@),
{
    MenuItem { group, kind, title }
}

/// The side menu: its sections and their entries, in display order.
pub fn static_menu() -> (r: Vec<MenuGroup>)
    ensures
        r@.map_values(|g: MenuGroup| menu_group_view(g)) == menu_table(),
{
    let mut workloads: Vec<MenuItem> = Vec::new();
    workloads.push(item("", "Pod", "Pods"));
    workloads.push(item("apps", "Deployment", "Deployments"));
    workloads.push(item("apps", "StatefulSet", "StatefulSets"));
    workloads.push(item("apps", "DaemonSet", "DaemonSets"));
    workloads.push(item("apps", "ReplicaSet", "ReplicaSets"));
    workloads.push(item("batch", "Job", "Jobs"));
    workloads.push(item("batch", "CronJob", "CronJobs"));
    let mut networking: Vec<MenuItem> = Vec::new();
    networking.push(item("", "Service", "Services"));
    networking.push(item("networking.k8s.io", "Ingress", "Ingresses"));
    networking.push(item("discovery.k8s.io", "EndpointSlice", "EndpointSlices"));
    let mut storage: Vec<MenuItem> = Vec::new();
    storage.push(item("", "PersistentVolume", "PVs"));
    storage.push(item("", "PersistentVolumeClaim", "PVCs"));
    storage.push(item("storage.k8s.io", "StorageClass", "StorageClasses"));
    let mut cluster: Vec<MenuItem> = Vec::new();
    cluster.push(item("", "Node", "Nodes"));
    cluster.push(item("", "Namespace", "Namespaces"));
    cluster.push(item("", "ConfigMap", "ConfigMaps"));
    cluster.push(item("", "Secret", "Secrets"));
    let mut menu: Vec<MenuGroup> = Vec::new();
    let w = MenuGroup { group_title: "Workloads", items: workloads };
    assert(menu_group_view(w) =~= menu_table()[0]);
    menu.push(w);
    let n = MenuGroup { group_title: "Networking", items: networking };
    assert(menu_group_view(n) =~= menu_table()[1]);
    menu.push(n);
    let s = MenuGroup { group_title: "Storage", items: storage };
    assert(menu_group_view(s) =~= menu_table()[2]);
    menu.push(s);
    let c = MenuGroup { group_title: "Cluster", items: cluster };
    assert(menu_group_view(c) =~= menu_table()[3]);
    menu.push(c);
    assert(menu@.map_values(|g: MenuGroup| menu_group_view(g)) =~= menu_table());
    menu
}

/// Whether a menu entry for `kind` in `group` is highlighted: the selected
/// key names that kind and group, whatever its version.
pub open spec fn menu_active(selected: Option<Seq<char>>, kind: Seq<char>, group: Seq<char>) -> bool {
    match selected {
        Some(s) => key_parts(s) == Some((kind, group)),
        None => false,
    }
}

/// Whether a menu entry is highlighted.
pub fn menu_item_active(selected: &Option<String>, kind: &str, group: &str) -> (r: bool)
    ensures
        r == menu_active(selected.deep_view(), kind@, group@),
{
    match selected {
        Some(s) => match split_selection_key(s.as_str()) {
            Some((k, g)) => str_eq(k.as_str(), kind) && str_eq(g.as_str(), group),
            None => false,
        },
        None => false,
    }
}

/// A watch to start: the type and the namespace to watch in (all when none).
pub struct WatchRequest {
    pub gvk: ResourceRefGvk,
    pub namespace: Option<String>,
}

/// The types that change along with a selected one and are watched with it.
pub open spec fn cascade_table(group: Seq<char>, kind: Seq<char>) -> Seq<GvkView> {
    let pod = GvkView { group: ""@, version: "v1"@, kind: "Pod"@ };
    if group == "apps"@ && kind == "Deployment"@ {
        seq![GvkView { group: "apps"@, version: "v1"@, kind: "ReplicaSet"@ }, pod]
    } else if group == "apps"@ && (kind == "StatefulSet"@ || kind == "DaemonSet"@) {
        seq![pod]
    } else if group == "batch"@ && kind == "Job"@ {
        seq![pod]
    } else if group == "batch"@ && kind == "CronJob"@ {
        seq![GvkView { group: "batch"@, version: "v1"@, kind: "Job"@ }, pod]
    } else if group == ""@ && kind == "Service"@ {
        seq![GvkView { group: "discovery.k8s.io"@, version: "v1"@, kind: "EndpointSlice"@ }]
    } else {
        Seq::empty()
    }
}

fn gvk_of(g: &str, v: &str, k: &str) -> (r: ResourceRefGvk)
    ensures
        r.deep_view() == (GvkView { group: g@, version: v@, kind: k@ }),
{
    ResourceRefGvk { group: owned(g), version: owned(v), kind: owned(k) }
}

/// The types watched along with a selected one.
pub fn cascade_targets(group: &str, kind: &str) -> (r: Vec<ResourceRefGvk>)
    ensures
        r.deep_view() == cascade_table(group@, kind@),
{
    let mut out: Vec<ResourceRefGvk> = Vec::new();
    if str_eq(group, "apps") && str_eq(kind, "Deployment") {
        out.push(gvk_of("apps", "v1", "ReplicaSet"));
        out.push(gvk_of("", "v1", "Pod"));
    } else if str_eq(group, "apps") && (str_eq(kind, "StatefulSet") || str_eq(kind, "DaemonSet")) {
        out.push(gvk_of("", "v1", "Pod"));
    } else if str_eq(group, "batch") && str_eq(kind, "Job") {
        out.push(gvk_of("", "v1", "Pod"));
    } else if str_eq(group, "batch") && str_eq(kind, "CronJob") {
        out.push(gvk_of("batch", "v1", "Job"));
        out.push(gvk_of("", "v1", "Pod"));
    } else if str_eq(group, "") && str_eq(kind, "Service") {
        out.push(gvk_of("discovery.k8s.io", "v1", "EndpointSlice"));
    }
    assert(out.deep_view() =~= cascade_table(group@, kind@));
    out
}

/// What choosing a menu entry does: the key it selects and the watches it
/// starts (the selected type first, then the cascade).
pub struct MenuChoice {
    pub key: String,
    pub watches: Vec<WatchRequest>,
}

/// The watched types of a list of watch requests.
pub open spec fn watched(ws: Seq<WatchRequest>) -> Seq<GvkView> {
    ws.map_values(|w: WatchRequest| w.gvk.deep_view())
}

/// `c` is the effect of choosing the entry for `kind` in `group` with the
/// overview `groups` loaded (if any) and namespace filter `ns`: when the
/// overview has a group of that kind, its key and its type (with its
/// version); otherwise the pattern key and the type with no version.
pub open spec fn menu_choice_for(c: MenuChoice, groups: Option<Seq<ResourceGroup>>, group: Seq<char>, kind: Seq<char>, ns: Option<Seq<char>>) -> bool {
    let found = match groups {
        Some(gs) => first_group(gs, kind_pred(kind, group)),
        None => None,
    };
    let primary = match found {
        Some(i) => groups->0[i].gvk.deep_view(),
        None => GvkView { group: group, version: ""@, kind: kind },
    };
    &&& c.key@ == (match found {
        Some(i) => key_of(primary),
        None => pattern_key(kind, group),
    })
    &&& watched(c.watches@) == seq![primary] + cascade_table(primary.group, primary.kind)
    &&& forall|j: int| 0 <= j < c.watches@.len() ==> (#[trigger] c.watches@[j]).namespace.deep_view() == ns
}

/// The effect of choosing a menu entry.
pub fn menu_choice(groups: Option<&Vec<ResourceGroup>>, group: &str, kind: &str, ns: &Option<String>) -> (r: MenuChoice)
    ensures
        menu_choice_for(
            r,
            match groups {
                Some(g) => Some(g@),
                None => None,
            },
            group@,
            kind@,
            ns.deep_view(),
        ),
{
    let found = match groups {
        Some(gs) => find_group_with_kind(gs, kind, group),
        None => None,
    };
    let (key, primary) = match found {
        Some(i) => {
            let g = &groups.unwrap()[i];
            (group_key(&g.gvk), g.gvk.copy())
        },
        None => (menu_pattern_key(kind, group), gvk_of(group, "", kind)),
    };
    let extra = cascade_targets(primary.group.as_str(), primary.kind.as_str());
    let mut watches: Vec<WatchRequest> = Vec::new();
    watches.push(WatchRequest { gvk: primary, namespace: clone_ns(ns) });
    let mut i: usize = 0;
    while i < extra.len()
        invariant
            i <= extra.len(),
            watches@.len() == i + 1,
            watched(watches@) == seq![primary.deep_view()] + extra.deep_view().take(i as int),
            forall|j: int| 0 <= j < watches@.len() ==> (#[trigger] watches@[j]).namespace.deep_view() == ns.deep_view(),
        decreases extra.len() - i,
    {
        let ghost before = watches@;
        let w = WatchRequest { gvk: extra[i].copy(), namespace: clone_ns(ns) };
        let ghost wv = w.gvk.deep_view();
        assert(wv == extra.deep_view()[i as int]);
        watches.push(w);
        assert(watched(watches@) =~= watched(before).push(wv));
        assert(extra.deep_view().take(i + 1) =~= extra.deep_view().take(i as int).push(wv));
        i = i + 1;
    }
    assert(extra.deep_view().take(extra.len() as int) =~= extra.deep_view());
    MenuChoice { key, watches }
}

fn clone_ns(ns: &Option<String>) -> (r: Option<String>)
    ensures
        r.deep_view() == ns.deep_view(),
{
    match ns {
        Some(s) => Some(s.clone()),
        None => None,
    }
}

// ---------------------------------------------------------------------------
// The namespace filter
// ---------------------------------------------------------------------------

/// Lexicographic order of texts by code point (the order of `String`'s `Ord`,
/// which compares UTF-8 bytes, the same order).
pub open spec fn text_lt(a: Seq<char>, b: Seq<char>) -> bool
    decreases a.len(),
{
    if a.len() == 0 {
        b.len() > 0
    } else if b.len() == 0 {
        false
    } else if a[0] != b[0] {
        (a[0] as int) < (b[0] as int)
    } else {
        text_lt(a.skip(1), b.skip(1))
    }
}

/// Each text precedes the next: ascending, without repeats.
pub open spec fn strictly_sorted(s: Seq<Seq<char>>) -> bool {
    forall|i: int, j: int| 0 <= i < j < s.len() ==> text_lt(#[trigger] s[i], #[trigger] s[j])
}

/// `n` is the namespace of some item of some group.
pub open spec fn namespace_in(groups: Seq<ResourceGroup>, n: Seq<char>) -> bool {
    exists|i: int, j: int|
        0 <= i < groups.len() && 0 <= j < groups[i].items@.len()
            && (#[trigger] groups[i].items@[j]).reference.namespace.deep_view() == Some(n)
}

proof fn lemma_lt_irrefl(a: Seq<char>)
    ensures
        !text_lt(a, a),
    decreases a.len(),
{
    if a.len() > 0 {
        lemma_lt_irrefl(a.skip(1));
    }
}

proof fn lemma_lt_asym(a: Seq<char>, b: Seq<char>)
    requires
        text_lt(a, b),
    ensures
        !text_lt(b, a),
    decreases a.len(),
{
    if a.len() > 0 && b.len() > 0 && a[0] == b[0] {
        lemma_lt_asym(a.skip(1), b.skip(1));
    }
}

proof fn lemma_lt_total(a: Seq<char>, b: Seq<char>)
    requires
        a != b,
    ensures
        text_lt(a, b) || text_lt(b, a),
    decreases a.len(),
{
    if a.len() == 0 {
        assert(b.len() > 0) by {
            if b.len() == 0 {
                assert(a =~= b);
            }
        }
    } else if b.len() == 0 {
    } else if a[0] != b[0] {
        assert((a[0] as int) != (b[0] as int));
    } else {
        assert(a.skip(1) != b.skip(1)) by {
            if a.skip(1) == b.skip(1) {
                assert(a =~= seq![a[0]] + a.skip(1));
                assert(b =~= seq![b[0]] + b.skip(1));
            }
        }
        lemma_lt_total(a.skip(1), b.skip(1));
    }
}

proof fn lemma_lt_trans(a: Seq<char>, b: Seq<char>, c: Seq<char>)
    requires
        text_lt(a, b),
        text_lt(b, c),
    ensures
        text_lt(a, c),
    decreases a.len(),
{
    if a.len() > 0 && b.len() > 0 && c.len() > 0 && a[0] == b[0] && b[0] == c[0] {
        lemma_lt_trans(a.skip(1), b.skip(1), c.skip(1));
    }
}

/// Whether `a` precedes `b`.
pub fn text_less(a: &str, b: &str) -> (r: bool)
    ensures
        r == text_lt(a@, b@),
{
    let av = chars_of(a);
    let bv = chars_of(b);
    let mut k: usize = 0;
    assert(av@.skip(0) =~= av@);
    assert(bv@.skip(0) =~= bv@);
    loop
        invariant
            k <= av.len(),
            k <= bv.len(),
            av@ == a@,
            bv@ == b@,
            text_lt(av@, bv@) == text_lt(av@.skip(k as int), bv@.skip(k as int)),
        decreases av.len() - k,
    {
        let ghost sa = av@.skip(k as int);
        let ghost sb = bv@.skip(k as int);
        if k == av.len() {
            return k < bv.len();
        }
        if k == bv.len() {
            return false;
        }
        assert(sa[0] == av@[k as int]);
        assert(sb[0] == bv@[k as int]);
        let x = av[k];
        let y = bv[k];
        if x != y {
            return x < y;
        }
        assert(sa.skip(1) =~= av@.skip(k + 1));
        assert(sb.skip(1) =~= bv@.skip(k + 1));
        k = k + 1;
    }
}

/// Adds `x` to a strictly sorted list at its place, unless it is there.
pub fn insert_sorted(out: &mut Vec<String>, x: String)
    requires
        strictly_sorted(old(out).deep_view()),
    ensures
        strictly_sorted(final(out).deep_view()),
        forall|n: Seq<char>| final(out).deep_view().contains(n) <==> (old(out).deep_view().contains(n) || n == x@),
{
    let ghost before = out.deep_view();
    let mut p: usize = 0;
    while p < out.len() && text_less(out[p].as_str(), x.as_str())
        invariant
            p <= out.len(),
            out.deep_view() == before,
            forall|i: int| 0 <= i < p ==> text_lt(#[trigger] before[i], x@),
        decreases out.len() - p,
    {
        p = p + 1;
    }
    if p < out.len() && out[p] == x {
        assert(before[p as int] == x@);
        assert forall|n: Seq<char>| before.contains(n) || n == x@ implies #[trigger] before.contains(n) by {
            if n == x@ {
                assert(before[p as int] == n);
            }
        }
        return;
    }
    proof {
        assert forall|i: int| p <= i < before.len() implies text_lt(x@, #[trigger] before[i]) by {
            assert(!text_lt(before[p as int], x@));
            assert(before[p as int] != x@);
            lemma_lt_total(before[p as int], x@);
            if i > p {
                lemma_lt_trans(x@, before[p as int], before[i]);
            }
        }
    }
    out.insert(p, x);
    let ghost after = out.deep_view();
    assert(after =~= before.insert(p as int, x@));
    assert forall|i: int, j: int| 0 <= i < j < after.len() implies text_lt(#[trigger] after[i], #[trigger] after[j]) by {
        if j < p {
        } else if j == p {
        } else if i < p {
            lemma_lt_trans(after[i], x@, after[j]);
        } else if i == p {
        } else {
        }
    }
    assert forall|n: Seq<char>| after.contains(n) <==> (before.contains(n) || n == x@) by {
        if after.contains(n) {
            let k = choose|k: int| 0 <= k < after.len() && after[k] == n;
            if k < p {
                assert(before[k] == n);
            } else if k > p {
                assert(before[k - 1] == n);
            }
        }
        if before.contains(n) {
            let k = choose|k: int| 0 <= k < before.len() && before[k] == n;
            if k < p {
                assert(after[k] == n);
            } else {
                assert(after[k + 1] == n);
            }
        }
        if n == x@ {
            assert(after[p as int] == n);
        }
    }
}

/// Item `it` lies in namespace `n`.
pub open spec fn in_ns(it: ResourceSummary, n: Seq<char>) -> bool {
    it.reference.namespace.deep_view() == Some(n)
}

/// One of the first `k` items lies in namespace `n`.
pub open spec fn ns_in_items(items: Seq<ResourceSummary>, k: int, n: Seq<char>) -> bool {
    exists|j: int| 0 <= j < k && in_ns(#[trigger] items[j], n)
}

/// An item of one of the first `k` groups lies in namespace `n`.
pub open spec fn ns_in_groups(groups: Seq<ResourceGroup>, k: int, n: Seq<char>) -> bool {
    exists|i: int| 0 <= i < k && #[trigger] ns_in_items(groups[i].items@, groups[i].items@.len() as int, n)
}

/// `out` holds the namespaces of the first `gi` groups and of the first `ii`
/// items of `items`.
pub open spec fn collected(out: Seq<Seq<char>>, groups: Seq<ResourceGroup>, gi: int, items: Seq<ResourceSummary>, ii: int) -> bool {
    forall|n: Seq<char>| #[trigger] out.contains(n) <==> (ns_in_groups(groups, gi, n) || ns_in_items(items, ii, n))
}

/// The namespaces of all items of all groups, with repeats, in list order.
pub fn collect_namespaces(groups: &Vec<ResourceGroup>) -> (r: Vec<String>)
    ensures
        forall|n: Seq<char>| r.deep_view().contains(n) <==> namespace_in(groups@, n),
{
    let mut out: Vec<String> = Vec::new();
    let mut gi: usize = 0;
    while gi < groups.len()
        invariant
            gi <= groups.len(),
            forall|n: Seq<char>| out.deep_view().contains(n) <==> #[trigger] ns_in_groups(groups@, gi as int, n),
        decreases groups.len() - gi,
    {
        let items = &groups[gi].items;
        let mut ii: usize = 0;
        while ii < items.len()
            invariant
                gi < groups.len(),
                *items == groups@[gi as int].items,
                ii <= items.len(),
                collected(out.deep_view(), groups@, gi as int, items@, ii as int),
            decreases items.len() - ii,
        {
            let ghost before = out.deep_view();
            let ghost it = items@[ii as int];
            let ghost cur = ii as int;
            match &items[ii].reference.namespace {
                Some(ns) => {
                    out.push(ns.clone());
                    assert(out.deep_view() =~= before.push(ns@));
                },
                None => {},
            }
            ii = ii + 1;
            assert forall|n: Seq<char>|
                #[trigger] out.deep_view().contains(n) <==> (ns_in_groups(groups@, gi as int, n) || ns_in_items(
                    items@,
                    ii as int,
                    n,
                )) by {
                if ns_in_items(items@, cur + 1, n) {
                    let j = choose|j: int| 0 <= j < cur + 1 && in_ns(#[trigger] items@[j], n);
                    if j < cur {
                        assert(ns_in_items(items@, cur, n));
                    }
                }
                if ns_in_items(items@, cur, n) {
                    let j = choose|j: int| 0 <= j < cur && in_ns(#[trigger] items@[j], n);
                    assert(in_ns(items@[j], n));
                }
                if out.deep_view().contains(n) {
                    let k = choose|k: int| 0 <= k < out.deep_view().len() && out.deep_view()[k] == n;
                    if k < before.len() {
                        assert(before[k] == n);
                    } else {
                        assert(in_ns(items@[cur], n));
                    }
                }
                if before.contains(n) {
                    let k = choose|k: int| 0 <= k < before.len() && before[k] == n;
                    assert(out.deep_view()[k] == n);
                }
                if in_ns(it, n) {
                    assert(out.deep_view()[before.len() as int] == n);
                }
            }
            assert(collected(out.deep_view(), groups@, gi as int, items@, ii as int));
        }
        assert forall|n: Seq<char>| out.deep_view().contains(n) <==> #[trigger] ns_in_groups(groups@, gi + 1, n) by {
            if ns_in_groups(groups@, gi + 1, n) {
                let i = choose|i: int| 0 <= i < gi + 1 && #[trigger] ns_in_items(groups@[i].items@, groups@[i].items@.len() as int, n);
                if i < gi {
                    assert(ns_in_groups(groups@, gi as int, n));
                }
            }
            if ns_in_groups(groups@, gi as int, n) {
                let i = choose|i: int| 0 <= i < gi && #[trigger] ns_in_items(groups@[i].items@, groups@[i].items@.len() as int, n);
                assert(ns_in_items(groups@[i].items@, groups@[i].items@.len() as int, n));
            }
            if ns_in_items(items@, items@.len() as int, n) {
                assert(ns_in_items(groups@[gi as int].items@, groups@[gi as int].items@.len() as int, n));
            }
        }
        gi = gi + 1;
    }
    assert forall|n: Seq<char>| out.deep_view().contains(n) <==> namespace_in(groups@, n) by {
        if ns_in_groups(groups@, groups@.len() as int, n) {
            let i = choose|i: int| 0 <= i < groups@.len() && #[trigger] ns_in_items(groups@[i].items@, groups@[i].items@.len() as int, n);
            let j = choose|j: int| 0 <= j < groups@[i].items@.len() && in_ns(#[trigger] groups@[i].items@[j], n);
            assert(groups@[i].items@[j].reference.namespace.deep_view() == Some(n));
        }
        if namespace_in(groups@, n) {
            let (i, j) = choose|i: int, j: int|
                0 <= i < groups@.len() && 0 <= j < groups@[i].items@.len()
                    && (#[trigger] groups@[i].items@[j]).reference.namespace.deep_view() == Some(n);
            assert(in_ns(groups@[i].items@[j], n));
            assert(ns_in_items(groups@[i].items@, groups@[i].items@.len() as int, n));
        }
    }
    out
}

/// The choices of the namespace filter: "All", then every namespace of the
/// listed objects once, in ascending order.
pub fn namespace_options(groups: &Vec<ResourceGroup>) -> (r: Vec<String>)
    ensures
        r.deep_view().len() >= 1,
        r.deep_view()[0] == "All"@,
        strictly_sorted(r.deep_view().skip(1)),
        forall|n: Seq<char>| r.deep_view().skip(1).contains(n) <==> namespace_in(groups@, n),
{
    let all = collect_namespaces(groups);
    let mut sorted: Vec<String> = Vec::new();
    let mut k: usize = 0;
    while k < all.len()
        invariant
            k <= all.len(),
            strictly_sorted(sorted.deep_view()),
            forall|n: Seq<char>| sorted.deep_view().contains(n) <==> all.deep_view().take(k as int).contains(n),
        decreases all.len() - k,
    {
        let ghost prev = all.deep_view().take(k as int);
        insert_sorted(&mut sorted, all[k].clone());
        assert forall|n: Seq<char>| all.deep_view().take(k + 1).contains(n) <==> (prev.contains(n) || n == all.deep_view()[k as int]) by {
            let t = all.deep_view().take(k + 1);
            assert(t =~= prev.push(all.deep_view()[k as int]));
            if t.contains(n) {
                let q = choose|q: int| 0 <= q < t.len() && t[q] == n;
                if q < k {
                    assert(prev[q] == n);
                }
            }
            if prev.contains(n) {
                let q = choose|q: int| 0 <= q < prev.len() && prev[q] == n;
                assert(t[q] == n);
            }
            if n == all.deep_view()[k as int] {
                assert(t[k as int] == n);
            }
        }
        k = k + 1;
    }
    assert(all.deep_view().take(all.len() as int) =~= all.deep_view());
    let mut out: Vec<String> = Vec::new();
    out.push(owned("All"));
    let mut k: usize = 0;
    while k < sorted.len()
        invariant
            k <= sorted.len(),
            out.deep_view().len() == k + 1,
            out.deep_view()[0] == "All"@,
            out.deep_view().skip(1) == sorted.deep_view().take(k as int),
        decreases sorted.len() - k,
    {
        let ghost before = out.deep_view();
        out.push(sorted[k].clone());
        k = k + 1;
        assert(out.deep_view().skip(1) =~= sorted.deep_view().take(k as int));
    }
    assert(sorted.deep_view().take(sorted.len() as int) =~= sorted.deep_view());
    out
}

/// The namespace filter that a choice of the namespace menu sets: none for
/// "All", the chosen namespace otherwise.
pub fn namespace_filter(choice: String) -> (r: Option<String>)
    ensures
        r.deep_view() == (if choice@ == "All"@ {
            None
        } else {
            Some(choice@)
        }),
{
    if str_eq(choice.as_str(), "All") {
        None
    } else {
        Some(choice)
    }
}

/// Whether an option of the namespace menu shows as selected under the
/// filter `filter`: "All" when there is none, the filter's namespace
/// otherwise.
pub fn namespace_option_selected(option: &str, filter: &Option<String>) -> (r: bool)
    ensures
        r == (match filter.deep_view() {
            None => option@ == "All"@,
            Some(f) => option@ == f,
        }),
{
    match filter {
        None => str_eq(option, "All"),
        Some(f) => str_eq(option, f.as_str()),
    }
}


// ---------------------------------------------------------------------------
// The menu against the overview's built-in types
// ---------------------------------------------------------------------------

/// The (group, kind) pairs of the side menu, section by section.
pub open spec fn menu_pairs() -> Seq<(Seq<char>, Seq<char>)> {
    let t = menu_table();
    (t[0].1 + t[1].1 + t[2].1 + t[3].1).map_values(|e: (Seq<char>, Seq<char>, Seq<char>)| (e.0, e.1))
}

/// The (group, kind) pairs of the types that the overview always lists.
pub open spec fn builtin_pairs() -> Seq<(Seq<char>, Seq<char>)> {
    builtin_table().map_values(|t: ListTargetView| (t.gvk.group, t.gvk.kind))
}

/// The place of a (group, kind) pair in the menu, or -1.
spec fn menu_position(p: (Seq<char>, Seq<char>)) -> int {
    if p == (""@, "Pod"@) {
        0
    } else if p == ("apps"@, "Deployment"@) {
        1
    } else if p == ("apps"@, "StatefulSet"@) {
        2
    } else if p == ("apps"@, "DaemonSet"@) {
        3
    } else if p == ("apps"@, "ReplicaSet"@) {
        4
    } else if p == ("batch"@, "Job"@) {
        5
    } else if p == ("batch"@, "CronJob"@) {
        6
    } else if p == (""@, "Service"@) {
        7
    } else if p == ("networking.k8s.io"@, "Ingress"@) {
        8
    } else if p == ("discovery.k8s.io"@, "EndpointSlice"@) {
        9
    } else if p == (""@, "PersistentVolume"@) {
        10
    } else if p == (""@, "PersistentVolumeClaim"@) {
        11
    } else if p == ("storage.k8s.io"@, "StorageClass"@) {
        12
    } else if p == (""@, "Node"@) {
        13
    } else if p == (""@, "Namespace"@) {
        14
    } else if p == (""@, "ConfigMap"@) {
        15
    } else if p == (""@, "Secret"@) {
        16
    } else {
        -1
    }
}

proof fn lemma_menu_pairs()
    ensures
        menu_pairs() == seq![
        (""@, "Pod"@),
        ("apps"@, "Deployment"@),
        ("apps"@, "StatefulSet"@),
        ("apps"@, "DaemonSet"@),
        ("apps"@, "ReplicaSet"@),
        ("batch"@, "Job"@),
        ("batch"@, "CronJob"@),
        (""@, "Service"@),
        ("networking.k8s.io"@, "Ingress"@),
        ("discovery.k8s.io"@, "EndpointSlice"@),
        (""@, "PersistentVolume"@),
        (""@, "PersistentVolumeClaim"@),
        ("storage.k8s.io"@, "StorageClass"@),
        (""@, "Node"@),
        (""@, "Namespace"@),
        (""@, "ConfigMap"@),
        (""@, "Secret"@),
    ],
        builtin_pairs() == seq![
        (""@, "Pod"@),
        (""@, "Service"@),
        (""@, "ConfigMap"@),
        (""@, "Secret"@),
        (""@, "PersistentVolume"@),
        (""@, "PersistentVolumeClaim"@),
        (""@, "Namespace"@),
        (""@, "Node"@),
        ("apps"@, "Deployment"@),
        ("apps"@, "StatefulSet"@),
        ("apps"@, "DaemonSet"@),
        ("apps"@, "ReplicaSet"@),
        ("batch"@, "Job"@),
        ("batch"@, "CronJob"@),
        ("networking.k8s.io"@, "Ingress"@),
        ("discovery.k8s.io"@, "EndpointSlice"@),
        ("storage.k8s.io"@, "StorageClass"@),
    ],
{
    assert(menu_pairs() =~= seq![
        (""@, "Pod"@),
        ("apps"@, "Deployment"@),
        ("apps"@, "StatefulSet"@),
        ("apps"@, "DaemonSet"@),
        ("apps"@, "ReplicaSet"@),
        ("batch"@, "Job"@),
        ("batch"@, "CronJob"@),
        (""@, "Service"@),
        ("networking.k8s.io"@, "Ingress"@),
        ("discovery.k8s.io"@, "EndpointSlice"@),
        (""@, "PersistentVolume"@),
        (""@, "PersistentVolumeClaim"@),
        ("storage.k8s.io"@, "StorageClass"@),
        (""@, "Node"@),
        (""@, "Namespace"@),
        (""@, "ConfigMap"@),
        (""@, "Secret"@),
    ]);
    assert(builtin_pairs() =~= seq![
        (""@, "Pod"@),
        (""@, "Service"@),
        (""@, "ConfigMap"@),
        (""@, "Secret"@),
        (""@, "PersistentVolume"@),
        (""@, "PersistentVolumeClaim"@),
        (""@, "Namespace"@),
        (""@, "Node"@),
        ("apps"@, "Deployment"@),
        ("apps"@, "StatefulSet"@),
        ("apps"@, "DaemonSet"@),
        ("apps"@, "ReplicaSet"@),
        ("batch"@, "Job"@),
        ("batch"@, "CronJob"@),
        ("networking.k8s.io"@, "Ingress"@),
        ("discovery.k8s.io"@, "EndpointSlice"@),
        ("storage.k8s.io"@, "StorageClass"@),
    ]);
}

/// The side menu offers each type that the overview always lists exactly
/// once, and no other; the table of known plurals knows each of them.
pub proof fn menu_lists_each_builtin_once()
    ensures
        menu_pairs().len() == builtin_pairs().len(),
        forall|a: int, b: int|
            0 <= a < b < menu_pairs().len() ==> #[trigger] menu_pairs()[a] != #[trigger] menu_pairs()[b],
        forall|a: int| 0 <= a < menu_pairs().len() ==> builtin_pairs().contains(#[trigger] menu_pairs()[a]),
        forall|b: int| 0 <= b < builtin_pairs().len() ==> menu_pairs().contains(#[trigger] builtin_pairs()[b]),
        forall|a: int|
            0 <= a < menu_pairs().len() ==> plural_table((#[trigger] menu_pairs()[a]).0, menu_pairs()[a].1).len()
                > 0,
{
    reveal_strlit("");
    assert(""@.len() == 0);
    reveal_strlit("ConfigMap");
    assert("ConfigMap"@.len() == 9);
    reveal_strlit("CronJob");
    assert("CronJob"@.len() == 7);
    reveal_strlit("DaemonSet");
    assert("DaemonSet"@.len() == 9);
    reveal_strlit("Deployment");
    assert("Deployment"@.len() == 10);
    reveal_strlit("EndpointSlice");
    assert("EndpointSlice"@.len() == 13);
    reveal_strlit("Ingress");
    assert("Ingress"@.len() == 7);
    reveal_strlit("Job");
    assert("Job"@.len() == 3);
    reveal_strlit("Namespace");
    assert("Namespace"@.len() == 9);
    reveal_strlit("Node");
    assert("Node"@.len() == 4);
    reveal_strlit("PersistentVolume");
    assert("PersistentVolume"@.len() == 16);
    reveal_strlit("PersistentVolumeClaim");
    assert("PersistentVolumeClaim"@.len() == 21);
    reveal_strlit("Pod");
    assert("Pod"@.len() == 3);
    reveal_strlit("ReplicaSet");
    assert("ReplicaSet"@.len() == 10);
    reveal_strlit("Secret");
    assert("Secret"@.len() == 6);
    reveal_strlit("Service");
    assert("Service"@.len() == 7);
    reveal_strlit("StatefulSet");
    assert("StatefulSet"@.len() == 11);
    reveal_strlit("StorageClass");
    assert("StorageClass"@.len() == 12);
    reveal_strlit("apps");
    assert("apps"@.len() == 4);
    reveal_strlit("batch");
    assert("batch"@.len() == 5);
    reveal_strlit("configmaps");
    assert("configmaps"@.len() == 10);
    reveal_strlit("cronjobs");
    assert("cronjobs"@.len() == 8);
    reveal_strlit("daemonsets");
    assert("daemonsets"@.len() == 10);
    reveal_strlit("deployments");
    assert("deployments"@.len() == 11);
    reveal_strlit("discovery.k8s.io");
    assert("discovery.k8s.io"@.len() == 16);
    reveal_strlit("endpointslices");
    assert("endpointslices"@.len() == 14);
    reveal_strlit("ingresses");
    assert("ingresses"@.len() == 9);
    reveal_strlit("jobs");
    assert("jobs"@.len() == 4);
    reveal_strlit("namespaces");
    assert("namespaces"@.len() == 10);
    reveal_strlit("networking.k8s.io");
    assert("networking.k8s.io"@.len() == 17);
    reveal_strlit("nodes");
    assert("nodes"@.len() == 5);
    reveal_strlit("persistentvolumeclaims");
    assert("persistentvolumeclaims"@.len() == 22);
    reveal_strlit("persistentvolumes");
    assert("persistentvolumes"@.len() == 17);
    reveal_strlit("pods");
    assert("pods"@.len() == 4);
    reveal_strlit("replicasets");
    assert("replicasets"@.len() == 11);
    reveal_strlit("secrets");
    assert("secrets"@.len() == 7);
    reveal_strlit("services");
    assert("services"@.len() == 8);
    reveal_strlit("statefulsets");
    assert("statefulsets"@.len() == 12);
    reveal_strlit("storage.k8s.io");
    assert("storage.k8s.io"@.len() == 14);
    reveal_strlit("storageclasses");
    assert("storageclasses"@.len() == 14);
    reveal_strlit("v1");
    assert("v1"@.len() == 2);
    assert("Deployment"@[0] == 'D');
    assert("ReplicaSet"@[0] == 'R');
    assert("Namespace"@[0] == 'N');
    assert("ConfigMap"@[0] == 'C');
    lemma_menu_pairs();
    let mp = menu_pairs();
    let bp = builtin_pairs();
    assert forall|a: int| 0 <= a < mp.len() implies menu_position(#[trigger] mp[a]) == a by {
        if a == 0 {
            assert(mp[0] == (""@, "Pod"@));
            assert(menu_position((""@, "Pod"@)) == 0);
        } else if a == 1 {
            assert(mp[1] == ("apps"@, "Deployment"@));
            assert(menu_position(("apps"@, "Deployment"@)) == 1);
        } else if a == 2 {
            assert(mp[2] == ("apps"@, "StatefulSet"@));
            assert(menu_position(("apps"@, "StatefulSet"@)) == 2);
        } else if a == 3 {
            assert(mp[3] == ("apps"@, "DaemonSet"@));
            assert(menu_position(("apps"@, "DaemonSet"@)) == 3);
        } else if a == 4 {
            assert(mp[4] == ("apps"@, "ReplicaSet"@));
            assert(menu_position(("apps"@, "ReplicaSet"@)) == 4);
        } else if a == 5 {
            assert(mp[5] == ("batch"@, "Job"@));
            assert(menu_position(("batch"@, "Job"@)) == 5);
        } else if a == 6 {
            assert(mp[6] == ("batch"@, "CronJob"@));
            assert(menu_position(("batch"@, "CronJob"@)) == 6);
        } else if a == 7 {
            assert(mp[7] == (""@, "Service"@));
            assert(menu_position((""@, "Service"@)) == 7);
        } else if a == 8 {
            assert(mp[8] == ("networking.k8s.io"@, "Ingress"@));
            assert(menu_position(("networking.k8s.io"@, "Ingress"@)) == 8);
        } else if a == 9 {
            assert(mp[9] == ("discovery.k8s.io"@, "EndpointSlice"@));
            assert(menu_position(("discovery.k8s.io"@, "EndpointSlice"@)) == 9);
        } else if a == 10 {
            assert(mp[10] == (""@, "PersistentVolume"@));
            assert(menu_position((""@, "PersistentVolume"@)) == 10);
        } else if a == 11 {
            assert(mp[11] == (""@, "PersistentVolumeClaim"@));
            assert(menu_position((""@, "PersistentVolumeClaim"@)) == 11);
        } else if a == 12 {
            assert(mp[12] == ("storage.k8s.io"@, "StorageClass"@));
            assert(menu_position(("storage.k8s.io"@, "StorageClass"@)) == 12);
        } else if a == 13 {
            assert(mp[13] == (""@, "Node"@));
            assert(menu_position((""@, "Node"@)) == 13);
        } else if a == 14 {
            assert(mp[14] == (""@, "Namespace"@));
            assert(menu_position((""@, "Namespace"@)) == 14);
        } else if a == 15 {
            assert(mp[15] == (""@, "ConfigMap"@));
            assert(menu_position((""@, "ConfigMap"@)) == 15);
        } else if a == 16 {
            assert(mp[16] == (""@, "Secret"@));
            assert(menu_position((""@, "Secret"@)) == 16);
        }
    }
    assert forall|a: int, b: int| 0 <= a < b < mp.len() implies #[trigger] mp[a] != #[trigger] mp[b] by {
        assert(menu_position(mp[a]) == a);
        assert(menu_position(mp[b]) == b);
    }
    assert forall|a: int| 0 <= a < mp.len() implies bp.contains(#[trigger] mp[a]) by {
        if a == 0 {
            assert(bp[0] == mp[0]);
        } else if a == 1 {
            assert(bp[8] == mp[1]);
        } else if a == 2 {
            assert(bp[9] == mp[2]);
        } else if a == 3 {
            assert(bp[10] == mp[3]);
        } else if a == 4 {
            assert(bp[11] == mp[4]);
        } else if a == 5 {
            assert(bp[12] == mp[5]);
        } else if a == 6 {
            assert(bp[13] == mp[6]);
        } else if a == 7 {
            assert(bp[1] == mp[7]);
        } else if a == 8 {
            assert(bp[14] == mp[8]);
        } else if a == 9 {
            assert(bp[15] == mp[9]);
        } else if a == 10 {
            assert(bp[4] == mp[10]);
        } else if a == 11 {
            assert(bp[5] == mp[11]);
        } else if a == 12 {
            assert(bp[16] == mp[12]);
        } else if a == 13 {
            assert(bp[7] == mp[13]);
        } else if a == 14 {
            assert(bp[6] == mp[14]);
        } else if a == 15 {
            assert(bp[2] == mp[15]);
        } else if a == 16 {
            assert(bp[3] == mp[16]);
        }
    }
    assert forall|a: int| 0 <= a < bp.len() implies mp.contains(#[trigger] bp[a]) by {
        if a == 0 {
            assert(mp[0] == bp[0]);
        } else if a == 1 {
            assert(mp[7] == bp[1]);
        } else if a == 2 {
            assert(mp[15] == bp[2]);
        } else if a == 3 {
            assert(mp[16] == bp[3]);
        } else if a == 4 {
            assert(mp[10] == bp[4]);
        } else if a == 5 {
            assert(mp[11] == bp[5]);
        } else if a == 6 {
            assert(mp[14] == bp[6]);
        } else if a == 7 {
            assert(mp[13] == bp[7]);
        } else if a == 8 {
            assert(mp[1] == bp[8]);
        } else if a == 9 {
            assert(mp[2] == bp[9]);
        } else if a == 10 {
            assert(mp[3] == bp[10]);
        } else if a == 11 {
            assert(mp[4] == bp[11]);
        } else if a == 12 {
            assert(mp[5] == bp[12]);
        } else if a == 13 {
            assert(mp[6] == bp[13]);
        } else if a == 14 {
            assert(mp[8] == bp[14]);
        } else if a == 15 {
            assert(mp[9] == bp[15]);
        } else if a == 16 {
            assert(mp[12] == bp[16]);
        }
    }
    assert forall|a: int| 0 <= a < mp.len() implies plural_table((#[trigger] mp[a]).0, mp[a].1).len() > 0 by {
        if a == 0 {
            assert(plural_table(mp[0].0, mp[0].1).len() > 0);
        } else if a == 1 {
            assert(plural_table(mp[1].0, mp[1].1).len() > 0);
        } else if a == 2 {
            assert(plural_table(mp[2].0, mp[2].1).len() > 0);
        } else if a == 3 {
            assert(plural_table(mp[3].0, mp[3].1).len() > 0);
        } else if a == 4 {
            assert(plural_table(mp[4].0, mp[4].1).len() > 0);
        } else if a == 5 {
            assert(plural_table(mp[5].0, mp[5].1).len() > 0);
        } else if a == 6 {
            assert(plural_table(mp[6].0, mp[6].1).len() > 0);
        } else if a == 7 {
            assert(plural_table(mp[7].0, mp[7].1).len() > 0);
        } else if a == 8 {
            assert(plural_table(mp[8].0, mp[8].1).len() > 0);
        } else if a == 9 {
            assert(plural_table(mp[9].0, mp[9].1).len() > 0);
        } else if a == 10 {
            assert(plural_table(mp[10].0, mp[10].1).len() > 0);
        } else if a == 11 {
            assert(plural_table(mp[11].0, mp[11].1).len() > 0);
        } else if a == 12 {
            assert(plural_table(mp[12].0, mp[12].1).len() > 0);
        } else if a == 13 {
            assert(plural_table(mp[13].0, mp[13].1).len() > 0);
        } else if a == 14 {
            assert(plural_table(mp[14].0, mp[14].1).len() > 0);
        } else if a == 15 {
            assert(plural_table(mp[15].0, mp[15].1).len() > 0);
        } else if a == 16 {
            assert(plural_table(mp[16].0, mp[16].1).len() > 0);
        }
    }
}


/// Whether `kind` in `group` is a workload that runs pods.
pub open spec fn runs_pods(group: Seq<char>, kind: Seq<char>) -> bool {
    ||| group == "apps"@ && (kind == "Deployment"@ || kind == "StatefulSet"@ || kind == "DaemonSet"@)
    ||| group == "batch"@ && (kind == "Job"@ || kind == "CronJob"@)
}

/// A selected workload that runs pods is watched together with the core Pod
/// type; a Deployment also with its ReplicaSets, a CronJob with its Jobs and
/// a Service with its EndpointSlices. No other type is watched along with a
/// selected one, and nothing is watched along with a type outside these.
/// Choosing such a workload in the menu (no overview loaded) watches it and
/// its pods.
pub proof fn workloads_watch_their_pods(group: Seq<char>, kind: Seq<char>, c: MenuChoice, ns: Option<Seq<char>>)
    ensures
        runs_pods(group, kind) ==> cascade_table(group, kind).contains(
            GvkView { group: ""@, version: "v1"@, kind: "Pod"@ },
        ),
        group == "apps"@ && kind == "Deployment"@ ==> cascade_table(group, kind).contains(
            GvkView { group: "apps"@, version: "v1"@, kind: "ReplicaSet"@ },
        ),
        group == "batch"@ && kind == "CronJob"@ ==> cascade_table(group, kind).contains(
            GvkView { group: "batch"@, version: "v1"@, kind: "Job"@ },
        ),
        group == ""@ && kind == "Service"@ ==> cascade_table(group, kind).contains(
            GvkView { group: "discovery.k8s.io"@, version: "v1"@, kind: "EndpointSlice"@ },
        ),
        forall|t: GvkView| #[trigger] cascade_table(group, kind).contains(t) ==> {
            ||| t == (GvkView { group: ""@, version: "v1"@, kind: "Pod"@ })
            ||| t == (GvkView { group: "apps"@, version: "v1"@, kind: "ReplicaSet"@ })
            ||| t == (GvkView { group: "batch"@, version: "v1"@, kind: "Job"@ })
            ||| t == (GvkView { group: "discovery.k8s.io"@, version: "v1"@, kind: "EndpointSlice"@ })
        },
        cascade_table(group, kind).len() > 0 ==> runs_pods(group, kind) || (group == ""@ && kind == "Service"@),
        runs_pods(group, kind) && menu_choice_for(c, None, group, kind, ns) ==> watched(c.watches@).contains(
            GvkView { group: ""@, version: "v1"@, kind: "Pod"@ },
        ),
{
    reveal_strlit("apps");
    reveal_strlit("batch");
    reveal_strlit("");
    reveal_strlit("Deployment");
    reveal_strlit("StatefulSet");
    reveal_strlit("DaemonSet");
    reveal_strlit("Job");
    reveal_strlit("CronJob");
    reveal_strlit("Service");
    assert("apps"@.len() == 4);
    assert("batch"@.len() == 5);
    assert(""@.len() == 0);
    assert("Deployment"@.len() == 10);
    assert("StatefulSet"@.len() == 11);
    assert("DaemonSet"@.len() == 9);
    assert("Job"@.len() == 3);
    assert("CronJob"@.len() == 7);
    assert("Service"@.len() == 7);
    let pod = GvkView { group: ""@, version: "v1"@, kind: "Pod"@ };
    let t = cascade_table(group, kind);
    if group == "apps"@ && kind == "Deployment"@ {
        assert(t[1] == pod);
        assert(t[0] == (GvkView { group: "apps"@, version: "v1"@, kind: "ReplicaSet"@ }));
    } else if group == "apps"@ && (kind == "StatefulSet"@ || kind == "DaemonSet"@) {
        assert(t[0] == pod);
    } else if group == "batch"@ && kind == "Job"@ {
        assert(t[0] == pod);
    } else if group == "batch"@ && kind == "CronJob"@ {
        assert(t[1] == pod);
        assert(t[0] == (GvkView { group: "batch"@, version: "v1"@, kind: "Job"@ }));
    } else if group == ""@ && kind == "Service"@ {
        assert(t[0] == (GvkView { group: "discovery.k8s.io"@, version: "v1"@, kind: "EndpointSlice"@ }));
    }
    if runs_pods(group, kind) && menu_choice_for(c, None, group, kind, ns) {
        let primary = GvkView { group: group, version: ""@, kind: kind };
        let w = watched(c.watches@);
        assert(w == seq![primary] + t);
        let k = choose|k: int| 0 <= k < t.len() && t[k] == pod;
        assert(w[k + 1] == pod);
    }
}

} // verus!
