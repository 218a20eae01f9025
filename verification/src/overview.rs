//! The cluster overview: custom resource definitions, the resource types to
//! list, and one group of summaries per type with the errors met listing it.
use vstd::prelude::*;
use crate::errors::{cleaned_error, timed_out_message, format_error, timed_out_text};
use crate::summary::{
    GvkView, ObjectRecord, ResourceRefGvk, ResourceSummary, summarize_dynamic, summarizes,
};
use crate::text::{ascii_lower, lowercase, owned, str_eq, to_lowercase};
use crate::plural::{kube_plural, plural_table, pluralize};
use vstd::utf8::encode_utf8;

verus! {

// ---------------------------------------------------------------------------
// Types
// ---------------------------------------------------------------------------

/// What the overview lists of one custom resource definition.
pub struct CrdSummary {
    pub name: String,
    pub group: String,
    pub versions: Vec<String>,
    pub scope: String,
    pub plural: String,
}

/// One version of a custom resource definition.
pub struct CrdVersion {
    pub name: String,
    /// Whether objects are stored under this version.
    pub storage: bool,
}

/// A custom resource definition as the overview reads it.
pub struct CrdRecord {
    pub name: Option<String>,
    pub group: String,
    pub versions: Vec<CrdVersion>,
    pub scope: String,
    pub plural: String,
    pub kind: String,
}

/// A resource type to list: its group, version and kind, its plural and
/// whether its objects live in namespaces.
pub struct ListTarget {
    pub gvk: ResourceRefGvk,
    pub plural: String,
    pub namespaced: bool,
}

/// The summaries of the objects of one resource type, with the errors met
/// listing them.
pub struct ResourceGroup {
    pub gvk: ResourceRefGvk,
    pub namespaced: bool,
    pub items: Vec<ResourceSummary>,
    pub errors: Vec<String>,
}

/// The whole overview.
pub struct K8sOverview {
    pub crds: Vec<CrdSummary>,
    pub resources: Vec<ResourceGroup>,
    pub errors: Vec<String>,
}

/// Why a call to the cluster gave no answer: an error, with its text, or the
/// time limit.
pub enum CallFailure {
    Error(String),
    TimedOut,
}

/// The definitions summarized, the types to list and the errors met so far.
pub struct OverviewPlan {
    pub crds: Vec<CrdSummary>,
    pub targets: Vec<ListTarget>,
    pub errors: Vec<String>,
}

// ---------------------------------------------------------------------------
// Views
// ---------------------------------------------------------------------------

pub struct CrdSummaryView {
    pub name: Seq<char>,
    pub group: Seq<char>,
    pub versions: Seq<Seq<char>>,
    pub scope: Seq<char>,
    pub plural: Seq<char>,
}

impl DeepView for CrdSummary {
    type V = CrdSummaryView;

    open spec fn deep_view(&self) -> CrdSummaryView {
        CrdSummaryView {
            name: self.name@,
            group: self.group@,
            versions: self.versions.deep_view(),
            scope: self.scope@,
            plural: self.plural@,
        }
    }
}

pub struct ListTargetView {
    pub gvk: GvkView,
    pub plural: Seq<char>,
    pub namespaced: bool,
}

impl DeepView for ListTarget {
    type V = ListTargetView;

    open spec fn deep_view(&self) -> ListTargetView {
        ListTargetView {
            gvk: self.gvk.deep_view(),
            plural: self.plural@,
            namespaced: self.namespaced,
        }
    }
}

// ---------------------------------------------------------------------------
// Specification
// ---------------------------------------------------------------------------

/// The names of the versions of a definition, in order.
pub open spec fn version_names(vs: Seq<CrdVersion>) -> Seq<Seq<char>> {
    vs.map_values(|v: CrdVersion| v.name@)
}

/// What the overview lists of a definition (an unnamed one gets "").
pub open spec fn crd_summary_spec(crd: CrdRecord) -> CrdSummaryView {
    CrdSummaryView {
        name: match crd.name {
            Some(n) => n@,
            None => Seq::empty(),
        },
        group: crd.group@,
        versions: version_names(crd.versions@),
        scope: crd.scope@,
        plural: crd.plural@,
    }
}

/// Index of the version to list: the first stored one, else the first one.
pub open spec fn chosen_version(vs: Seq<CrdVersion>) -> Option<int> {
    if exists|i: int| 0 <= i < vs.len() && vs[i].storage {
        Some(choose|i: int| 0 <= i < vs.len() && vs[i].storage && forall|j: int| 0 <= j < i ==> !vs[j].storage)
    } else if vs.len() > 0 {
        Some(0)
    } else {
        None
    }
}

/// The type to list for a definition, given the lowercase form of its scope.
pub open spec fn crd_target_spec(crd: CrdRecord, scope_lower: Seq<char>) -> Option<ListTargetView> {
    match chosen_version(crd.versions@) {
        Some(i) => Some(
            ListTargetView {
                gvk: GvkView {
                    group: crd.group@,
                    version: crd.versions@[i].name@,
                    kind: crd.kind@,
                },
                plural: crd.plural@,
                namespaced: scope_lower == "namespaced"@,
            },
        ),
        None => None,
    }
}

/// A table row: group, version, kind, plural and whether namespaced.
pub open spec fn row(g: Seq<char>, v: Seq<char>, k: Seq<char>, p: Seq<char>, ns: bool) -> ListTargetView {
    ListTargetView { gvk: GvkView { group: g, version: v, kind: k }, plural: p, namespaced: ns }
}

/// The built-in resource types that the overview always lists.
pub open spec fn builtin_table() -> Seq<ListTargetView> {
    seq![
        row(""@, "v1"@, "Pod"@, "pods"@, true),
        row(""@, "v1"@, "Service"@, "services"@, true),
        row(""@, "v1"@, "ConfigMap"@, "configmaps"@, true),
        row(""@, "v1"@, "Secret"@, "secrets"@, true),
        row(""@, "v1"@, "PersistentVolume"@, "persistentvolumes"@, false),
        row(""@, "v1"@, "PersistentVolumeClaim"@, "persistentvolumeclaims"@, true),
        row(""@, "v1"@, "Namespace"@, "namespaces"@, false),
        row(""@, "v1"@, "Node"@, "nodes"@, false),
        row("apps"@, "v1"@, "Deployment"@, "deployments"@, true),
        row("apps"@, "v1"@, "StatefulSet"@, "statefulsets"@, true),
        row("apps"@, "v1"@, "DaemonSet"@, "daemonsets"@, true),
        row("apps"@, "v1"@, "ReplicaSet"@, "replicasets"@, true),
        row("batch"@, "v1"@, "Job"@, "jobs"@, true),
        row("batch"@, "v1"@, "CronJob"@, "cronjobs"@, true),
        row("networking.k8s.io"@, "v1"@, "Ingress"@, "ingresses"@, true),
        row("discovery.k8s.io"@, "v1"@, "EndpointSlice"@, "endpointslices"@, true),
        row("storage.k8s.io"@, "v1"@, "StorageClass"@, "storageclasses"@, false),
    ]
}

/// The types to list for the definitions `crds`, in order, each definition
/// without versions skipped.
pub open spec fn crd_targets(crds: Seq<CrdRecord>) -> Seq<ListTargetView>
    decreases crds.len(),
{
    if crds.len() == 0 {
        Seq::empty()
    } else {
        let rest = crd_targets(crds.drop_last());
        match crd_target_spec(crds.last(), lowercase(crds.last().scope@)) {
            Some(t) => rest.push(t),
            None => rest,
        }
    }
}

/// The message for a failed call.
pub open spec fn failure_text(f: CallFailure) -> Seq<char> {
    match f {
        CallFailure::Error(e) => cleaned_error(e@),
        CallFailure::TimedOut => timed_out_message(),
    }
}

/// The message for a listing of type `g` that ran out of time.
pub open spec fn listing_timeout_spec(g: GvkView) -> Seq<char> {
    "Timeout while listing "@ + g.kind + "."@ + g.version + " "@ + (if g.group.len() == 0 {
        "core"@
    } else {
        g.group
    }) + " resources"@
}

/// `p` is the plan for the outcome `fetched` of listing the definitions.
pub open spec fn plans(p: OverviewPlan, fetched: Result<Vec<CrdRecord>, CallFailure>) -> bool {
    match fetched {
        Ok(crds) => {
            &&& p.crds.deep_view() == crds@.map_values(|c: CrdRecord| crd_summary_spec(c))
            &&& p.targets.deep_view() == crd_targets(crds@) + builtin_table()
            &&& p.errors@.len() == 0
        },
        Err(f) => {
            &&& p.crds@.len() == 0
            &&& p.targets.deep_view() == builtin_table()
            &&& p.errors.deep_view() == seq![failure_text(f)]
        },
    }
}

/// `g` is the group for target `t` after the listing outcome `fetched`.
pub open spec fn groups(g: ResourceGroup, t: ListTarget, fetched: Result<Vec<ObjectRecord>, CallFailure>) -> bool {
    &&& g.gvk.deep_view() == t.gvk.deep_view()
    &&& g.namespaced == t.namespaced
    &&& match fetched {
        Ok(objs) => {
            &&& g.items@.len() == objs@.len()
            &&& forall|i: int| 0 <= i < objs@.len() ==> summarizes(#[trigger] g.items@[i], objs@[i], t.gvk)
            &&& g.errors@.len() == 0
        },
        Err(CallFailure::Error(e)) => {
            &&& g.items@.len() == 0
            &&& g.errors.deep_view() == seq![cleaned_error(e@)]
        },
        Err(CallFailure::TimedOut) => {
            &&& g.items@.len() == 0
            &&& g.errors.deep_view() == seq![listing_timeout_spec(t.gvk.deep_view())]
        },
    }
}

// ---------------------------------------------------------------------------
// Functions
// ---------------------------------------------------------------------------

/// What the overview lists of a definition.
pub fn crd_summary(crd: &CrdRecord) -> (r: CrdSummary)
    ensures
        r.deep_view() == crd_summary_spec(*crd),
{
    let name = match &crd.name {
        Some(n) => n.clone(),
        None => String::new(),
    };
    let mut versions: Vec<String> = Vec::new();
    let mut i: usize = 0;
    while i < crd.versions.len()
        invariant
            i <= crd.versions.len(),
            versions.deep_view() == version_names(crd.versions@.take(i as int)),
        decreases crd.versions.len() - i,
    {
        let ghost before = versions.deep_view();
        versions.push(crd.versions[i].name.clone());
        assert(versions.deep_view() =~= before.push(crd.versions@[i as int].name@));
        i = i + 1;
        assert(version_names(crd.versions@.take(i as int)) =~= version_names(
            crd.versions@.take(i - 1),
        ).push(crd.versions@[i - 1].name@));
    }
    assert(crd.versions@.take(crd.versions.len() as int) =~= crd.versions@);
    CrdSummary {
        name,
        group: crd.group.clone(),
        versions,
        scope: crd.scope.clone(),
        plural: crd.plural.clone(),
    }
}

/// Index of the version to list.
pub fn choose_version(vs: &Vec<CrdVersion>) -> (r: Option<usize>)
    ensures
        match r {
            Some(i) => chosen_version(vs@) == Some(i as int) && i < vs.len(),
            None => chosen_version(vs@) is None,
        },
{
    let mut i: usize = 0;
    while i < vs.len()
        invariant
            i <= vs.len(),
            forall|j: int| 0 <= j < i ==> !vs@[j].storage,
        decreases vs.len() - i,
    {
        if vs[i].storage {
            proof {
                let w = choose|k: int| 0 <= k < vs@.len() && vs@[k].storage && forall|j: int| 0 <= j < k ==> !vs@[j].storage;
                assert(0 <= i < vs@.len() && vs@[i as int].storage && forall|j: int| 0 <= j < i ==> !vs@[j].storage);
                assert(vs@[w].storage);
                assert(w == i as int) by {
                    if w < i {
                        assert(!vs@[w].storage);
                    }
                    if w > i {
                        assert(!vs@[i as int].storage);
                    }
                }
            }
            return Some(i);
        }
        i = i + 1;
    }
    if vs.len() > 0 {
        Some(0)
    } else {
        None
    }
}

/// The type to list for a definition, given the lowercase form of its scope.
pub fn crd_target_with(crd: &CrdRecord, scope_lower: &str) -> (r: Option<ListTarget>)
    ensures
        r.deep_view() == crd_target_spec(*crd, scope_lower@),
{
    match choose_version(&crd.versions) {
        Some(i) => Some(
            ListTarget {
                gvk: ResourceRefGvk {
                    group: crd.group.clone(),
                    version: crd.versions[i].name.clone(),
                    kind: crd.kind.clone(),
                },
                plural: crd.plural.clone(),
                namespaced: str_eq(scope_lower, "namespaced"),
            },
        ),
        None => None,
    }
}

/// The type to list for a definition: its stored version (else its first),
/// namespaced when its scope reads "namespaced" in any case.
pub fn crd_target(crd: &CrdRecord) -> (r: Option<ListTarget>)
    ensures
        r.deep_view() == crd_target_spec(*crd, lowercase(crd.scope@)),
{
    let lower = to_lowercase(crd.scope.as_str());
    crd_target_with(crd, lower.as_str())
}

fn builtin(g: &str, v: &str, k: &str, p: &str, ns: bool) -> (r: ListTarget)
    ensures
        r.deep_view() == row(g@, v@, k@, p@, ns),
{
    ListTarget {
        gvk: ResourceRefGvk { group: owned(g), version: owned(v), kind: owned(k) },
        plural: owned(p),
        namespaced: ns,
    }
}

/// Appends the built-in resource types.
pub fn push_builtin_targets(out: &mut Vec<ListTarget>)
    ensures
        final(out).deep_view() == old(out).deep_view() + builtin_table(),
{
    let ghost start = out.deep_view();
    out.push(builtin("", "v1", "Pod", "pods", true));
    out.push(builtin("", "v1", "Service", "services", true));
    out.push(builtin("", "v1", "ConfigMap", "configmaps", true));
    out.push(builtin("", "v1", "Secret", "secrets", true));
    out.push(builtin("", "v1", "PersistentVolume", "persistentvolumes", false));
    out.push(builtin("", "v1", "PersistentVolumeClaim", "persistentvolumeclaims", true));
    out.push(builtin("", "v1", "Namespace", "namespaces", false));
    out.push(builtin("", "v1", "Node", "nodes", false));
    out.push(builtin("apps", "v1", "Deployment", "deployments", true));
    out.push(builtin("apps", "v1", "StatefulSet", "statefulsets", true));
    out.push(builtin("apps", "v1", "DaemonSet", "daemonsets", true));
    out.push(builtin("apps", "v1", "ReplicaSet", "replicasets", true));
    out.push(builtin("batch", "v1", "Job", "jobs", true));
    out.push(builtin("batch", "v1", "CronJob", "cronjobs", true));
    out.push(builtin("networking.k8s.io", "v1", "Ingress", "ingresses", true));
    out.push(builtin("discovery.k8s.io", "v1", "EndpointSlice", "endpointslices", true));
    out.push(builtin("storage.k8s.io", "v1", "StorageClass", "storageclasses", false));
    assert(out.deep_view() =~= start + builtin_table());
}

/// The message for a failed call.
pub fn failure_message(f: &CallFailure) -> (r: String)
    ensures
        r@ == failure_text(*f),
{
    match f {
        CallFailure::Error(e) => format_error(e.as_str()),
        CallFailure::TimedOut => timed_out_text(),
    }
}

/// Plans the overview from the outcome of listing the definitions: their
/// summaries, the types to list (those of the definitions, then the built-in
/// ones) and the error when the listing failed.
pub fn plan_overview(fetched: Result<Vec<CrdRecord>, CallFailure>) -> (r: OverviewPlan)
    ensures
        plans(r, fetched),
{
    let mut crds: Vec<CrdSummary> = Vec::new();
    let mut targets: Vec<ListTarget> = Vec::new();
    let mut errors: Vec<String> = Vec::new();
    match &fetched {
        Ok(list) => {
            let mut i: usize = 0;
            while i < list.len()
                invariant
                    i <= list.len(),
                    crds.deep_view() == list@.take(i as int).map_values(
                        |c: CrdRecord| crd_summary_spec(c),
                    ),
                    targets.deep_view() == crd_targets(list@.take(i as int)),
                decreases list.len() - i,
            {
                let crd = &list[i];
                let ghost before_c = crds.deep_view();
                let ghost before_t = targets.deep_view();
                crds.push(crd_summary(crd));
                assert(crds.deep_view() =~= before_c.push(crd_summary_spec(*crd)));
                assert(list@.take(i + 1).drop_last() =~= list@.take(i as int));
                match crd_target(crd) {
                    Some(t) => {
                        targets.push(t);
                        assert(targets.deep_view() =~= before_t.push(
                            crd_target_spec(*crd, lowercase(crd.scope@)).unwrap(),
                        ));
                    },
                    None => {},
                }
                i = i + 1;
                assert(list@.take(i as int).map_values(|c: CrdRecord| crd_summary_spec(c))
                    =~= before_c.push(crd_summary_spec(*crd)));
            }
            assert(list@.take(list.len() as int) =~= list@);
        },
        Err(f) => {
            errors.push(failure_message(f));
            assert(errors.deep_view() =~= seq![failure_text(*f)]);
            assert(targets.deep_view() =~= Seq::<ListTargetView>::empty());
        },
    }
    push_builtin_targets(&mut targets);
    proof {
        if fetched is Err {
            assert(targets.deep_view() =~= builtin_table());
        }
    }
    OverviewPlan { crds, targets, errors }
}

/// "Timeout while listing KIND.VERSION GROUP resources", GROUP being "core"
/// for the core group.
pub fn listing_timeout_message(g: &ResourceRefGvk) -> (r: String)
    ensures
        r@ == listing_timeout_spec(g.deep_view()),
{
    let mut m = owned("Timeout while listing ");
    m.append(g.kind.as_str());
    m.append(".");
    m.append(g.version.as_str());
    m.append(" ");
    if g.group.as_str().is_empty() {
        m.append("core");
    } else {
        m.append(g.group.as_str());
    }
    m.append(" resources");
    m
}

/// The group for a listed type: the summaries of the objects listed, or the
/// error met.
pub fn group_from_listing(t: &ListTarget, fetched: Result<Vec<ObjectRecord>, CallFailure>) -> (r: ResourceGroup)
    ensures
        groups(r, *t, fetched),
{
    let mut items: Vec<ResourceSummary> = Vec::new();
    let mut errors: Vec<String> = Vec::new();
    match &fetched {
        Ok(objs) => {
            let mut i: usize = 0;
            while i < objs.len()
                invariant
                    i <= objs.len(),
                    items@.len() == i,
                    forall|k: int| 0 <= k < i ==> summarizes(#[trigger] items@[k], objs@[k], t.gvk),
                decreases objs.len() - i,
            {
                items.push(summarize_dynamic(&objs[i], &t.gvk));
                i = i + 1;
            }
        },
        Err(CallFailure::Error(e)) => {
            errors.push(format_error(e.as_str()));
            assert(errors.deep_view() =~= seq![cleaned_error(e@)]);
        },
        Err(CallFailure::TimedOut) => {
            errors.push(listing_timeout_message(&t.gvk));
            assert(errors.deep_view() =~= seq![listing_timeout_spec(t.gvk.deep_view())]);
        },
    }
    ResourceGroup { gvk: t.gvk.copy(), namespaced: t.namespaced, items, errors }
}

/// The overview when no client could be made: nothing listed, one error.
pub fn overview_without_client(f: &CallFailure) -> (r: K8sOverview)
    ensures
        r.crds@.len() == 0,
        r.resources@.len() == 0,
        r.errors.deep_view() == seq![failure_text(*f)],
{
    let mut errors: Vec<String> = Vec::new();
    errors.push(failure_message(f));
    assert(errors.deep_view() =~= seq![failure_text(*f)]);
    K8sOverview { crds: Vec::new(), resources: Vec::new(), errors }
}

/// The overview from the plan and the outcome of listing each of its types,
/// `fetched[i]` being that of `plan.targets[i]`: one group per type, in the
/// plan's order, with the plan's definitions and errors.
pub fn finish_overview(plan: OverviewPlan, fetched: Vec<Result<Vec<ObjectRecord>, CallFailure>>) -> (r: K8sOverview)
    requires
        fetched@.len() == plan.targets@.len(),
    ensures
        r.crds == plan.crds,
        r.errors == plan.errors,
        r.resources@.len() == plan.targets@.len(),
        forall|i: int|
            0 <= i < plan.targets@.len() ==> groups(#[trigger] r.resources@[i], plan.targets@[i], fetched@[i]),
{
    let ghost all = fetched@;
    let mut rest = fetched;
    let mut resources: Vec<ResourceGroup> = Vec::new();
    let mut i: usize = 0;
    while i < plan.targets.len()
        invariant
            all.len() == plan.targets@.len(),
            i <= plan.targets@.len(),
            resources@.len() == i,
            rest@ == all.skip(i as int),
            forall|j: int| 0 <= j < i ==> groups(#[trigger] resources@[j], plan.targets@[j], all[j]),
        decreases plan.targets@.len() - i,
    {
        let outcome = rest.remove(0);
        assert(outcome == all[i as int]);
        let g = group_from_listing(&plan.targets[i], outcome);
        resources.push(g);
        assert(rest@ =~= all.skip(i + 1));
        i = i + 1;
    }
    K8sOverview { crds: plan.crds, resources, errors: plan.errors }
}


// ---------------------------------------------------------------------------
// Plurals of the built-in types
// ---------------------------------------------------------------------------

proof fn lemma_plural_plain(w: Seq<char>, n: int)
    requires
        w.len() >= 2,
        w != "endpoints"@,
        w != "endpointslices"@,
        w != "nodemetrics"@,
        w != "podmetrics"@,
        w.last() != 's',
        w.last() != 'x',
        w.last() != 'z',
        w.last() != 'y',
        w.last() != 'h',
    ensures
        pluralize(w, n) == w.push('s'),
{
    let k = w.len() as int;
    assert(w.subrange(k - 1, k)[0] == w.last());
    assert(w.subrange(k - 2, k)[1] == w.last());
}

proof fn lemma_plural_es(w: Seq<char>, n: int)
    requires
        w.len() >= 2,
        w != "endpoints"@,
        w != "endpointslices"@,
        w != "nodemetrics"@,
        w != "podmetrics"@,
        w.last() == 's',
    ensures
        pluralize(w, n) == w + seq!['e', 's'],
{
    let k = w.len() as int;
    assert(w.subrange(k - 1, k) =~= seq!['s']);
}

proof fn lemma_kube_plural_pod()
    ensures
        kube_plural("Pod"@) == "pods"@,
{
    reveal_strlit("Pod");
    assert("Pod"@.len() == 3);
    reveal_strlit("pod");
    assert("pod"@.len() == 3);
    reveal_strlit("pods");
    assert("pods"@.len() == 4);
    reveal_strlit("endpoints");
    assert("endpoints"@.len() == 9);
    reveal_strlit("endpointslices");
    assert("endpointslices"@.len() == 14);
    reveal_strlit("nodemetrics");
    assert("nodemetrics"@.len() == 11);
    reveal_strlit("podmetrics");
    assert("podmetrics"@.len() == 10);
    assert(ascii_lower("Pod"@) =~= "pod"@);
    assert("pod"@.last() == 'd');
    lemma_plural_plain("pod"@, encode_utf8("pod"@).len() as int);
    assert("pod"@.push('s') =~= "pods"@);
}

proof fn lemma_kube_plural_service()
    ensures
        kube_plural("Service"@) == "services"@,
{
    reveal_strlit("Service");
    assert("Service"@.len() == 7);
    reveal_strlit("service");
    assert("service"@.len() == 7);
    reveal_strlit("services");
    assert("services"@.len() == 8);
    reveal_strlit("endpoints");
    assert("endpoints"@.len() == 9);
    reveal_strlit("endpointslices");
    assert("endpointslices"@.len() == 14);
    reveal_strlit("nodemetrics");
    assert("nodemetrics"@.len() == 11);
    reveal_strlit("podmetrics");
    assert("podmetrics"@.len() == 10);
    assert(ascii_lower("Service"@) =~= "service"@);
    assert("service"@.last() == 'e');
    lemma_plural_plain("service"@, encode_utf8("service"@).len() as int);
    assert("service"@.push('s') =~= "services"@);
}

proof fn lemma_kube_plural_configmap()
    ensures
        kube_plural("ConfigMap"@) == "configmaps"@,
{
    reveal_strlit("ConfigMap");
    assert("ConfigMap"@.len() == 9);
    reveal_strlit("configmap");
    assert("configmap"@.len() == 9);
    reveal_strlit("configmaps");
    assert("configmaps"@.len() == 10);
    reveal_strlit("endpoints");
    assert("endpoints"@.len() == 9);
    reveal_strlit("endpointslices");
    assert("endpointslices"@.len() == 14);
    reveal_strlit("nodemetrics");
    assert("nodemetrics"@.len() == 11);
    reveal_strlit("podmetrics");
    assert("podmetrics"@.len() == 10);
    assert(ascii_lower("ConfigMap"@) =~= "configmap"@);
    assert("configmap"@[0] == 'c');
    assert("endpoints"@[0] == 'e');
    assert("configmap"@.last() == 'p');
    lemma_plural_plain("configmap"@, encode_utf8("configmap"@).len() as int);
    assert("configmap"@.push('s') =~= "configmaps"@);
}

proof fn lemma_kube_plural_secret()
    ensures
        kube_plural("Secret"@) == "secrets"@,
{
    reveal_strlit("Secret");
    assert("Secret"@.len() == 6);
    reveal_strlit("secret");
    assert("secret"@.len() == 6);
    reveal_strlit("secrets");
    assert("secrets"@.len() == 7);
    reveal_strlit("endpoints");
    assert("endpoints"@.len() == 9);
    reveal_strlit("endpointslices");
    assert("endpointslices"@.len() == 14);
    reveal_strlit("nodemetrics");
    assert("nodemetrics"@.len() == 11);
    reveal_strlit("podmetrics");
    assert("podmetrics"@.len() == 10);
    assert(ascii_lower("Secret"@) =~= "secret"@);
    assert("secret"@.last() == 't');
    lemma_plural_plain("secret"@, encode_utf8("secret"@).len() as int);
    assert("secret"@.push('s') =~= "secrets"@);
}

proof fn lemma_kube_plural_persistentvolume()
    ensures
        kube_plural("PersistentVolume"@) == "persistentvolumes"@,
{
    reveal_strlit("PersistentVolume");
    assert("PersistentVolume"@.len() == 16);
    reveal_strlit("persistentvolume");
    assert("persistentvolume"@.len() == 16);
    reveal_strlit("persistentvolumes");
    assert("persistentvolumes"@.len() == 17);
    reveal_strlit("endpoints");
    assert("endpoints"@.len() == 9);
    reveal_strlit("endpointslices");
    assert("endpointslices"@.len() == 14);
    reveal_strlit("nodemetrics");
    assert("nodemetrics"@.len() == 11);
    reveal_strlit("podmetrics");
    assert("podmetrics"@.len() == 10);
    assert(ascii_lower("PersistentVolume"@) =~= "persistentvolume"@);
    assert("persistentvolume"@.last() == 'e');
    lemma_plural_plain("persistentvolume"@, encode_utf8("persistentvolume"@).len() as int);
    assert("persistentvolume"@.push('s') =~= "persistentvolumes"@);
}

proof fn lemma_kube_plural_persistentvolumeclaim()
    ensures
        kube_plural("PersistentVolumeClaim"@) == "persistentvolumeclaims"@,
{
    reveal_strlit("PersistentVolumeClaim");
    assert("PersistentVolumeClaim"@.len() == 21);
    reveal_strlit("persistentvolumeclaim");
    assert("persistentvolumeclaim"@.len() == 21);
    reveal_strlit("persistentvolumeclaims");
    assert("persistentvolumeclaims"@.len() == 22);
    reveal_strlit("endpoints");
    assert("endpoints"@.len() == 9);
    reveal_strlit("endpointslices");
    assert("endpointslices"@.len() == 14);
    reveal_strlit("nodemetrics");
    assert("nodemetrics"@.len() == 11);
    reveal_strlit("podmetrics");
    assert("podmetrics"@.len() == 10);
    assert(ascii_lower("PersistentVolumeClaim"@) =~= "persistentvolumeclaim"@);
    assert("persistentvolumeclaim"@.last() == 'm');
    lemma_plural_plain("persistentvolumeclaim"@, encode_utf8("persistentvolumeclaim"@).len() as int);
    assert("persistentvolumeclaim"@.push('s') =~= "persistentvolumeclaims"@);
}

proof fn lemma_kube_plural_namespace()
    ensures
        kube_plural("Namespace"@) == "namespaces"@,
{
    reveal_strlit("Namespace");
    assert("Namespace"@.len() == 9);
    reveal_strlit("namespace");
    assert("namespace"@.len() == 9);
    reveal_strlit("namespaces");
    assert("namespaces"@.len() == 10);
    reveal_strlit("endpoints");
    assert("endpoints"@.len() == 9);
    reveal_strlit("endpointslices");
    assert("endpointslices"@.len() == 14);
    reveal_strlit("nodemetrics");
    assert("nodemetrics"@.len() == 11);
    reveal_strlit("podmetrics");
    assert("podmetrics"@.len() == 10);
    assert(ascii_lower("Namespace"@) =~= "namespace"@);
    assert("namespace"@[0] == 'n');
    assert("endpoints"@[0] == 'e');
    assert("namespace"@.last() == 'e');
    lemma_plural_plain("namespace"@, encode_utf8("namespace"@).len() as int);
    assert("namespace"@.push('s') =~= "namespaces"@);
}

proof fn lemma_kube_plural_node()
    ensures
        kube_plural("Node"@) == "nodes"@,
{
    reveal_strlit("Node");
    assert("Node"@.len() == 4);
    reveal_strlit("node");
    assert("node"@.len() == 4);
    reveal_strlit("nodes");
    assert("nodes"@.len() == 5);
    reveal_strlit("endpoints");
    assert("endpoints"@.len() == 9);
    reveal_strlit("endpointslices");
    assert("endpointslices"@.len() == 14);
    reveal_strlit("nodemetrics");
    assert("nodemetrics"@.len() == 11);
    reveal_strlit("podmetrics");
    assert("podmetrics"@.len() == 10);
    assert(ascii_lower("Node"@) =~= "node"@);
    assert("node"@.last() == 'e');
    lemma_plural_plain("node"@, encode_utf8("node"@).len() as int);
    assert("node"@.push('s') =~= "nodes"@);
}

proof fn lemma_kube_plural_deployment()
    ensures
        kube_plural("Deployment"@) == "deployments"@,
{
    reveal_strlit("Deployment");
    assert("Deployment"@.len() == 10);
    reveal_strlit("deployment");
    assert("deployment"@.len() == 10);
    reveal_strlit("deployments");
    assert("deployments"@.len() == 11);
    reveal_strlit("endpoints");
    assert("endpoints"@.len() == 9);
    reveal_strlit("endpointslices");
    assert("endpointslices"@.len() == 14);
    reveal_strlit("nodemetrics");
    assert("nodemetrics"@.len() == 11);
    reveal_strlit("podmetrics");
    assert("podmetrics"@.len() == 10);
    assert(ascii_lower("Deployment"@) =~= "deployment"@);
    assert("deployment"@[0] == 'd');
    assert("podmetrics"@[0] == 'p');
    assert("deployment"@.last() == 't');
    lemma_plural_plain("deployment"@, encode_utf8("deployment"@).len() as int);
    assert("deployment"@.push('s') =~= "deployments"@);
}

proof fn lemma_kube_plural_statefulset()
    ensures
        kube_plural("StatefulSet"@) == "statefulsets"@,
{
    reveal_strlit("StatefulSet");
    assert("StatefulSet"@.len() == 11);
    reveal_strlit("statefulset");
    assert("statefulset"@.len() == 11);
    reveal_strlit("statefulsets");
    assert("statefulsets"@.len() == 12);
    reveal_strlit("endpoints");
    assert("endpoints"@.len() == 9);
    reveal_strlit("endpointslices");
    assert("endpointslices"@.len() == 14);
    reveal_strlit("nodemetrics");
    assert("nodemetrics"@.len() == 11);
    reveal_strlit("podmetrics");
    assert("podmetrics"@.len() == 10);
    assert(ascii_lower("StatefulSet"@) =~= "statefulset"@);
    assert("statefulset"@[0] == 's');
    assert("nodemetrics"@[0] == 'n');
    assert("statefulset"@.last() == 't');
    lemma_plural_plain("statefulset"@, encode_utf8("statefulset"@).len() as int);
    assert("statefulset"@.push('s') =~= "statefulsets"@);
}

proof fn lemma_kube_plural_daemonset()
    ensures
        kube_plural("DaemonSet"@) == "daemonsets"@,
{
    reveal_strlit("DaemonSet");
    assert("DaemonSet"@.len() == 9);
    reveal_strlit("daemonset");
    assert("daemonset"@.len() == 9);
    reveal_strlit("daemonsets");
    assert("daemonsets"@.len() == 10);
    reveal_strlit("endpoints");
    assert("endpoints"@.len() == 9);
    reveal_strlit("endpointslices");
    assert("endpointslices"@.len() == 14);
    reveal_strlit("nodemetrics");
    assert("nodemetrics"@.len() == 11);
    reveal_strlit("podmetrics");
    assert("podmetrics"@.len() == 10);
    assert(ascii_lower("DaemonSet"@) =~= "daemonset"@);
    assert("daemonset"@[0] == 'd');
    assert("endpoints"@[0] == 'e');
    assert("daemonset"@.last() == 't');
    lemma_plural_plain("daemonset"@, encode_utf8("daemonset"@).len() as int);
    assert("daemonset"@.push('s') =~= "daemonsets"@);
}

proof fn lemma_kube_plural_replicaset()
    ensures
        kube_plural("ReplicaSet"@) == "replicasets"@,
{
    reveal_strlit("ReplicaSet");
    assert("ReplicaSet"@.len() == 10);
    reveal_strlit("replicaset");
    assert("replicaset"@.len() == 10);
    reveal_strlit("replicasets");
    assert("replicasets"@.len() == 11);
    reveal_strlit("endpoints");
    assert("endpoints"@.len() == 9);
    reveal_strlit("endpointslices");
    assert("endpointslices"@.len() == 14);
    reveal_strlit("nodemetrics");
    assert("nodemetrics"@.len() == 11);
    reveal_strlit("podmetrics");
    assert("podmetrics"@.len() == 10);
    assert(ascii_lower("ReplicaSet"@) =~= "replicaset"@);
    assert("replicaset"@[0] == 'r');
    assert("podmetrics"@[0] == 'p');
    assert("replicaset"@.last() == 't');
    lemma_plural_plain("replicaset"@, encode_utf8("replicaset"@).len() as int);
    assert("replicaset"@.push('s') =~= "replicasets"@);
}

proof fn lemma_kube_plural_job()
    ensures
        kube_plural("Job"@) == "jobs"@,
{
    reveal_strlit("Job");
    assert("Job"@.len() == 3);
    reveal_strlit("job");
    assert("job"@.len() == 3);
    reveal_strlit("jobs");
    assert("jobs"@.len() == 4);
    reveal_strlit("endpoints");
    assert("endpoints"@.len() == 9);
    reveal_strlit("endpointslices");
    assert("endpointslices"@.len() == 14);
    reveal_strlit("nodemetrics");
    assert("nodemetrics"@.len() == 11);
    reveal_strlit("podmetrics");
    assert("podmetrics"@.len() == 10);
    assert(ascii_lower("Job"@) =~= "job"@);
    assert("job"@.last() == 'b');
    lemma_plural_plain("job"@, encode_utf8("job"@).len() as int);
    assert("job"@.push('s') =~= "jobs"@);
}

proof fn lemma_kube_plural_cronjob()
    ensures
        kube_plural("CronJob"@) == "cronjobs"@,
{
    reveal_strlit("CronJob");
    assert("CronJob"@.len() == 7);
    reveal_strlit("cronjob");
    assert("cronjob"@.len() == 7);
    reveal_strlit("cronjobs");
    assert("cronjobs"@.len() == 8);
    reveal_strlit("endpoints");
    assert("endpoints"@.len() == 9);
    reveal_strlit("endpointslices");
    assert("endpointslices"@.len() == 14);
    reveal_strlit("nodemetrics");
    assert("nodemetrics"@.len() == 11);
    reveal_strlit("podmetrics");
    assert("podmetrics"@.len() == 10);
    assert(ascii_lower("CronJob"@) =~= "cronjob"@);
    assert("cronjob"@.last() == 'b');
    lemma_plural_plain("cronjob"@, encode_utf8("cronjob"@).len() as int);
    assert("cronjob"@.push('s') =~= "cronjobs"@);
}

proof fn lemma_kube_plural_ingress()
    ensures
        kube_plural("Ingress"@) == "ingresses"@,
{
    reveal_strlit("Ingress");
    assert("Ingress"@.len() == 7);
    reveal_strlit("ingress");
    assert("ingress"@.len() == 7);
    reveal_strlit("ingresses");
    assert("ingresses"@.len() == 9);
    reveal_strlit("endpoints");
    assert("endpoints"@.len() == 9);
    reveal_strlit("endpointslices");
    assert("endpointslices"@.len() == 14);
    reveal_strlit("nodemetrics");
    assert("nodemetrics"@.len() == 11);
    reveal_strlit("podmetrics");
    assert("podmetrics"@.len() == 10);
    assert(ascii_lower("Ingress"@) =~= "ingress"@);
    assert("ingress"@.last() == 's');
    lemma_plural_es("ingress"@, encode_utf8("ingress"@).len() as int);
    assert("ingress"@ + seq!['e', 's'] =~= "ingresses"@);
}

proof fn lemma_kube_plural_endpointslice()
    ensures
        kube_plural("EndpointSlice"@) == "endpointslices"@,
{
    reveal_strlit("EndpointSlice");
    assert("EndpointSlice"@.len() == 13);
    reveal_strlit("endpointslice");
    assert("endpointslice"@.len() == 13);
    reveal_strlit("endpointslices");
    assert("endpointslices"@.len() == 14);
    reveal_strlit("endpoints");
    assert("endpoints"@.len() == 9);
    reveal_strlit("endpointslices");
    assert("endpointslices"@.len() == 14);
    reveal_strlit("nodemetrics");
    assert("nodemetrics"@.len() == 11);
    reveal_strlit("podmetrics");
    assert("podmetrics"@.len() == 10);
    assert(ascii_lower("EndpointSlice"@) =~= "endpointslice"@);
    assert("endpointslice"@.last() == 'e');
    lemma_plural_plain("endpointslice"@, encode_utf8("endpointslice"@).len() as int);
    assert("endpointslice"@.push('s') =~= "endpointslices"@);
}

proof fn lemma_kube_plural_storageclass()
    ensures
        kube_plural("StorageClass"@) == "storageclasses"@,
{
    reveal_strlit("StorageClass");
    assert("StorageClass"@.len() == 12);
    reveal_strlit("storageclass");
    assert("storageclass"@.len() == 12);
    reveal_strlit("storageclasses");
    assert("storageclasses"@.len() == 14);
    reveal_strlit("endpoints");
    assert("endpoints"@.len() == 9);
    reveal_strlit("endpointslices");
    assert("endpointslices"@.len() == 14);
    reveal_strlit("nodemetrics");
    assert("nodemetrics"@.len() == 11);
    reveal_strlit("podmetrics");
    assert("podmetrics"@.len() == 10);
    assert(ascii_lower("StorageClass"@) =~= "storageclass"@);
    assert("storageclass"@.last() == 's');
    lemma_plural_es("storageclass"@, encode_utf8("storageclass"@).len() as int);
    assert("storageclass"@ + seq!['e', 's'] =~= "storageclasses"@);
}

/// Each built-in type is listed under the resource name the API serves for
/// it: its plural is the one kube derives from its kind, and the one the
/// table of known plurals gives for its group and kind.
pub proof fn builtin_plurals_are_served_names()
    ensures
        forall|i: int|
            0 <= i < builtin_table().len() ==> (#[trigger] builtin_table()[i]).plural == kube_plural(
                builtin_table()[i].gvk.kind,
            ) && builtin_table()[i].plural == plural_table(builtin_table()[i].gvk.group, builtin_table()[i].gvk.kind),
{
    reveal_strlit("");
    assert(""@.len() == 0);
    reveal_strlit("ConfigMap");
    assert("ConfigMap"@.len() == 9);
    reveal_strlit("CronJob");
    assert("CronJob"@.len() == 7);
    reveal_strlit("DaemonSet");
    assert("DaemonSet"@.len() == 9);
    reveal_strlit("Deployment");
    assert("Deployment"@.len() == 10);
    reveal_strlit("EndpointSlice");
    assert("EndpointSlice"@.len() == 13);
    reveal_strlit("Ingress");
    assert("Ingress"@.len() == 7);
    reveal_strlit("Job");
    assert("Job"@.len() == 3);
    reveal_strlit("Namespace");
    assert("Namespace"@.len() == 9);
    reveal_strlit("Node");
    assert("Node"@.len() == 4);
    reveal_strlit("PersistentVolume");
    assert("PersistentVolume"@.len() == 16);
    reveal_strlit("PersistentVolumeClaim");
    assert("PersistentVolumeClaim"@.len() == 21);
    reveal_strlit("Pod");
    assert("Pod"@.len() == 3);
    reveal_strlit("ReplicaSet");
    assert("ReplicaSet"@.len() == 10);
    reveal_strlit("Secret");
    assert("Secret"@.len() == 6);
    reveal_strlit("Service");
    assert("Service"@.len() == 7);
    reveal_strlit("StatefulSet");
    assert("StatefulSet"@.len() == 11);
    reveal_strlit("StorageClass");
    assert("StorageClass"@.len() == 12);
    reveal_strlit("apps");
    assert("apps"@.len() == 4);
    reveal_strlit("batch");
    assert("batch"@.len() == 5);
    reveal_strlit("configmaps");
    assert("configmaps"@.len() == 10);
    reveal_strlit("cronjobs");
    assert("cronjobs"@.len() == 8);
    reveal_strlit("daemonsets");
    assert("daemonsets"@.len() == 10);
    reveal_strlit("deployments");
    assert("deployments"@.len() == 11);
    reveal_strlit("discovery.k8s.io");
    assert("discovery.k8s.io"@.len() == 16);
    reveal_strlit("endpointslices");
    assert("endpointslices"@.len() == 14);
    reveal_strlit("ingresses");
    assert("ingresses"@.len() == 9);
    reveal_strlit("jobs");
    assert("jobs"@.len() == 4);
    reveal_strlit("namespaces");
    assert("namespaces"@.len() == 10);
    reveal_strlit("networking.k8s.io");
    assert("networking.k8s.io"@.len() == 17);
    reveal_strlit("nodes");
    assert("nodes"@.len() == 5);
    reveal_strlit("persistentvolumeclaims");
    assert("persistentvolumeclaims"@.len() == 22);
    reveal_strlit("persistentvolumes");
    assert("persistentvolumes"@.len() == 17);
    reveal_strlit("pods");
    assert("pods"@.len() == 4);
    reveal_strlit("replicasets");
    assert("replicasets"@.len() == 11);
    reveal_strlit("secrets");
    assert("secrets"@.len() == 7);
    reveal_strlit("services");
    assert("services"@.len() == 8);
    reveal_strlit("statefulsets");
    assert("statefulsets"@.len() == 12);
    reveal_strlit("storage.k8s.io");
    assert("storage.k8s.io"@.len() == 14);
    reveal_strlit("storageclasses");
    assert("storageclasses"@.len() == 14);
    reveal_strlit("v1");
    assert("v1"@.len() == 2);
    assert("Deployment"@[0] == 'D');
    assert("ReplicaSet"@[0] == 'R');
    assert("Namespace"@[0] == 'N');
    assert("ConfigMap"@[0] == 'C');
    let t = builtin_table();
    assert forall|i: int| 0 <= i < t.len() implies (#[trigger] t[i]).plural == kube_plural(t[i].gvk.kind) && t[i].plural == plural_table(t[i].gvk.group, t[i].gvk.kind) by {
        if i == 0 {
            assert(t[0] == row(""@, "v1"@, "Pod"@, "pods"@, true));
            lemma_kube_plural_pod();
        } else if i == 1 {
            assert(t[1] == row(""@, "v1"@, "Service"@, "services"@, true));
            lemma_kube_plural_service();
        } else if i == 2 {
            assert(t[2] == row(""@, "v1"@, "ConfigMap"@, "configmaps"@, true));
            lemma_kube_plural_configmap();
        } else if i == 3 {
            assert(t[3] == row(""@, "v1"@, "Secret"@, "secrets"@, true));
            lemma_kube_plural_secret();
        } else if i == 4 {
            assert(t[4] == row(""@, "v1"@, "PersistentVolume"@, "persistentvolumes"@, false));
            lemma_kube_plural_persistentvolume();
        } else if i == 5 {
            assert(t[5] == row(""@, "v1"@, "PersistentVolumeClaim"@, "persistentvolumeclaims"@, true));
            lemma_kube_plural_persistentvolumeclaim();
        } else if i == 6 {
            assert(t[6] == row(""@, "v1"@, "Namespace"@, "namespaces"@, false));
            lemma_kube_plural_namespace();
        } else if i == 7 {
            assert(t[7] == row(""@, "v1"@, "Node"@, "nodes"@, false));
            lemma_kube_plural_node();
        } else if i == 8 {
            assert(t[8] == row("apps"@, "v1"@, "Deployment"@, "deployments"@, true));
            lemma_kube_plural_deployment();
        } else if i == 9 {
            assert(t[9] == row("apps"@, "v1"@, "StatefulSet"@, "statefulsets"@, true));
            lemma_kube_plural_statefulset();
        } else if i == 10 {
            assert(t[10] == row("apps"@, "v1"@, "DaemonSet"@, "daemonsets"@, true));
            lemma_kube_plural_daemonset();
        } else if i == 11 {
            assert(t[11] == row("apps"@, "v1"@, "ReplicaSet"@, "replicasets"@, true));
            lemma_kube_plural_replicaset();
        } else if i == 12 {
            assert(t[12] == row("batch"@, "v1"@, "Job"@, "jobs"@, true));
            lemma_kube_plural_job();
        } else if i == 13 {
            assert(t[13] == row("batch"@, "v1"@, "CronJob"@, "cronjobs"@, true));
            lemma_kube_plural_cronjob();
        } else if i == 14 {
            assert(t[14] == row("networking.k8s.io"@, "v1"@, "Ingress"@, "ingresses"@, true));
            lemma_kube_plural_ingress();
        } else if i == 15 {
            assert(t[15] == row("discovery.k8s.io"@, "v1"@, "EndpointSlice"@, "endpointslices"@, true));
            lemma_kube_plural_endpointslice();
        } else if i == 16 {
            assert(t[16] == row("storage.k8s.io"@, "v1"@, "StorageClass"@, "storageclasses"@, false));
            lemma_kube_plural_storageclass();
        }
    }
}

} // verus!
