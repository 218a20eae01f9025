//! Plural resource names, which the API paths of a resource type use.
use vstd::prelude::*;
use vstd::utf8::encode_utf8;
use crate::text::{str_eq, owned, ascii_lower};

verus! {

/// The plural that the built-in table gives for a group and kind; empty when
/// the table does not know the kind.
pub open spec fn plural_table(group: Seq<char>, kind: Seq<char>) -> Seq<char> {
    if group == ""@ && kind == "Pod"@ {
        "pods"@
    } else if group == ""@ && kind == "Service"@ {
        "services"@
    } else if group == ""@ && kind == "Node"@ {
        "nodes"@
    } else if group == ""@ && kind == "Namespace"@ {
        "namespaces"@
    } else if group == ""@ && kind == "ConfigMap"@ {
        "configmaps"@
    } else if group == ""@ && kind == "Secret"@ {
        "secrets"@
    } else if group == ""@ && kind == "PersistentVolume"@ {
        "persistentvolumes"@
    } else if group == ""@ && kind == "PersistentVolumeClaim"@ {
        "persistentvolumeclaims"@
    } else if group == "apps"@ && kind == "Deployment"@ {
        "deployments"@
    } else if group == "apps"@ && kind == "StatefulSet"@ {
        "statefulsets"@
    } else if group == "apps"@ && kind == "DaemonSet"@ {
        "daemonsets"@
    } else if group == "apps"@ && kind == "ReplicaSet"@ {
        "replicasets"@
    } else if group == "batch"@ && kind == "Job"@ {
        "jobs"@
    } else if group == "batch"@ && kind == "CronJob"@ {
        "cronjobs"@
    } else if group == "networking.k8s.io"@ && kind == "Ingress"@ {
        "ingresses"@
    } else if group == "discovery.k8s.io"@ && kind == "EndpointSlice"@ {
        "endpointslices"@
    } else if group == "storage.k8s.io"@ && kind == "StorageClass"@ {
        "storageclasses"@
    } else {
        ""@
    }
}

/// The plural of a well-known resource type, or "" when the kind is not one
/// of them.
pub fn guess_plural(group: &str, kind: &str) -> (r: &'static str)
    ensures
        r@ == plural_table(group@, kind@),
{
    let core = str_eq(group, "");
    if core && str_eq(kind, "Pod") {
        "pods"
    } else if core && str_eq(kind, "Service") {
        "services"
    } else if core && str_eq(kind, "Node") {
        "nodes"
    } else if core && str_eq(kind, "Namespace") {
        "namespaces"
    } else if core && str_eq(kind, "ConfigMap") {
        "configmaps"
    } else if core && str_eq(kind, "Secret") {
        "secrets"
    } else if core && str_eq(kind, "PersistentVolume") {
        "persistentvolumes"
    } else if core && str_eq(kind, "PersistentVolumeClaim") {
        "persistentvolumeclaims"
    } else if str_eq(group, "apps") && str_eq(kind, "Deployment") {
        "deployments"
    } else if str_eq(group, "apps") && str_eq(kind, "StatefulSet") {
        "statefulsets"
    } else if str_eq(group, "apps") && str_eq(kind, "DaemonSet") {
        "daemonsets"
    } else if str_eq(group, "apps") && str_eq(kind, "ReplicaSet") {
        "replicasets"
    } else if str_eq(group, "batch") && str_eq(kind, "Job") {
        "jobs"
    } else if str_eq(group, "batch") && str_eq(kind, "CronJob") {
        "cronjobs"
    } else if str_eq(group, "networking.k8s.io") && str_eq(kind, "Ingress") {
        "ingresses"
    } else if str_eq(group, "discovery.k8s.io") && str_eq(kind, "EndpointSlice") {
        "endpointslices"
    } else if str_eq(group, "storage.k8s.io") && str_eq(kind, "StorageClass") {
        "storageclasses"
    } else {
        ""
    }
}

/// Whether `w` ends with `suffix`.
pub open spec fn ends_with(w: Seq<char>, suffix: Seq<char>) -> bool {
    suffix.len() <= w.len() && w.subrange(w.len() - suffix.len(), w.len() as int) == suffix
}

/// One of the letters a, e, i, o, u.
pub open spec fn is_vowel(c: char) -> bool {
    c == 'a' || c == 'e' || c == 'i' || c == 'o' || c == 'u'
}

/// kube's simple pluralizer on a lowercase word `w` whose UTF-8 encoding is
/// `byte_len` bytes long: a few fixed words, "-es" after s, x, z, ch and sh,
/// "-ies" after y when the character at index `byte_len - 2` (a byte count
/// used as a character index) exists and is not a vowel, and "-s" otherwise.
pub open spec fn pluralize(w: Seq<char>, byte_len: int) -> Seq<char> {
    if w == "endpoints"@ || w == "endpointslices"@ {
        w
    } else if w == "nodemetrics"@ {
        "nodes"@
    } else if w == "podmetrics"@ {
        "pods"@
    } else if ends_with(w, seq!['s']) || ends_with(w, seq!['x']) || ends_with(w, seq!['z'])
        || ends_with(w, seq!['c', 'h']) || ends_with(w, seq!['s', 'h']) {
        w + seq!['e', 's']
    } else if ends_with(w, seq!['y']) && 0 <= byte_len - 2 < w.len() && !is_vowel(w[byte_len - 2]) {
        w.drop_last() + seq!['i', 'e', 's']
    } else {
        w.push('s')
    }
}

/// The plural that kube derives for a kind: `pluralize` of its ASCII
/// lowercase form.
pub open spec fn kube_plural(kind: Seq<char>) -> Seq<char> {
    let w = ascii_lower(kind);
    pluralize(w, encode_utf8(w).len() as int)
}

proof fn lemma_plural_nonempty(kind: Seq<char>)
    ensures
        kube_plural(kind).len() > 0,
{
    reveal_strlit("endpoints");
    reveal_strlit("endpointslices");
    reveal_strlit("nodemetrics");
    reveal_strlit("podmetrics");
    reveal_strlit("nodes");
    reveal_strlit("pods");
    assert("nodes"@.len() == 5);
    assert("pods"@.len() == 4);
    assert("endpoints"@.len() == 9);
    assert("endpointslices"@.len() == 14);
}

/// A kind on which kube's plural derivation overflows (the one-letter word "y").
pub open spec fn overflowing_kind(kind: Seq<char>) -> bool {
    kind == seq!['y'] || kind == seq!['Y']
}

/// kube's `ApiResource::from_gvk`, read for its `plural`: `to_plural` on the
/// ASCII-lowercased kind, which is `kube_plural`. The lone kinds "y" and "Y"
/// make its "-ies" rule subtract past zero, so they are left out.
#[verifier::external_body]
fn api_resource_plural(group: &str, version: &str, kind: &str) -> (r: String)
    requires
        !overflowing_kind(kind@),
    ensures
        r@ == kube_plural(kind@),
{
    kube::core::ApiResource::from_gvk(&kube::core::GroupVersionKind::gvk(group, version, kind)).plural
}

/// The plural to use given the one kube derived: that one, or the table's
/// guess when it is empty.
pub fn plural_or_guess(derived: String, group: &str, kind: &str) -> (r: String)
    ensures
        r@ == (if derived@.len() == 0 {
            plural_table(group@, kind@)
        } else {
            derived@
        }),
{
    if derived.as_str().is_empty() {
        owned(guess_plural(group, kind))
    } else {
        derived
    }
}

/// The plural under which a resource type is listed, watched and described.
pub fn resource_plural(group: &str, version: &str, kind: &str) -> (r: String)
    requires
        !overflowing_kind(kind@),
    ensures
        r@ == kube_plural(kind@),
{
    let derived = api_resource_plural(group, version, kind);
    proof {
        lemma_plural_nonempty(kind@);
    }
    plural_or_guess(derived, group, kind)
}

/// The plural of a resource type, or `None` for the kinds "y" and "Y", on
/// which kube's derivation overflows.
pub fn checked_resource_plural(group: &str, version: &str, kind: &str) -> (r: Option<String>)
    ensures
        match r {
            Some(p) => {
                &&& !overflowing_kind(kind@)
                &&& p@ == kube_plural(kind@)
            },
            None => overflowing_kind(kind@),
        },
{
    proof {
        reveal_strlit("y");
        reveal_strlit("Y");
        assert("y"@ =~= seq!['y']);
        assert("Y"@ =~= seq!['Y']);
    }
    if str_eq(kind, "y") || str_eq(kind, "Y") {
        None
    } else {
        Some(resource_plural(group, version, kind))
    }
}

} // verus!
