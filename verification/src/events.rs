//! Resource events pushed while watching a resource type: the payload sent
//! for each change, how it is read back, and how it updates the overview.
use vstd::prelude::*;
use crate::json::{JsonValue, field, lookup, str_at, deref_opt, str_in};
use crate::overview::ResourceGroup;
use crate::summary::{GvkView, ResourceRefGvk, ResourceSummary, summarize_item, summarizes_item};
use crate::text::{owned, str_eq};

verus! {

/// A change of one object of a watched type.
pub struct ResourceEvent {
    /// "ADDED", "MODIFIED", "DELETED", or another word, which changes nothing.
    pub op: String,
    pub gvk: ResourceRefGvk,
    pub summary: ResourceSummary,
}

// ---------------------------------------------------------------------------
// Payload
// ---------------------------------------------------------------------------

/// `p` is the payload of an event: `{"op": op, "gvk": {"group", "version",
/// "kind"}, "item": item}` with `item` the changed object.
pub open spec fn is_event_payload(p: JsonValue, op: Seq<char>, gvk: GvkView, item: JsonValue) -> bool {
    match p {
        JsonValue::Object(m) => {
            &&& m@.len() == 3
            &&& m@[0].0@ == "op"@
            &&& m@[0].1 matches JsonValue::Str(o) && o@ == op
            &&& m@[1].0@ == "gvk"@
            &&& m@[1].1 matches JsonValue::Object(g) && {
                &&& g@.len() == 3
                &&& g@[0].0@ == "group"@
                &&& g@[0].1 matches JsonValue::Str(x) && x@ == gvk.group
                &&& g@[1].0@ == "version"@
                &&& g@[1].1 matches JsonValue::Str(x) && x@ == gvk.version
                &&& g@[2].0@ == "kind"@
                &&& g@[2].1 matches JsonValue::Str(x) && x@ == gvk.kind
            }
            &&& m@[2].0@ == "item"@
            &&& m@[2].1 == item
        },
        _ => false,
    }
}

/// The payload emitted for a change `op` of `item`, an object of type `gvk`.
pub fn event_payload(op: &str, gvk: &ResourceRefGvk, item: JsonValue) -> (r: JsonValue)
    ensures
        is_event_payload(r, op@, gvk.deep_view(), item),
{
    let mut g: Vec<(String, JsonValue)> = Vec::new();
    g.push((owned("group"), JsonValue::Str(gvk.group.clone())));
    g.push((owned("version"), JsonValue::Str(gvk.version.clone())));
    g.push((owned("kind"), JsonValue::Str(gvk.kind.clone())));
    let mut m: Vec<(String, JsonValue)> = Vec::new();
    m.push((owned("op"), JsonValue::Str(owned(op))));
    m.push((owned("gvk"), JsonValue::Object(g)));
    m.push((owned("item"), item));
    JsonValue::Object(m)
}

// ---------------------------------------------------------------------------
// Reading an event back
// ---------------------------------------------------------------------------

/// The event object inside a notification: its "payload" member, else itself.
pub open spec fn event_body(root: JsonValue) -> JsonValue {
    match field(root, "payload"@) {
        Some(p) => p,
        None => root,
    }
}

/// A text member of `v`, or "" when absent.
pub open spec fn text_or_empty(v: Option<JsonValue>, key: Seq<char>) -> Seq<char> {
    match str_at(v, key) {
        Some(s) => s,
        None => Seq::empty(),
    }
}

/// The type named by the "gvk" member of an event body.
pub open spec fn event_gvk(body: JsonValue) -> GvkView {
    let g = field(body, "gvk"@);
    GvkView {
        group: text_or_empty(g, "group"@),
        version: text_or_empty(g, "version"@),
        kind: text_or_empty(g, "kind"@),
    }
}

/// `r` is what a notification `root` reads as: nothing when its body lacks
/// "gvk" or "item", else its operation, type and the summary of its item.
pub open spec fn reads_event(r: Option<ResourceEvent>, root: JsonValue) -> bool {
    let body = event_body(root);
    match r {
        None => field(body, "gvk"@) is None || field(body, "item"@) is None,
        Some(ev) => {
            &&& field(body, "gvk"@) is Some
            &&& field(body, "item"@) is Some
            &&& ev.op@ == text_or_empty(Some(body), "op"@)
            &&& ev.gvk.deep_view() == event_gvk(body)
            &&& summarizes_item(ev.summary, field(body, "item"@).unwrap(), event_gvk(body))
        },
    }
}

fn text_member(v: Option<&JsonValue>, key: &str) -> (r: String)
    ensures
        r@ == text_or_empty(deref_opt(v), key@),
{
    match str_in(v, key) {
        Some(s) => s,
        None => String::new(),
    }
}

/// Reads a resource notification.
pub fn parse_resource_event(root: &JsonValue) -> (r: Option<ResourceEvent>)
    ensures
        reads_event(r, *root),
{
    let body = match root.get("payload") {
        Some(p) => p,
        None => root,
    };
    let op = text_member(Some(body), "op");
    let g = body.get("gvk");
    let item = body.get("item");
    match (g, item) {
        (Some(_), Some(it)) => {
            let gvk = ResourceRefGvk {
                group: text_member(g, "group"),
                version: text_member(g, "version"),
                kind: text_member(g, "kind"),
            };
            let summary = summarize_item(it, &gvk);
            Some(ResourceEvent { op, gvk, summary })
        },
        _ => None,
    }
}

// ---------------------------------------------------------------------------
// Applying an event
// ---------------------------------------------------------------------------

/// `it` is the object named `name` in namespace `ns`.
pub open spec fn same_ref(it: ResourceSummary, name: Seq<char>, ns: Option<Seq<char>>) -> bool {
    it.reference.name@ == name && it.reference.namespace.deep_view() == ns
}

/// Index of the first item with that name and namespace.
pub open spec fn first_with_ref(items: Seq<ResourceSummary>, name: Seq<char>, ns: Option<Seq<char>>) -> Option<int> {
    if exists|i: int| 0 <= i < items.len() && same_ref(items[i], name, ns) {
        Some(
            choose|i: int|
                0 <= i < items.len() && same_ref(items[i], name, ns) && forall|j: int|
                    0 <= j < i ==> !same_ref(#[trigger] items[j], name, ns),
        )
    } else {
        None
    }
}

/// The name of a summary.
pub open spec fn ref_name(rs: ResourceSummary) -> Seq<char> {
    rs.reference.name@
}

/// The namespace of a summary.
pub open spec fn ref_ns(rs: ResourceSummary) -> Option<Seq<char>> {
    rs.reference.namespace.deep_view()
}

/// `rs` put in place of the first item for the same object, or appended.
pub open spec fn upsert_spec(items: Seq<ResourceSummary>, rs: ResourceSummary) -> Seq<ResourceSummary> {
    match first_with_ref(items, ref_name(rs), ref_ns(rs)) {
        Some(i) => items.update(i, rs),
        None => items.push(rs),
    }
}

/// `items` without any item for the object named `name` in `ns`.
pub open spec fn remove_spec(items: Seq<ResourceSummary>, name: Seq<char>, ns: Option<Seq<char>>) -> Seq<ResourceSummary>
    decreases items.len(),
{
    if items.len() == 0 {
        items
    } else if same_ref(items[0], name, ns) {
        remove_spec(items.skip(1), name, ns)
    } else {
        seq![items[0]] + remove_spec(items.skip(1), name, ns)
    }
}

/// Whether the operation word adds or replaces an object.
pub open spec fn is_upsert_op(op: Seq<char>) -> bool {
    op == "ADDED"@ || op == "MODIFIED"@
}

/// The items of a group after an event for it.
pub open spec fn event_items(items: Seq<ResourceSummary>, op: Seq<char>, rs: ResourceSummary) -> Seq<ResourceSummary> {
    if is_upsert_op(op) {
        upsert_spec(items, rs)
    } else if op == "DELETED"@ {
        remove_spec(items, ref_name(rs), ref_ns(rs))
    } else {
        items
    }
}

/// `g` has group, version and kind `gvk`.
pub open spec fn exact_type(g: ResourceGroup, gvk: GvkView) -> bool {
    g.gvk.group@ == gvk.group && g.gvk.kind@ == gvk.kind && g.gvk.version@ == gvk.version
}

/// `g` has the group and kind of `gvk`.
pub open spec fn loose_type(g: ResourceGroup, gvk: GvkView) -> bool {
    g.gvk.group@ == gvk.group && g.gvk.kind@ == gvk.kind
}

/// Index of the group an event is for: the first with its group, version and
/// kind, else the first with its group and kind.
pub open spec fn event_group(groups: Seq<ResourceGroup>, gvk: GvkView) -> Option<int> {
    if exists|i: int| 0 <= i < groups.len() && exact_type(groups[i], gvk) {
        Some(
            choose|i: int|
                0 <= i < groups.len() && exact_type(groups[i], gvk) && forall|j: int|
                    0 <= j < i ==> !exact_type(#[trigger] groups[j], gvk),
        )
    } else if exists|i: int| 0 <= i < groups.len() && loose_type(groups[i], gvk) {
        Some(
            choose|i: int|
                0 <= i < groups.len() && loose_type(groups[i], gvk) && forall|j: int|
                    0 <= j < i ==> !loose_type(#[trigger] groups[j], gvk),
        )
    } else {
        None
    }
}

/// `after` is `before` updated by the event: only the items of the group it
/// is for change; without such a group nothing changes.
pub open spec fn applies(after: Seq<ResourceGroup>, before: Seq<ResourceGroup>, ev: ResourceEvent) -> bool {
    match event_group(before, ev.gvk.deep_view()) {
        None => after == before,
        Some(i) => {
            &&& after.len() == before.len()
            &&& forall|j: int| 0 <= j < before.len() && j != i ==> after[j] == before[j]
            &&& after[i].gvk == before[i].gvk
            &&& after[i].namespaced == before[i].namespaced
            &&& after[i].errors == before[i].errors
            &&& after[i].items@ == event_items(before[i].items@, ev.op@, ev.summary)
        },
    }
}

fn same_ref_exec(it: &ResourceSummary, name: &String, ns: &Option<String>) -> (r: bool)
    ensures
        r == same_ref(*it, name@, ns.deep_view()),
{
    if it.reference.name != *name {
        return false;
    }
    match (&it.reference.namespace, ns) {
        (Some(a), Some(b)) => *a == *b,
        (None, None) => true,
        _ => false,
    }
}

/// Index of the first item for the object named `name` in `ns`.
pub fn find_ref(items: &Vec<ResourceSummary>, name: &String, ns: &Option<String>) -> (r: Option<usize>)
    ensures
        match r {
            Some(i) => first_with_ref(items@, name@, ns.deep_view()) == Some(i as int) && i
                < items.len(),
            None => first_with_ref(items@, name@, ns.deep_view()) is None,
        },
{
    let ghost nsv = ns.deep_view();
    let mut i: usize = 0;
    while i < items.len()
        invariant
            i <= items.len(),
            nsv == ns.deep_view(),
            forall|j: int| 0 <= j < i ==> !same_ref(#[trigger] items@[j], name@, nsv),
        decreases items.len() - i,
    {
        if same_ref_exec(&items[i], name, ns) {
            proof {
                let w = choose|k: int|
                    0 <= k < items@.len() && same_ref(items@[k], name@, nsv) && forall|j: int|
                        0 <= j < k ==> !same_ref(#[trigger] items@[j], name@, nsv);
                assert(0 <= i < items@.len() && same_ref(items@[i as int], name@, nsv));
                assert(same_ref(items@[w], name@, nsv));
                assert(w == i as int) by {
                    if w < i {
                        assert(!same_ref(items@[w], name@, nsv));
                    }
                    if w > i {
                        assert(!same_ref(items@[i as int], name@, nsv));
                    }
                }
            }
            return Some(i);
        }
        i = i + 1;
    }
    None
}

/// Puts `rs` in place of the first item for the same object, or appends it.
pub fn upsert_item(items: &mut Vec<ResourceSummary>, rs: ResourceSummary)
    ensures
        final(items)@ == upsert_spec(old(items)@, rs),
{
    let found = find_ref(items, &rs.reference.name, &rs.reference.namespace);
    match found {
        Some(i) => {
            items.set(i, rs);
        },
        None => {
            items.push(rs);
        },
    }
}

/// Removes every item for the object named `name` in `ns`.
pub fn remove_items(items: &mut Vec<ResourceSummary>, name: &String, ns: &Option<String>)
    ensures
        final(items)@ == remove_spec(old(items)@, name@, ns.deep_view()),
{
    let ghost nsv = ns.deep_view();
    let ghost orig = items@;
    let mut rest: Vec<ResourceSummary> = Vec::new();
    std::mem::swap(&mut rest, items);
    let mut kept: Vec<ResourceSummary> = Vec::new();
    while rest.len() > 0
        invariant
            nsv == ns.deep_view(),
            kept@ + remove_spec(rest@, name@, nsv) == remove_spec(orig, name@, nsv),
        decreases rest.len(),
    {
        let ghost before = rest@;
        let it = rest.remove(0);
        assert(rest@ =~= before.skip(1));
        if !same_ref_exec(&it, name, ns) {
            let ghost k0 = kept@;
            kept.push(it);
            assert(kept@ + remove_spec(rest@, name@, nsv) =~= k0 + remove_spec(before, name@, nsv));
        }
    }
    assert(kept@ + remove_spec(rest@, name@, nsv) =~= kept@);
    *items = kept;
}

fn exact_type_exec(g: &ResourceGroup, gvk: &ResourceRefGvk) -> (r: bool)
    ensures
        r == exact_type(*g, gvk.deep_view()),
{
    g.gvk.group == gvk.group && g.gvk.kind == gvk.kind && g.gvk.version == gvk.version
}

fn loose_type_exec(g: &ResourceGroup, gvk: &ResourceRefGvk) -> (r: bool)
    ensures
        r == loose_type(*g, gvk.deep_view()),
{
    g.gvk.group == gvk.group && g.gvk.kind == gvk.kind
}

/// Index of the group an event for type `gvk` is for.
pub fn find_event_group(groups: &Vec<ResourceGroup>, gvk: &ResourceRefGvk) -> (r: Option<usize>)
    ensures
        match r {
            Some(i) => event_group(groups@, gvk.deep_view()) == Some(i as int) && i < groups.len(),
            None => event_group(groups@, gvk.deep_view()) is None,
        },
{
    let ghost t = gvk.deep_view();
    let mut i: usize = 0;
    while i < groups.len()
        invariant
            i <= groups.len(),
            t == gvk.deep_view(),
            forall|j: int| 0 <= j < i ==> !exact_type(#[trigger] groups@[j], t),
        decreases groups.len() - i,
    {
        if exact_type_exec(&groups[i], gvk) {
            proof {
                let w = choose|k: int|
                    0 <= k < groups@.len() && exact_type(groups@[k], t) && forall|j: int|
                        0 <= j < k ==> !exact_type(#[trigger] groups@[j], t);
                assert(0 <= i < groups@.len() && exact_type(groups@[i as int], t));
                assert(exact_type(groups@[w], t));
                assert(w == i as int) by {
                    if w < i {
                        assert(!exact_type(groups@[w], t));
                    }
                    if w > i {
                        assert(!exact_type(groups@[i as int], t));
                    }
                }
            }
            return Some(i);
        }
        i = i + 1;
    }
    assert(!exists|k: int| 0 <= k < groups@.len() && exact_type(groups@[k], t));
    let mut i: usize = 0;
    while i < groups.len()
        invariant
            i <= groups.len(),
            t == gvk.deep_view(),
            !exists|k: int| 0 <= k < groups@.len() && exact_type(groups@[k], t),
            forall|j: int| 0 <= j < i ==> !loose_type(#[trigger] groups@[j], t),
        decreases groups.len() - i,
    {
        if loose_type_exec(&groups[i], gvk) {
            proof {
                let w = choose|k: int|
                    0 <= k < groups@.len() && loose_type(groups@[k], t) && forall|j: int|
                        0 <= j < k ==> !loose_type(#[trigger] groups@[j], t);
                assert(0 <= i < groups@.len() && loose_type(groups@[i as int], t));
                assert(loose_type(groups@[w], t));
                assert(w == i as int) by {
                    if w < i {
                        assert(!loose_type(groups@[w], t));
                    }
                    if w > i {
                        assert(!loose_type(groups@[i as int], t));
                    }
                }
            }
            return Some(i);
        }
        i = i + 1;
    }
    None
}

/// Updates the overview's groups by a resource event: for "ADDED" and
/// "MODIFIED" the object's summary replaces the first one for the same
/// name and namespace, or is appended; for "DELETED" every summary for that
/// object is removed. Only the group the event is for changes.
pub fn apply_resource_event(groups: &mut Vec<ResourceGroup>, ev: ResourceEvent)
    ensures
        applies(final(groups)@, old(groups)@, ev),
{
    let found = find_event_group(groups, &ev.gvk);
    match found {
        None => {},
        Some(i) => {
            let ghost before = groups@;
            let ghost rs = ev.summary;
            let op = ev.op;
            let mut grp = groups.remove(i);
            assert(grp == before[i as int]);
            if str_eq(op.as_str(), "ADDED") || str_eq(op.as_str(), "MODIFIED") {
                upsert_item(&mut grp.items, ev.summary);
            } else if str_eq(op.as_str(), "DELETED") {
                let name = ev.summary.reference.name;
                let ns = ev.summary.reference.namespace;
                remove_items(&mut grp.items, &name, &ns);
            }
            groups.insert(i, grp);
            assert forall|j: int| 0 <= j < before.len() && j != i implies groups@[j] == before[j] by {
                if j < i {
                } else {
                }
            }
        },
    }
}

// ---------------------------------------------------------------------------
// Laws
// ---------------------------------------------------------------------------

/// No two items are for the same object.
pub open spec fn unique_refs(items: Seq<ResourceSummary>) -> bool {
    forall|i: int, j: int|
        0 <= i < j < items.len() ==> !same_ref(#[trigger] items[j], ref_name(#[trigger] items[i]), ref_ns(items[i]))
}

proof fn lemma_first_is(s: Seq<ResourceSummary>, name: Seq<char>, ns: Option<Seq<char>>, i: int)
    requires
        0 <= i < s.len(),
        same_ref(s[i], name, ns),
        forall|j: int| 0 <= j < i ==> !same_ref(#[trigger] s[j], name, ns),
    ensures
        first_with_ref(s, name, ns) == Some(i),
{
    let w = choose|k: int|
        0 <= k < s.len() && same_ref(s[k], name, ns) && forall|j: int|
            0 <= j < k ==> !same_ref(#[trigger] s[j], name, ns);
    assert(same_ref(s[w], name, ns));
    if w < i {
        assert(!same_ref(s[w], name, ns));
    }
    if w > i {
        assert(!same_ref(s[i], name, ns));
    }
}

proof fn lemma_first_facts(s: Seq<ResourceSummary>, name: Seq<char>, ns: Option<Seq<char>>)
    ensures
        match first_with_ref(s, name, ns) {
            Some(i) => 0 <= i < s.len() && same_ref(s[i], name, ns) && forall|j: int|
                0 <= j < i ==> !same_ref(#[trigger] s[j], name, ns),
            None => forall|j: int| 0 <= j < s.len() ==> !same_ref(#[trigger] s[j], name, ns),
        },
{
    if exists|i: int| 0 <= i < s.len() && same_ref(s[i], name, ns) {
        let i0 = choose|i: int| 0 <= i < s.len() && same_ref(s[i], name, ns);
        lemma_least_ref(s, name, ns, i0);
    }
}

proof fn lemma_least_ref(s: Seq<ResourceSummary>, name: Seq<char>, ns: Option<Seq<char>>, i0: int)
    requires
        0 <= i0 < s.len(),
        same_ref(s[i0], name, ns),
    ensures
        exists|i: int|
            0 <= i < s.len() && same_ref(s[i], name, ns) && forall|j: int|
                0 <= j < i ==> !same_ref(#[trigger] s[j], name, ns),
    decreases i0,
{
    if exists|j: int| 0 <= j < i0 && same_ref(s[j], name, ns) {
        let j0 = choose|j: int| 0 <= j < i0 && same_ref(s[j], name, ns);
        lemma_least_ref(s, name, ns, j0);
    } else {
        assert(forall|j: int| 0 <= j < i0 ==> !same_ref(#[trigger] s[j], name, ns));
    }
}

/// After an upsert the summary stands in the list, as the first item for its
/// object.
pub proof fn upsert_places_summary(items: Seq<ResourceSummary>, rs: ResourceSummary)
    ensures
        first_with_ref(upsert_spec(items, rs), ref_name(rs), ref_ns(rs)) matches Some(i)
            && upsert_spec(items, rs)[i] == rs,
{
    let n = ref_name(rs);
    let ns = ref_ns(rs);
    lemma_first_facts(items, n, ns);
    let r = upsert_spec(items, rs);
    match first_with_ref(items, n, ns) {
        Some(i) => {
            assert forall|j: int| 0 <= j < i implies !same_ref(#[trigger] r[j], n, ns) by {
                assert(r[j] == items[j]);
            }
            lemma_first_is(r, n, ns, i);
        },
        None => {
            let i = items.len() as int;
            assert forall|j: int| 0 <= j < i implies !same_ref(#[trigger] r[j], n, ns) by {
                assert(r[j] == items[j]);
            }
            lemma_first_is(r, n, ns, i);
        },
    }
}

/// Upserting the same summary twice is upserting it once: a repeated
/// "ADDED" or "MODIFIED" event leaves the list as the first one left it.
pub proof fn upsert_idempotent(items: Seq<ResourceSummary>, rs: ResourceSummary)
    ensures
        upsert_spec(upsert_spec(items, rs), rs) == upsert_spec(items, rs),
{
    upsert_places_summary(items, rs);
    let r = upsert_spec(items, rs);
    let i = first_with_ref(r, ref_name(rs), ref_ns(rs))->0;
    lemma_first_facts(r, ref_name(rs), ref_ns(rs));
    assert(r[i] == rs);
    assert(upsert_spec(r, rs) =~= r.update(i, rs));
    assert(r.update(i, rs) =~= r);
}

/// An upsert changes no item for another object: each keeps its place, and
/// the list grows by one exactly when the object was not in it.
pub proof fn upsert_keeps_others(items: Seq<ResourceSummary>, rs: ResourceSummary)
    ensures
        upsert_spec(items, rs).len() == items.len() + (if first_with_ref(items, ref_name(rs), ref_ns(rs)) is Some {
            0int
        } else {
            1int
        }),
        forall|j: int|
            0 <= j < items.len() && !same_ref(items[j], ref_name(rs), ref_ns(rs))
                ==> #[trigger] upsert_spec(items, rs)[j] == items[j],
{
    lemma_first_facts(items, ref_name(rs), ref_ns(rs));
}

/// An upsert keeps every object listed at most once.
pub proof fn upsert_keeps_unique(items: Seq<ResourceSummary>, rs: ResourceSummary)
    requires
        unique_refs(items),
    ensures
        unique_refs(upsert_spec(items, rs)),
{
    let n = ref_name(rs);
    let ns = ref_ns(rs);
    lemma_first_facts(items, n, ns);
    let r = upsert_spec(items, rs);
    match first_with_ref(items, n, ns) {
        Some(k) => {
            assert forall|i: int, j: int| 0 <= i < j < r.len() implies !same_ref(
                #[trigger] r[j],
                ref_name(#[trigger] r[i]),
                ref_ns(r[i]),
            ) by {
                if i == k {
                    assert(same_ref(items[k], n, ns));
                    assert(!same_ref(items[j], ref_name(items[k]), ref_ns(items[k])));
                } else if j == k {
                    assert(!same_ref(items[k], ref_name(items[i]), ref_ns(items[i])));
                } else {
                    assert(!same_ref(items[j], ref_name(items[i]), ref_ns(items[i])));
                }
            }
        },
        None => {
            assert forall|i: int, j: int| 0 <= i < j < r.len() implies !same_ref(
                #[trigger] r[j],
                ref_name(#[trigger] r[i]),
                ref_ns(r[i]),
            ) by {
                if j == items.len() {
                    assert(!same_ref(items[i], n, ns));
                } else {
                    assert(!same_ref(items[j], ref_name(items[i]), ref_ns(items[i])));
                }
            }
        },
    }
}

/// After a removal no item is for the removed object.
pub proof fn remove_leaves_none(items: Seq<ResourceSummary>, name: Seq<char>, ns: Option<Seq<char>>)
    ensures
        forall|i: int|
            0 <= i < remove_spec(items, name, ns).len() ==> !same_ref(
                #[trigger] remove_spec(items, name, ns)[i],
                name,
                ns,
            ),
    decreases items.len(),
{
    if items.len() > 0 {
        remove_leaves_none(items.skip(1), name, ns);
        let rest = remove_spec(items.skip(1), name, ns);
        if !same_ref(items[0], name, ns) {
            assert forall|i: int| 0 <= i < remove_spec(items, name, ns).len() implies !same_ref(
                #[trigger] remove_spec(items, name, ns)[i],
                name,
                ns,
            ) by {
                if i > 0 {
                    assert(remove_spec(items, name, ns)[i] == rest[i - 1]);
                }
            }
        }
    }
}

/// A removal keeps exactly the items for other objects.
pub proof fn remove_keeps_others(items: Seq<ResourceSummary>, name: Seq<char>, ns: Option<Seq<char>>, x: ResourceSummary)
    ensures
        remove_spec(items, name, ns).contains(x) <==> (items.contains(x) && !same_ref(x, name, ns)),
    decreases items.len(),
{
    if items.len() > 0 {
        remove_keeps_others(items.skip(1), name, ns, x);
        let rest = remove_spec(items.skip(1), name, ns);
        assert(items =~= seq![items[0]] + items.skip(1));
        if items.contains(x) && x != items[0] {
            let k = choose|k: int| 0 <= k < items.len() && items[k] == x;
            assert(items.skip(1)[k - 1] == x);
        }
        if items.skip(1).contains(x) {
            let k = choose|k: int| 0 <= k < items.skip(1).len() && items.skip(1)[k] == x;
            assert(items[k + 1] == x);
        }
        if !same_ref(items[0], name, ns) {
            let r = seq![items[0]] + rest;
            if r.contains(x) && x != items[0] {
                let k = choose|k: int| 0 <= k < r.len() && r[k] == x;
                assert(rest[k - 1] == x);
            }
            if rest.contains(x) {
                let k = choose|k: int| 0 <= k < rest.len() && rest[k] == x;
                assert(r[k + 1] == x);
            }
            assert(r[0] == items[0]);
        }
    }
}

proof fn lemma_remove_push(s: Seq<ResourceSummary>, x: ResourceSummary, name: Seq<char>, ns: Option<Seq<char>>)
    requires
        same_ref(x, name, ns),
    ensures
        remove_spec(s.push(x), name, ns) == remove_spec(s, name, ns),
    decreases s.len(),
{
    if s.len() == 0 {
        assert(s.push(x).skip(1) =~= Seq::<ResourceSummary>::empty());
        assert(remove_spec(Seq::<ResourceSummary>::empty(), name, ns) =~= Seq::<ResourceSummary>::empty());
    } else {
        assert(s.push(x).skip(1) =~= s.skip(1).push(x));
        lemma_remove_push(s.skip(1), x, name, ns);
    }
}

proof fn lemma_remove_update(s: Seq<ResourceSummary>, i: int, x: ResourceSummary, name: Seq<char>, ns: Option<Seq<char>>)
    requires
        0 <= i < s.len(),
        same_ref(x, name, ns),
        same_ref(s[i], name, ns),
    ensures
        remove_spec(s.update(i, x), name, ns) == remove_spec(s, name, ns),
    decreases s.len(),
{
    if i == 0 {
        assert(s.update(0, x).skip(1) =~= s.skip(1));
    } else {
        assert(s.update(i, x).skip(1) =~= s.skip(1).update(i - 1, x));
        lemma_remove_update(s.skip(1), i - 1, x, name, ns);
    }
}

/// Deleting an object after adding it leaves what deleting it alone leaves:
/// a "DELETED" event undoes an "ADDED" or "MODIFIED" one for the same object.
pub proof fn delete_undoes_upsert(items: Seq<ResourceSummary>, rs: ResourceSummary)
    ensures
        remove_spec(upsert_spec(items, rs), ref_name(rs), ref_ns(rs)) == remove_spec(
            items,
            ref_name(rs),
            ref_ns(rs),
        ),
{
    let n = ref_name(rs);
    let ns = ref_ns(rs);
    lemma_first_facts(items, n, ns);
    match first_with_ref(items, n, ns) {
        Some(i) => lemma_remove_update(items, i, rs, n, ns),
        None => lemma_remove_push(items, rs, n, ns),
    }
}

/// What an event carries is what reading its payload gives back: the
/// operation, the type and the summary of the object sent.
pub proof fn payload_reads_back(p: JsonValue, op: Seq<char>, gvk: GvkView, item: JsonValue, r: Option<ResourceEvent>)
    requires
        is_event_payload(p, op, gvk, item),
        reads_event(r, p),
    ensures
        r matches Some(ev) && ev.op@ == op && ev.gvk.deep_view() == gvk && summarizes_item(
            ev.summary,
            item,
            gvk,
        ),
{
    reveal_strlit("op");
    reveal_strlit("gvk");
    reveal_strlit("item");
    reveal_strlit("payload");
    reveal_strlit("group");
    reveal_strlit("version");
    reveal_strlit("kind");
    let m = p->Object_0@;
    assert("op"@.len() == 2);
    assert("gvk"@.len() == 3);
    assert("item"@.len() == 4);
    assert("payload"@.len() == 7);
    assert("group"@.len() == 5);
    assert("version"@.len() == 7);
    assert("kind"@.len() == 4);
    assert("item"@[0] != "gvk"@[0]);
    assert("version"@[0] != "group"@[0]);
    assert(m[0].0@ != "payload"@);
    assert(m[1].0@ != "payload"@);
    assert(m[2].0@ != "payload"@);
    let m1 = m.skip(1);
    let m2 = m1.skip(1);
    let m3 = m2.skip(1);
    assert(m1[0] == m[1]);
    assert(m2[0] == m[2]);
    assert(m3.len() == 0);
    assert(lookup(m3, "payload"@) is None);
    assert(lookup(m2, "payload"@) is None);
    assert(lookup(m1, "payload"@) is None);
    assert(field(p, "payload"@) is None);
    assert(event_body(p) == p);
    assert(m[0].0@ != "gvk"@);
    assert(lookup(m1, "gvk"@) == Some(m[1].1));
    assert(field(p, "gvk"@) == Some(m[1].1));
    assert(m[0].0@ != "item"@);
    assert(m[1].0@ != "item"@);
    assert(lookup(m2, "item"@) == Some(item));
    assert(lookup(m1, "item"@) == Some(item));
    assert(field(p, "item"@) == Some(item));
    assert(field(p, "op"@) == Some(m[0].1));
    let g = m[1].1->Object_0@;
    assert(field(m[1].1, "group"@) == Some(g[0].1));
    assert(g[0].0@ != "version"@);
    let g1 = g.skip(1);
    let g2 = g1.skip(1);
    assert(g1[0] == g[1]);
    assert(g2[0] == g[2]);
    assert(lookup(g1, "version"@) == Some(g[1].1));
    assert(field(m[1].1, "version"@) == Some(g[1].1));
    assert(lookup(g2, "kind"@) == Some(g[2].1));
    assert(lookup(g1, "kind"@) == Some(g[2].1));
    assert(g[0].0@ != "kind"@);
    assert(g[1].0@ != "kind"@);
    assert(field(m[1].1, "kind"@) == Some(g[2].1));
    assert(event_gvk(p) == gvk);
}


/// An "ADDED" or "MODIFIED" event for a listed type puts the event's summary
/// in place of the first item of the event's group that has the summary's
/// name and namespace, or appends it when no item has them; the other groups
/// are left as they were.
pub proof fn added_or_modified_upserts(after: Seq<ResourceGroup>, before: Seq<ResourceGroup>, ev: ResourceEvent, g: int)
    requires
        ev.op@ == "ADDED"@ || ev.op@ == "MODIFIED"@,
        event_group(before, ev.gvk.deep_view()) == Some(g),
        applies(after, before, ev),
    ensures
        after.len() == before.len(),
        forall|j: int| 0 <= j < before.len() && j != g ==> after[j] == before[j],
        forall|k: int|
            0 <= k < before[g].items@.len() && (#[trigger] before[g].items@[k]).reference.name@
                == ev.summary.reference.name@ && before[g].items@[k].reference.namespace.deep_view()
                == ev.summary.reference.namespace.deep_view() && (forall|j: int|
                0 <= j < k ==> !((#[trigger] before[g].items@[j]).reference.name@
                    == ev.summary.reference.name@ && before[g].items@[j].reference.namespace.deep_view()
                    == ev.summary.reference.namespace.deep_view())) ==> after[g].items@
                == before[g].items@.update(k, ev.summary),
        (forall|j: int|
            0 <= j < before[g].items@.len() ==> !((#[trigger] before[g].items@[j]).reference.name@
                == ev.summary.reference.name@ && before[g].items@[j].reference.namespace.deep_view()
                == ev.summary.reference.namespace.deep_view())) ==> after[g].items@
            == before[g].items@.push(ev.summary),
{
    let items = before[g].items@;
    let rs = ev.summary;
    assert(is_upsert_op(ev.op@));
    lemma_first_facts(items, ref_name(rs), ref_ns(rs));
    assert forall|k: int|
        0 <= k < items.len() && (#[trigger] items[k]).reference.name@ == rs.reference.name@
            && items[k].reference.namespace.deep_view() == rs.reference.namespace.deep_view() && (forall|j: int|
            0 <= j < k ==> !((#[trigger] items[j]).reference.name@ == rs.reference.name@
                && items[j].reference.namespace.deep_view() == rs.reference.namespace.deep_view()))
        implies after[g].items@ == items.update(k, rs) by {
        assert forall|j: int| 0 <= j < k implies !same_ref(#[trigger] items[j], ref_name(rs), ref_ns(rs)) by {
            assert(!(items[j].reference.name@ == rs.reference.name@ && items[j].reference.namespace.deep_view()
                == rs.reference.namespace.deep_view()));
        }
        lemma_first_is(items, ref_name(rs), ref_ns(rs), k);
    }
    if forall|j: int|
        0 <= j < items.len() ==> !((#[trigger] items[j]).reference.name@ == rs.reference.name@
            && items[j].reference.namespace.deep_view() == rs.reference.namespace.deep_view()) {
        if first_with_ref(items, ref_name(rs), ref_ns(rs)) is Some {
            let i = first_with_ref(items, ref_name(rs), ref_ns(rs))->0;
            assert(same_ref(items[i], ref_name(rs), ref_ns(rs)));
            assert(!(items[i].reference.name@ == rs.reference.name@ && items[i].reference.namespace.deep_view()
                == rs.reference.namespace.deep_view()));
        }
    }
}


/// A "DELETED" event for a listed type removes from the event's group every
/// item that has the summary's name and namespace and keeps every other item;
/// the other groups are left as they were.
pub proof fn deleted_removes(after: Seq<ResourceGroup>, before: Seq<ResourceGroup>, ev: ResourceEvent, g: int)
    requires
        ev.op@ == "DELETED"@,
        event_group(before, ev.gvk.deep_view()) == Some(g),
        applies(after, before, ev),
    ensures
        after.len() == before.len(),
        forall|j: int| 0 <= j < before.len() && j != g ==> after[j] == before[j],
        forall|k: int|
            0 <= k < after[g].items@.len() ==> !((#[trigger] after[g].items@[k]).reference.name@
                == ev.summary.reference.name@ && after[g].items@[k].reference.namespace.deep_view()
                == ev.summary.reference.namespace.deep_view()),
        forall|x: ResourceSummary|
            #[trigger] before[g].items@.contains(x) && !(x.reference.name@ == ev.summary.reference.name@
                && x.reference.namespace.deep_view() == ev.summary.reference.namespace.deep_view())
                ==> after[g].items@.contains(x),
{
    reveal_strlit("ADDED");
    reveal_strlit("MODIFIED");
    reveal_strlit("DELETED");
    assert("ADDED"@.len() == 5);
    assert("MODIFIED"@.len() == 8);
    assert("DELETED"@.len() == 7);
    assert(!is_upsert_op(ev.op@));
    let items = before[g].items@;
    let rs = ev.summary;
    remove_leaves_none(items, ref_name(rs), ref_ns(rs));
    assert forall|x: ResourceSummary|
        #[trigger] items.contains(x) && !(x.reference.name@ == rs.reference.name@
            && x.reference.namespace.deep_view() == rs.reference.namespace.deep_view())
        implies after[g].items@.contains(x) by {
        remove_keeps_others(items, ref_name(rs), ref_ns(rs), x);
    }
}

} // verus!
