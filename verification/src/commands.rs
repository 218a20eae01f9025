//! The pure parts of the desktop commands: the greeting, the settings shared
//! by the commands (selected context and running watchers), the kube context
//! list, and the parameters of log and describe requests.
use vstd::prelude::*;
use crate::json::{JsonValue, as_str, str_at, array_at, str_in, array_in};
use crate::summary::{string_items, string_items_of};
use crate::text::owned;

verus! {

/// "Hello, NAME! You've been greeted from Rust!"
pub fn greet(name: &str) -> (r: String)
    ensures
        r@ == "Hello, "@ + name@ + "! You've been greeted from Rust!"@,
{
    let mut g = owned("Hello, ");
    g.append(name);
    g.append("! You've been greeted from Rust!");
    g
}

// ---------------------------------------------------------------------------
// Settings
// ---------------------------------------------------------------------------

/// What the commands share: the selected kube context (none means the
/// default one) and the cancel handles of the running watchers.
pub struct K8sSettings<T> {
    pub selected_context: Option<String>,
    pub watcher_cancels: Vec<T>,
}

impl<T> K8sSettings<T> {
    /// No context selected, no watcher running.
    pub fn new() -> (r: Self)
        ensures
            r.selected_context is None,
            r.watcher_cancels@.len() == 0,
    {
        K8sSettings { selected_context: None, watcher_cancels: Vec::new() }
    }

    /// Records a started watcher's cancel handle.
    pub fn add_watcher(&mut self, handle: T)
        ensures
            final(self).watcher_cancels@ == old(self).watcher_cancels@.push(handle),
            final(self).selected_context == old(self).selected_context,
    {
        self.watcher_cancels.push(handle);
    }

    /// Hands back every watcher's cancel handle, in the order they were
    /// added, and forgets them: the caller cancels each.
    pub fn take_watchers(&mut self) -> (r: Vec<T>)
        ensures
            r@ == old(self).watcher_cancels@,
            final(self).watcher_cancels@.len() == 0,
            final(self).selected_context == old(self).selected_context,
    {
        let mut out: Vec<T> = Vec::new();
        std::mem::swap(&mut out, &mut self.watcher_cancels);
        out
    }

    /// Selects a context and hands back every watcher's cancel handle: a
    /// change of context stops all watchers.
    pub fn set_context(&mut self, name: Option<String>) -> (r: Vec<T>)
        ensures
            final(self).selected_context == name,
            r@ == old(self).watcher_cancels@,
            final(self).watcher_cancels@.len() == 0,
    {
        self.selected_context = name;
        self.take_watchers()
    }
}

// ---------------------------------------------------------------------------
// Kube contexts
// ---------------------------------------------------------------------------

/// `v` is `{"contexts": [names...], "current": current}`.
pub open spec fn is_contexts_json(v: JsonValue, names: Seq<Seq<char>>, current: Seq<char>) -> bool {
    match v {
        JsonValue::Object(m) => {
            &&& m@.len() == 2
            &&& m@[0].0@ == "contexts"@
            &&& m@[0].1 matches JsonValue::Array(items) && {
                &&& items@.len() == names.len()
                &&& forall|i: int| 0 <= i < names.len() ==> as_str(#[trigger] items@[i]) == Some(names[i])
            }
            &&& m@[1].0@ == "current"@
            &&& as_str(m@[1].1) == Some(current)
        },
        _ => false,
    }
}

/// The answer to a request for the kube contexts: their names, and the
/// current one ("" when there is none).
pub fn contexts_json(names: &Vec<String>, current: &Option<String>) -> (r: JsonValue)
    ensures
        is_contexts_json(
            r,
            names.deep_view(),
            match current.deep_view() {
                Some(c) => c,
                None => Seq::empty(),
            },
        ),
{
    let mut items: Vec<JsonValue> = Vec::new();
    let mut i: usize = 0;
    while i < names.len()
        invariant
            i <= names.len(),
            items@.len() == i,
            forall|k: int| 0 <= k < i ==> as_str(#[trigger] items@[k]) == Some(names.deep_view()[k]),
        decreases names.len() - i,
    {
        items.push(JsonValue::Str(names[i].clone()));
        i = i + 1;
    }
    let cur = match current {
        Some(c) => c.clone(),
        None => String::new(),
    };
    let mut m: Vec<(String, JsonValue)> = Vec::new();
    m.push((owned("contexts"), JsonValue::Array(items)));
    m.push((owned("current"), JsonValue::Str(cur)));
    JsonValue::Object(m)
}

/// What the context list reads from an answer: the names among its
/// "contexts" items and its "current" text.
pub struct ContextList {
    pub names: Vec<String>,
    pub current: Option<String>,
}

/// Reads the answer to a request for the kube contexts.
pub fn parse_contexts(v: &JsonValue) -> (r: ContextList)
    ensures
        r.names.deep_view() == (match array_at(Some(*v), "contexts"@) {
            Some(a) => string_items(a),
            None => Seq::empty(),
        }),
        r.current.deep_view() == str_at(Some(*v), "current"@),
{
    let names = match array_in(Some(v), "contexts") {
        Some(a) => string_items_of(a),
        None => {
            let e: Vec<String> = Vec::new();
            assert(e.deep_view() =~= Seq::<Seq<char>>::empty());
            e
        },
    };
    ContextList { names, current: str_in(Some(v), "current") }
}

// ---------------------------------------------------------------------------
// Logs and descriptions
// ---------------------------------------------------------------------------

/// A request for the logs of a pod.
pub struct PodLogArgs {
    pub namespace: String,
    pub name: String,
    pub container: Option<String>,
    pub tail_lines: Option<i64>,
    pub previous: Option<bool>,
    pub timeout_secs: Option<u64>,
}

/// The logs request the list makes for a pod: the last 200 lines of the
/// current run, within 5 seconds.
pub fn pod_log_request(namespace: String, name: String, container: Option<String>) -> (r: PodLogArgs)
    ensures
        r.namespace == namespace,
        r.name == name,
        r.container == container,
        r.tail_lines == Some(200i64),
        r.previous == Some(false),
        r.timeout_secs == Some(5u64),
{
    PodLogArgs {
        namespace,
        name,
        container,
        tail_lines: Some(200),
        previous: Some(false),
        timeout_secs: Some(5),
    }
}

/// Whether to read the previous run's logs: no unless asked.
pub fn logs_previous(args: &PodLogArgs) -> (r: bool)
    ensures
        r == (match args.previous {
            Some(p) => p,
            None => false,
        }),
{
    match args.previous {
        Some(p) => p,
        None => false,
    }
}

/// Seconds allowed for reading logs: 5 unless given.
pub fn logs_timeout_secs(args: &PodLogArgs) -> (r: u64)
    ensures
        r == (match args.timeout_secs {
            Some(t) => t,
            None => 5,
        }),
{
    match args.timeout_secs {
        Some(t) => t,
        None => 5,
    }
}

/// Seconds allowed for describing an object: 3 unless given.
pub fn describe_timeout_secs(timeout_secs: Option<u64>) -> (r: u64)
    ensures
        r == (match timeout_secs {
            Some(t) => t,
            None => 3,
        }),
{
    match timeout_secs {
        Some(t) => t,
        None => 3,
    }
}

/// `v` is `{"error": "describe failed", "message": message}`.
pub open spec fn is_describe_failure(v: JsonValue, message: Seq<char>) -> bool {
    match v {
        JsonValue::Object(m) => {
            &&& m@.len() == 2
            &&& m@[0].0@ == "error"@
            &&& as_str(m@[0].1) == Some("describe failed"@)
            &&& m@[1].0@ == "message"@
            &&& as_str(m@[1].1) == Some(message)
        },
        _ => false,
    }
}

/// What the describe panel shows when the answer cannot be read.
pub fn describe_failure(message: String) -> (r: JsonValue)
    ensures
        is_describe_failure(r, message@),
{
    let mut m: Vec<(String, JsonValue)> = Vec::new();
    m.push((owned("error"), JsonValue::Str(owned("describe failed"))));
    m.push((owned("message"), JsonValue::Str(message)));
    JsonValue::Object(m)
}

/// `v` is `{"error": "Serialization failed"}`.
pub open spec fn is_serialization_failure(v: JsonValue) -> bool {
    match v {
        JsonValue::Object(m) => m@.len() == 1 && m@[0].0@ == "error"@ && as_str(m@[0].1) == Some(
            "Serialization failed"@,
        ),
        _ => false,
    }
}

/// What a description holds when the object cannot be turned into JSON.
pub fn serialization_failure() -> (r: JsonValue)
    ensures
        is_serialization_failure(r),
{
    let mut m: Vec<(String, JsonValue)> = Vec::new();
    m.push((owned("error"), JsonValue::Str(owned("Serialization failed"))));
    JsonValue::Object(m)
}

// ---------------------------------------------------------------------------
// Messages and small rules of the commands and the page
// ---------------------------------------------------------------------------

/// The message when the clipboard cannot be opened, from the error's text.
pub fn clipboard_error_message(error_text: &str) -> (r: String)
    ensures
        r@ == "Clipboard error: "@ + crate::errors::cleaned_error(error_text@),
{
    let mut m = owned("Clipboard error: ");
    let e = crate::errors::format_error(error_text);
    m.append(e.as_str());
    m
}

/// The message when the text cannot be put on the clipboard.
pub fn copy_failed_message(error_text: &str) -> (r: String)
    ensures
        r@ == "Failed to copy to clipboard: "@ + crate::errors::cleaned_error(error_text@),
{
    let mut m = owned("Failed to copy to clipboard: ");
    let e = crate::errors::format_error(error_text);
    m.append(e.as_str());
    m
}

/// The message when the shared settings cannot be locked.
pub fn lock_failed_message() -> (r: String)
    ensures
        r@ == "Settings lock failed"@,
{
    owned("Settings lock failed")
}

/// Whether a key press is the search shortcut: F (key code 70) with Ctrl or
/// Cmd held.
pub fn is_find_shortcut(ctrl: bool, meta: bool, key_code: u32) -> (r: bool)
    ensures
        r == ((ctrl || meta) && key_code == 70),
{
    (ctrl || meta) && key_code == 70
}

/// The page's overview requests: whether one is under way, and the number of
/// the last one started.
pub struct OverviewLoads {
    pub fetching: bool,
    pub last_id: i32,
}

impl OverviewLoads {
    /// No request made yet.
    pub fn new() -> (r: Self)
        ensures
            !r.fetching,
            r.last_id == 0,
    {
        OverviewLoads { fetching: false, last_id: 0 }
    }

    /// Starts a request unless one is under way; gives its number.
    pub fn begin(&mut self) -> (r: Option<i32>)
        requires
            !old(self).fetching ==> old(self).last_id < i32::MAX,
        ensures
            old(self).fetching ==> r is None && *final(self) == *old(self),
            !old(self).fetching ==> r == Some((old(self).last_id + 1) as i32) && final(self).fetching
                && final(self).last_id == old(self).last_id + 1,
    {
        if self.fetching {
            return None;
        }
        self.fetching = true;
        self.last_id = self.last_id + 1;
        Some(self.last_id)
    }

    /// Ends request `id`; tells whether its answer is still wanted (it is the
    /// last one started).
    pub fn finish(&mut self, id: i32) -> (r: bool)
        ensures
            r == (id == old(self).last_id),
            !final(self).fetching,
            final(self).last_id == old(self).last_id,
    {
        self.fetching = false;
        id == self.last_id
    }
}

/// The kube contexts answer reads back as the names sent and the current
/// context, "" standing for none.
pub proof fn contexts_read_back(v: JsonValue, names: Seq<Seq<char>>, current: Seq<char>)
    requires
        is_contexts_json(v, names, current),
    ensures
        array_at(Some(v), "contexts"@) matches Some(a) && string_items(a) == names,
        str_at(Some(v), "current"@) == Some(current),
{
    reveal_strlit("contexts");
    reveal_strlit("current");
    let m = v->Object_0@;
    assert("contexts"@.len() == 8);
    assert("current"@.len() == 7);
    let m1 = m.skip(1);
    assert(m1[0] == m[1]);
    assert(crate::json::lookup(m1, "current"@) == Some(m[1].1));
    assert(m[0].0@ != "current"@);
    let a = m[0].1->Array_0@;
    lemma_all_strings(a, names);
}

proof fn lemma_all_strings(a: Seq<JsonValue>, names: Seq<Seq<char>>)
    requires
        a.len() == names.len(),
        forall|i: int| 0 <= i < names.len() ==> as_str(#[trigger] a[i]) == Some(names[i]),
    ensures
        string_items(a) == names,
    decreases a.len(),
{
    if a.len() > 0 {
        lemma_all_strings(a.drop_last(), names.drop_last());
        assert(as_str(a[a.len() - 1]) == Some(names[names.len() - 1]));
        assert(names =~= names.drop_last().push(names.last()));
    }
}

} // verus!
