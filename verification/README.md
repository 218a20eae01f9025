# kubelens

A desktop browser for Kubernetes clusters. The crate is a Verus library: the
logic that shapes what the cluster returns and decides what the page shows is
written with `requires`/`ensures` contracts and proved.

## Layout

- `src/` — the verified library.
  - `json.rs` — a JSON model and the lookups the summaries use.
  - `summary.rs` — the summary of a listed or watched object: reference,
    labels, container statuses, service ports, volume and claim fields,
    endpoint slice ports and endpoints.
  - `overview.rs` — which resource types to list (custom definitions, then
    the built-in types) and how each listing becomes a resource group.
  - `plural.rs` — plural resource names, from kube's pluralizer and the
    built-in table.
  - `events.rs` — parsing watch events and applying them to the groups.
  - `watch.rs` — the watcher as a state machine: from its state and what the
    stream reported to its next state and action.
  - `selection.rs` — menu keys, the side menu, the default selection, the
    item panel and the namespace menu.
  - `display.rs` — cell texts, container badges, table columns and labels.
  - `highlight.rs` — HTML escaping and search-match highlighting.
  - `commands.rs`, `errors.rs`, `text.rs` — command helpers, error messages
    and text helpers.
- `tests/` — tests run against the compiled library.
- `app/` — the program around the library: the cluster commands (kube,
  tokio), the page (leptos) and the serialisable copies of the library's
  types.

The few calls into std and kube that Verus cannot read are wrapped in small
functions whose contracts are stated from their documentation and source;
each carries a doc comment saying what it claims.
