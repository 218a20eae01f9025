//! Search highlighting of the describe and logs panels: the text escaped for
//! HTML, with every case-insensitive occurrence of the query wrapped in a
//! `<mark>` element.
//!
//! Characters are compared by their lowercase forms. Occurrences are taken
//! from left to right without overlapping: after a match the search resumes
//! at its end, so each character of the text is shown exactly once.
use vstd::prelude::*;
use crate::text::{chars_of, lowercase, push_char, replace_all, replace_chars, str_eq, string_of, to_lowercase};

verus! {

// ---------------------------------------------------------------------------
// Escaping
// ---------------------------------------------------------------------------

/// `s` with '&', '<' and '>' written as entities.
pub open spec fn escape_spec(s: Seq<char>) -> Seq<char> {
    replace_all(replace_all(replace_all(s, "&"@, "&amp;"@), "<"@, "&lt;"@), ">"@, "&gt;"@)
}

/// Escapes '&', '<' and '>' for HTML.
pub fn escape_html(s: &str) -> (r: String)
    ensures
        r@ == escape_spec(s@),
{
    proof {
        reveal_strlit("&");
        reveal_strlit("<");
        reveal_strlit(">");
    }
    let v = chars_of(s);
    let a = replace_chars(&v, "&", "&amp;");
    let b = replace_chars(&a, "<", "&lt;");
    let c = replace_chars(&b, ">", "&gt;");
    string_of(&c)
}

// ---------------------------------------------------------------------------
// Specification
// ---------------------------------------------------------------------------

/// The opening tag around a match.
pub open spec fn mark_open() -> Seq<char> {
    "<mark style=\"background-color:#ffeb3b;color:#000;padding:0 2px;\">"@
}

/// The closing tag around a match.
pub open spec fn mark_close() -> Seq<char> {
    "</mark>"@
}

// ---------------------------------------------------------------------------
// Laws
// ---------------------------------------------------------------------------

/// `c` does not occur in `s`.
pub open spec fn lacks(s: Seq<char>, c: char) -> bool {
    forall|i: int| 0 <= i < s.len() ==> s[i] != c
}

proof fn lemma_replace_keeps_lack(s: Seq<char>, from: Seq<char>, to: Seq<char>, c: char)
    requires
        lacks(s, c),
        lacks(to, c),
    ensures
        lacks(replace_all(s, from, to), c),
    decreases s.len(),
{
    if s.len() > 0 {
        if from.len() > 0 && crate::text::occurs_at(s, from, 0) {
            lemma_replace_keeps_lack(s.skip(from.len() as int), from, to, c);
        } else {
            lemma_replace_keeps_lack(s.skip(1), from, to, c);
        }
    }
}

proof fn lemma_replace_removes(s: Seq<char>, c: char, to: Seq<char>)
    requires
        lacks(to, c),
    ensures
        lacks(replace_all(s, seq![c], to), c),
    decreases s.len(),
{
    if s.len() > 0 {
        if crate::text::occurs_at(s, seq![c], 0) {
            lemma_replace_removes(s.skip(1), c, to);
        } else {
            assert(s[0] != c) by {
                if s[0] == c {
                    assert(s.subrange(0, 1) =~= seq![c]);
                }
            }
            lemma_replace_removes(s.skip(1), c, to);
        }
    }
}

/// Escaped text holds no '<' or '>': no text it is built from can open or
/// close a tag of its own.
pub proof fn escaped_has_no_angle_brackets(s: Seq<char>)
    ensures
        lacks(escape_spec(s), '<'),
        lacks(escape_spec(s), '>'),
{
    reveal_strlit("&");
    reveal_strlit("<");
    reveal_strlit(">");
    reveal_strlit("&amp;");
    reveal_strlit("&lt;");
    reveal_strlit("&gt;");
    assert("<"@ =~= seq!['<']);
    assert(">"@ =~= seq!['>']);
    let a = replace_all(s, "&"@, "&amp;"@);
    let b = replace_all(a, "<"@, "&lt;"@);
    lemma_replace_removes(a, '<', "&lt;"@);
    lemma_replace_keeps_lack(b, ">"@, "&gt;"@, '<');
    lemma_replace_removes(b, '>', "&gt;"@);
}


// ---------------------------------------------------------------------------
// What the highlighted text shows
// ---------------------------------------------------------------------------

/// The entity text of one character: '&', '<' and '>' escaped, others kept.
pub open spec fn escape_char(c: char) -> Seq<char> {
    if c == '&' {
        seq!['&', 'a', 'm', 'p', ';']
    } else if c == '<' {
        seq!['&', 'l', 't', ';']
    } else if c == '>' {
        seq!['&', 'g', 't', ';']
    } else {
        seq![c]
    }
}

/// `s` escaped character by character.
pub open spec fn escape_chars(s: Seq<char>) -> Seq<char>
    decreases s.len(),
{
    if s.len() == 0 {
        Seq::empty()
    } else {
        escape_char(s[0]) + escape_chars(s.skip(1))
    }
}

/// The text that the HTML `h` shows: the mark tags dropped and the entities
/// for '&', '<' and '>' read back as those characters.
pub open spec fn shown_text(h: Seq<char>) -> Seq<char>
    decreases h.len(),
{
    if h.len() == 0 {
        h
    } else if h.len() >= 65 && h.subrange(0, 65) == mark_open() {
        shown_text(h.skip(65))
    } else if h.len() >= 7 && h.subrange(0, 7) == mark_close() {
        shown_text(h.skip(7))
    } else if h.len() >= 5 && h.subrange(0, 5) == seq!['&', 'a', 'm', 'p', ';'] {
        seq!['&'] + shown_text(h.skip(5))
    } else if h.len() >= 4 && h.subrange(0, 4) == seq!['&', 'l', 't', ';'] {
        seq!['<'] + shown_text(h.skip(4))
    } else if h.len() >= 4 && h.subrange(0, 4) == seq!['&', 'g', 't', ';'] {
        seq!['>'] + shown_text(h.skip(4))
    } else {
        seq![h[0]] + shown_text(h.skip(1))
    }
}

proof fn lemma_replace_concat(a: Seq<char>, b: Seq<char>, c: char, to: Seq<char>)
    ensures
        replace_all(a + b, seq![c], to) == replace_all(a, seq![c], to) + replace_all(b, seq![c], to),
    decreases a.len(),
{
    if a.len() == 0 {
        assert(a + b =~= b);
        assert(replace_all(a, seq![c], to) =~= Seq::<char>::empty());
        assert(Seq::<char>::empty() + replace_all(b, seq![c], to) =~= replace_all(b, seq![c], to));
    } else {
        let ab = a + b;
        assert(ab.skip(1) =~= a.skip(1) + b);
        assert(ab[0] == a[0]);
        assert(crate::text::occurs_at(ab, seq![c], 0) == (a[0] == c)) by {
            if a[0] == c {
                assert(ab.subrange(0, 1) =~= seq![c]);
                assert(a.subrange(0, 1) =~= seq![c]);
            } else {
                assert(ab.subrange(0, 1)[0] == a[0]);
            }
        }
        assert(crate::text::occurs_at(a, seq![c], 0) == (a[0] == c)) by {
            if a[0] == c {
                assert(a.subrange(0, 1) =~= seq![c]);
            } else {
                assert(a.subrange(0, 1)[0] == a[0]);
            }
        }
        lemma_replace_concat(a.skip(1), b, c, to);
        if a[0] == c {
            assert(replace_all(ab, seq![c], to) == to + replace_all(ab.skip(1), seq![c], to));
            assert(replace_all(a, seq![c], to) == to + replace_all(a.skip(1), seq![c], to));
            assert(replace_all(ab, seq![c], to) =~= replace_all(a, seq![c], to) + replace_all(b, seq![c], to));
        } else {
            assert(replace_all(ab, seq![c], to) == seq![ab[0]] + replace_all(ab.skip(1), seq![c], to));
            assert(replace_all(a, seq![c], to) == seq![a[0]] + replace_all(a.skip(1), seq![c], to));
            assert(replace_all(ab, seq![c], to) =~= replace_all(a, seq![c], to) + replace_all(b, seq![c], to));
        }
    }
}

proof fn lemma_replace_absent(s: Seq<char>, c: char, to: Seq<char>)
    requires
        lacks(s, c),
    ensures
        replace_all(s, seq![c], to) == s,
    decreases s.len(),
{
    if s.len() > 0 {
        assert(!crate::text::occurs_at(s, seq![c], 0)) by {
            assert(s.subrange(0, 1)[0] == s[0]);
        }
        lemma_replace_absent(s.skip(1), c, to);
        assert(seq![s[0]] + s.skip(1) =~= s);
    }
}

proof fn lemma_replace_single(x: char, c: char, to: Seq<char>)
    ensures
        replace_all(seq![x], seq![c], to) == (if x == c { to } else { seq![x] }),
{
    let s = seq![x];
    assert(s.skip(1) =~= Seq::<char>::empty());
    assert(replace_all(Seq::<char>::empty(), seq![c], to) =~= Seq::<char>::empty());
    assert(s.len() == 1 && s[0] == x);
    if x == c {
        assert(s.subrange(0, 1) =~= seq![c]);
        assert(to + Seq::<char>::empty() =~= to);
    } else {
        assert(s.subrange(0, 1)[0] == x);
        assert(seq![x] + Seq::<char>::empty() =~= seq![x]);
    }
}

/// The three replacements of `escape_spec` applied to one character.
spec fn escape_passes(s: Seq<char>) -> Seq<char> {
    replace_all(
        replace_all(replace_all(s, seq!['&'], seq!['&', 'a', 'm', 'p', ';']), seq!['<'], seq!['&', 'l', 't', ';']),
        seq!['>'],
        seq!['&', 'g', 't', ';'],
    )
}

proof fn lemma_escape_passes_char(x: char)
    ensures
        escape_passes(seq![x]) == escape_char(x),
{
    let amp = seq!['&', 'a', 'm', 'p', ';'];
    let lt = seq!['&', 'l', 't', ';'];
    let gt = seq!['&', 'g', 't', ';'];
    lemma_replace_single(x, '&', amp);
    if x == '&' {
        lemma_replace_absent(amp, '<', lt);
        lemma_replace_absent(amp, '>', gt);
    } else {
        lemma_replace_single(x, '<', lt);
        if x == '<' {
            lemma_replace_absent(lt, '>', gt);
        } else {
            lemma_replace_single(x, '>', gt);
        }
    }
}

proof fn lemma_escape_passes_concat(a: Seq<char>, b: Seq<char>)
    ensures
        escape_passes(a + b) == escape_passes(a) + escape_passes(b),
{
    let amp = seq!['&', 'a', 'm', 'p', ';'];
    let lt = seq!['&', 'l', 't', ';'];
    let gt = seq!['&', 'g', 't', ';'];
    lemma_replace_concat(a, b, '&', amp);
    let a1 = replace_all(a, seq!['&'], amp);
    let b1 = replace_all(b, seq!['&'], amp);
    lemma_replace_concat(a1, b1, '<', lt);
    let a2 = replace_all(a1, seq!['<'], lt);
    let b2 = replace_all(b1, seq!['<'], lt);
    lemma_replace_concat(a2, b2, '>', gt);
}

proof fn lemma_escape_chars(s: Seq<char>)
    ensures
        escape_spec(s) == escape_chars(s),
    decreases s.len(),
{
    reveal_strlit("&");
    reveal_strlit("<");
    reveal_strlit(">");
    reveal_strlit("&amp;");
    reveal_strlit("&lt;");
    reveal_strlit("&gt;");
    assert("&"@ =~= seq!['&']);
    assert("<"@ =~= seq!['<']);
    assert(">"@ =~= seq!['>']);
    assert("&amp;"@ =~= seq!['&', 'a', 'm', 'p', ';']);
    assert("&lt;"@ =~= seq!['&', 'l', 't', ';']);
    assert("&gt;"@ =~= seq!['&', 'g', 't', ';']);
    assert(escape_spec(s) == escape_passes(s));
    if s.len() == 0 {
        let amp = seq!['&', 'a', 'm', 'p', ';'];
        let lt = seq!['&', 'l', 't', ';'];
        let gt = seq!['&', 'g', 't', ';'];
        assert(replace_all(s, seq!['&'], amp) == s);
        assert(replace_all(s, seq!['<'], lt) == s);
        assert(replace_all(s, seq!['>'], gt) == s);
    } else {
        assert(s =~= seq![s[0]] + s.skip(1));
        lemma_escape_passes_concat(seq![s[0]], s.skip(1));
        lemma_escape_passes_char(s[0]);
        lemma_escape_chars(s.skip(1));
    }
}

proof fn lemma_shown_escaped(s: Seq<char>, rest: Seq<char>)
    ensures
        shown_text(escape_chars(s) + rest) == s + shown_text(rest),
    decreases s.len(),
{
    reveal_strlit("<mark style=\"background-color:#ffeb3b;color:#000;padding:0 2px;\">");
    reveal_strlit("</mark>");
    assert(mark_open().len() == 65);
    assert(mark_close().len() == 7);
    assert(mark_open()[0] == '<');
    assert(mark_close()[0] == '<');
    if s.len() == 0 {
        assert(escape_chars(s) + rest =~= rest);
        assert(s + shown_text(rest) =~= shown_text(rest));
    } else {
        let x = s[0];
        let r = escape_chars(s.skip(1)) + rest;
        let h = escape_chars(s) + rest;
        assert(h =~= escape_char(x) + r);
        lemma_shown_escaped(s.skip(1), rest);
        let k = escape_char(x).len();
        assert(h.skip(k as int) =~= r);
        assert(h[0] == escape_char(x)[0]);
        if h.len() >= 65 {
            assert(h.subrange(0, 65)[0] == h[0]);
        }
        if h.len() >= 7 {
            assert(h.subrange(0, 7)[0] == h[0]);
        }
        if x == '&' {
            assert(h.subrange(0, 5) =~= seq!['&', 'a', 'm', 'p', ';']);
        } else if x == '<' {
            assert(h[1] == 'l');
            if h.len() >= 5 {
                assert(h.subrange(0, 5)[1] == 'l');
            }
            assert(h.subrange(0, 4) =~= seq!['&', 'l', 't', ';']);
        } else if x == '>' {
            assert(h[1] == 'g');
            if h.len() >= 5 {
                assert(h.subrange(0, 5)[1] == 'g');
            }
            assert(h.subrange(0, 4)[1] == 'g');
            assert(h.subrange(0, 4) =~= seq!['&', 'g', 't', ';']);
        } else {
            if h.len() >= 5 {
                assert(h.subrange(0, 5)[0] == x);
            }
            if h.len() >= 4 {
                assert(h.subrange(0, 4)[0] == x);
            }
        }
        assert(s =~= seq![x] + s.skip(1));
    }
}

proof fn lemma_shown_marks(rest: Seq<char>)
    ensures
        shown_text(mark_open() + rest) == shown_text(rest),
        shown_text(mark_close() + rest) == shown_text(rest),
{
    reveal_strlit("<mark style=\"background-color:#ffeb3b;color:#000;padding:0 2px;\">");
    reveal_strlit("</mark>");
    assert(mark_open().len() == 65);
    assert(mark_close().len() == 7);
    let ho = mark_open() + rest;
    assert(ho.subrange(0, 65) =~= mark_open());
    assert(ho.skip(65) =~= rest);
    let hc = mark_close() + rest;
    assert(hc.skip(7) =~= rest);
    assert(hc.subrange(0, 7) =~= mark_close());
    if hc.len() >= 65 {
        assert(hc.subrange(0, 65)[1] == '/');
        assert(mark_open()[1] == 'm');
    }
}


// ---------------------------------------------------------------------------
// Highlighting
// ---------------------------------------------------------------------------

/// The lowercase form of one character.
pub open spec fn fold(c: char) -> Seq<char> {
    lowercase(seq![c])
}

/// The query `q` occurs at character `i` of `t`, characters compared by their
/// lowercase forms.
pub open spec fn matches_at(t: Seq<char>, q: Seq<char>, i: int) -> bool {
    &&& 0 <= i
    &&& i + q.len() <= t.len()
    &&& forall|k: int| 0 <= k < q.len() ==> fold(#[trigger] t[i + k]) == fold(q[k])
}

/// The highlighted HTML of `t` from character `i` on: a non-empty query that
/// occurs at `i` is marked and the search goes on after it; otherwise the
/// character at `i` is escaped and the search goes on at the next one.
pub open spec fn hl_from(t: Seq<char>, q: Seq<char>, i: int) -> Seq<char>
    decreases t.len() - i,
{
    if i < 0 || i >= t.len() {
        Seq::empty()
    } else if q.len() > 0 && matches_at(t, q, i) {
        mark_open() + escape_chars(t.subrange(i, i + q.len())) + mark_close() + hl_from(t, q, i + q.len())
    } else {
        escape_char(t[i]) + hl_from(t, q, i + 1)
    }
}

/// The highlighted HTML of `text` for `query`.
pub open spec fn highlight_spec(text: Seq<char>, query: Seq<char>) -> Seq<char> {
    hl_from(text, query, 0)
}

/// Appends `piece` to `out`.
fn push_all(out: &mut Vec<char>, piece: &Vec<char>)
    ensures
        final(out)@ == old(out)@ + piece@,
{
    let ghost start = out@;
    let mut k: usize = 0;
    while k < piece.len()
        invariant
            k <= piece.len(),
            out@ == start + piece@.take(k as int),
        decreases piece.len() - k,
    {
        out.push(piece[k]);
        k = k + 1;
        assert(out@ =~= start + piece@.take(k as int));
    }
    assert(piece@.take(piece.len() as int) =~= piece@);
}

/// Appends the escaped form of `c` to `out`.
fn push_escaped(out: &mut Vec<char>, c: char)
    ensures
        final(out)@ == old(out)@ + escape_char(c),
{
    let ghost start = out@;
    if c == '&' {
        out.push('&');
        out.push('a');
        out.push('m');
        out.push('p');
        out.push(';');
    } else if c == '<' {
        out.push('&');
        out.push('l');
        out.push('t');
        out.push(';');
    } else if c == '>' {
        out.push('&');
        out.push('g');
        out.push('t');
        out.push(';');
    } else {
        out.push(c);
    }
    assert(out@ =~= start + escape_char(c));
}

/// The lowercase form of each character of `v`.
fn folds_of(v: &Vec<char>) -> (r: Vec<String>)
    ensures
        r.len() == v.len(),
        forall|i: int| 0 <= i < v.len() ==> (#[trigger] r@[i])@ == fold(v@[i]),
{
    let mut r: Vec<String> = Vec::new();
    let mut i: usize = 0;
    while i < v.len()
        invariant
            i <= v.len(),
            r.len() == i,
            forall|j: int| 0 <= j < i ==> (#[trigger] r@[j])@ == fold(v@[j]),
        decreases v.len() - i,
    {
        let mut one = String::new();
        push_char(&mut one, v[i]);
        assert(one@ =~= seq![v@[i as int]]);
        let f = to_lowercase(one.as_str());
        r.push(f);
        i = i + 1;
    }
    r
}

/// Whether the folded query `qf` matches the folded text `tf` at `i`.
fn folds_match(tf: &Vec<String>, qf: &Vec<String>, i: usize) -> (r: bool)
    requires
        i + qf.len() <= tf.len(),
    ensures
        r == forall|k: int| 0 <= k < qf.len() ==> (#[trigger] tf@[i + k])@ == qf@[k]@,
{
    let mut k: usize = 0;
    while k < qf.len()
        invariant
            i + qf.len() <= tf.len(),
            k <= qf.len(),
            forall|j: int| 0 <= j < k ==> (#[trigger] tf@[i + j])@ == qf@[j]@,
        decreases qf.len() - k,
    {
        if !str_eq(tf[i + k].as_str(), qf[k].as_str()) {
            assert(!((tf@[i + k as int])@ == qf@[k as int]@));
            return false;
        }
        k = k + 1;
    }
    true
}

proof fn lemma_escape_chars_push(s: Seq<char>, x: char)
    ensures
        escape_chars(s.push(x)) == escape_chars(s) + escape_char(x),
    decreases s.len(),
{
    if s.len() == 0 {
        assert(s.push(x) =~= seq![x]);
        assert(seq![x].skip(1) =~= Seq::<char>::empty());
        assert(escape_chars(seq![x]) =~= escape_char(x) + escape_chars(Seq::<char>::empty()));
        assert(escape_chars(s) + escape_char(x) =~= escape_char(x));
        assert(escape_char(x) + Seq::<char>::empty() =~= escape_char(x));
    } else {
        assert(s.push(x).skip(1) =~= s.skip(1).push(x));
        assert(s.push(x)[0] == s[0]);
        lemma_escape_chars_push(s.skip(1), x);
        assert(escape_char(s[0]) + (escape_chars(s.skip(1)) + escape_char(x)) =~= escape_char(s[0])
            + escape_chars(s.skip(1)) + escape_char(x));
    }
}

/// The highlighted HTML of `text` for `query`: the text escaped, with each
/// case-insensitive occurrence of a non-empty query, taken from left to
/// right without overlapping, wrapped in a `<mark>` element.
pub fn highlight_matches(text: &str, query: &str) -> (r: String)
    ensures
        r@ == highlight_spec(text@, query@),
{
    let t = chars_of(text);
    let q = chars_of(query);
    let tf = folds_of(&t);
    let qf = folds_of(&q);
    let open = chars_of("<mark style=\"background-color:#ffeb3b;color:#000;padding:0 2px;\">");
    let close = chars_of("</mark>");
    let mut out: Vec<char> = Vec::new();
    let mut i: usize = 0;
    assert(out@ + hl_from(t@, q@, 0) =~= hl_from(t@, q@, 0));
    while i < t.len()
        invariant
            i <= t.len(),
            t@ == text@,
            q@ == query@,
            tf.len() == t.len(),
            qf.len() == q.len(),
            forall|j: int| 0 <= j < t.len() ==> (#[trigger] tf@[j])@ == fold(t@[j]),
            forall|j: int| 0 <= j < q.len() ==> (#[trigger] qf@[j])@ == fold(q@[j]),
            open@ == mark_open(),
            close@ == mark_close(),
            out@ + hl_from(t@, q@, i as int) == hl_from(t@, q@, 0),
        decreases t.len() - i,
    {
        let found = if q.len() > 0 && q.len() <= t.len() - i {
            folds_match(&tf, &qf, i)
        } else {
            false
        };
        assert(found == (q@.len() > 0 && matches_at(t@, q@, i as int))) by {
            if q.len() > 0 && q.len() <= t.len() - i {
                if found {
                    assert forall|k: int| 0 <= k < q@.len() implies fold(#[trigger] t@[i + k]) == fold(q@[k]) by {
                        assert((tf@[i + k])@ == qf@[k]@);
                    }
                } else {
                    let k = choose|k: int| 0 <= k < qf.len() && !((#[trigger] tf@[i + k])@ == qf@[k]@);
                    assert(fold(t@[i + k]) != fold(q@[k]));
                }
            }
        }
        let ghost before = out@;
        if found {
            let n = q.len();
            push_all(&mut out, &open);
            let ghost mid = out@;
            let mut k: usize = i;
            assert(t@.subrange(i as int, i as int) =~= Seq::<char>::empty());
            assert(mid + escape_chars(Seq::<char>::empty()) =~= mid);
            while k < i + n
                invariant
                    i < t.len(),
                    i + n <= t.len(),
                    i <= k <= i + n,
                    out@ == mid + escape_chars(t@.subrange(i as int, k as int)),
                decreases i + n - k,
            {
                let ghost prev = out@;
                push_escaped(&mut out, t[k]);
                proof {
                    assert(t@.subrange(i as int, k + 1) =~= t@.subrange(i as int, k as int).push(t@[k as int]));
                    lemma_escape_chars_push(t@.subrange(i as int, k as int), t@[k as int]);
                    assert(out@ =~= mid + escape_chars(t@.subrange(i as int, k + 1)));
                }
                k = k + 1;
            }
            push_all(&mut out, &close);
            assert(out@ + hl_from(t@, q@, (i + n) as int) =~= before + hl_from(t@, q@, i as int));
            i = i + n;
        } else {
            push_escaped(&mut out, t[i]);
            assert(out@ + hl_from(t@, q@, (i + 1) as int) =~= before + hl_from(t@, q@, i as int));
            i = i + 1;
        }
    }
    assert(hl_from(t@, q@, i as int) =~= Seq::<char>::empty());
    assert(out@ =~= hl_from(t@, q@, 0));
    string_of(&out)
}

proof fn lemma_shown_hl(t: Seq<char>, q: Seq<char>, i: int)
    requires
        0 <= i <= t.len(),
    ensures
        shown_text(hl_from(t, q, i)) == t.subrange(i, t.len() as int),
    decreases t.len() - i,
{
    if i == t.len() {
        assert(t.subrange(i, t.len() as int) =~= Seq::<char>::empty());
    } else if q.len() > 0 && matches_at(t, q, i) {
        let n = q.len() as int;
        let sub = t.subrange(i, i + n);
        let rest = hl_from(t, q, i + n);
        lemma_shown_hl(t, q, i + n);
        lemma_shown_marks(rest);
        lemma_shown_escaped(sub, mark_close() + rest);
        lemma_shown_marks(escape_chars(sub) + (mark_close() + rest));
        assert(hl_from(t, q, i) =~= mark_open() + (escape_chars(sub) + (mark_close() + rest)));
        assert(sub + t.subrange(i + n, t.len() as int) =~= t.subrange(i, t.len() as int));
    } else {
        let x = t[i];
        let rest = hl_from(t, q, i + 1);
        lemma_shown_hl(t, q, i + 1);
        assert(seq![x].skip(1) =~= Seq::<char>::empty());
        assert(escape_chars(seq![x]) =~= escape_char(x) + escape_chars(Seq::<char>::empty()));
        assert(escape_chars(seq![x]) =~= escape_char(x));
        lemma_shown_escaped(seq![x], rest);
        assert(seq![x] + t.subrange(i + 1, t.len() as int) =~= t.subrange(i, t.len() as int));
    }
}

proof fn lemma_hl_empty_query(t: Seq<char>, q: Seq<char>, i: int)
    requires
        q.len() == 0,
        0 <= i <= t.len(),
    ensures
        hl_from(t, q, i) == escape_chars(t.subrange(i, t.len() as int)),
    decreases t.len() - i,
{
    let s = t.subrange(i, t.len() as int);
    if i == t.len() {
        assert(s =~= Seq::<char>::empty());
    } else {
        lemma_hl_empty_query(t, q, i + 1);
        assert(s.skip(1) =~= t.subrange(i + 1, t.len() as int));
        assert(s[0] == t[i]);
    }
}

/// The highlighted HTML shows the text itself: with the mark tags dropped and
/// the entities read back, each character of the text appears once, in
/// order, whatever the query. With an empty query it is the escaped text.
pub proof fn highlight_shows_text(text: Seq<char>, query: Seq<char>)
    ensures
        shown_text(highlight_spec(text, query)) == text,
        query.len() == 0 ==> highlight_spec(text, query) == escape_spec(text),
{
    lemma_shown_hl(text, query, 0);
    assert(text.subrange(0, text.len() as int) =~= text);
    if query.len() == 0 {
        lemma_hl_empty_query(text, query, 0);
        lemma_escape_chars(text);
    }
}

/// Every mark of the highlighted HTML wraps an occurrence of the query: the
/// HTML from a position where a non-empty query occurs opens a mark around
/// exactly the characters of that occurrence.
pub proof fn marks_wrap_occurrences(text: Seq<char>, query: Seq<char>, i: int)
    requires
        query.len() > 0,
        0 <= i < text.len(),
    ensures
        matches_at(text, query, i) ==> hl_from(text, query, i) == mark_open() + escape_chars(
            text.subrange(i, i + query.len()),
        ) + mark_close() + hl_from(text, query, i + query.len()),
        !matches_at(text, query, i) ==> hl_from(text, query, i) == escape_char(text[i]) + hl_from(
            text,
            query,
            i + 1,
        ),
{
}

} // verus!
