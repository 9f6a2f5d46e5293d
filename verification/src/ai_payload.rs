//! Recovering the JSON object from a model reply: removing a Markdown code
//! fence, cutting out the outermost balanced object, closing a truncated one,
//! and turning JSON values into display text.
use vstd::prelude::*;

use crate::text::{
    char_is_whitespace, chars_of, contains, count_char, ends_with, is_ws, join, owned,
    starts_with, starts_with_str, string_of, string_of_range, trim, trim_end, trim_end_str,
    trim_str, lemma_trim_end_cut, lemma_trim_result,
};

verus! {

broadcast use vstd::string::group_string_axioms;

// ---------------------------------------------------------------------------
// Code fences
// ---------------------------------------------------------------------------

/// Drops leading line breaks (`\n` and `\r`).
pub open spec fn trim_start_newlines(s: Seq<char>) -> Seq<char>
    decreases s.len(),
{
    if s.len() > 0 && (s[0] == '\n' || s[0] == '\r') {
        trim_start_newlines(s.drop_first())
    } else {
        s
    }
}

/// The text inside a Markdown code fence (` ```json `, ` ```JSON ` or bare
/// ` ``` `), or the trimmed input when it does not start with a fence.
pub open spec fn strip_fence_spec(input: Seq<char>) -> Seq<char> {
    let t = trim(input);
    if starts_with(t, "```"@) {
        let rest = if starts_with(t, "```json"@) || starts_with(t, "```JSON"@) {
            t.skip(7)
        } else {
            t.skip(3)
        };
        let body = trim_start_newlines(rest);
        let te = trim_end(body);
        let cut = if ends_with(te, "```"@) {
            body.take(te.len() - 3)
        } else {
            body
        };
        trim(cut)
    } else {
        t
    }
}

proof fn lemma_trim_start_newlines_skip(s: Seq<char>, i: int)
    requires
        0 <= i <= s.len(),
        forall|k: int| 0 <= k < i ==> (#[trigger] s[k] == '\n' || s[k] == '\r'),
    ensures
        trim_start_newlines(s) == trim_start_newlines(s.subrange(i, s.len() as int)),
    decreases i,
{
    if i > 0 {
        assert(s.drop_first().subrange(i - 1, s.drop_first().len() as int) =~= s.subrange(
            i,
            s.len() as int,
        ));
        lemma_trim_start_newlines_skip(s.drop_first(), i - 1);
    } else {
        assert(s.subrange(0, s.len() as int) =~= s);
    }
}

/// Removes a Markdown code fence around the reply, if there is one.
pub fn strip_markdown_code_block(input: &str) -> (r: String)
    ensures
        r@ == strip_fence_spec(input@),
{
    let t = trim_str(input);
    if !starts_with_str(t.as_str(), "```") {
        return t;
    }
    let v = chars_of(t.as_str());
    proof {
        reveal_strlit("```");
        reveal_strlit("```json");
        reveal_strlit("```JSON");
    }
    let start: usize = if starts_with_str(t.as_str(), "```json") || starts_with_str(
        t.as_str(),
        "```JSON",
    ) {
        7
    } else {
        3
    };
    let ghost rest = v@.skip(start as int);
    let mut i: usize = start;
    while i < v.len() && (v[i] == '\n' || v[i] == '\r')
        invariant
            start <= i <= v.len(),
            forall|k: int| start <= k < i ==> (#[trigger] v@[k] == '\n' || v@[k] == '\r'),
        decreases v.len() - i,
    {
        i = i + 1;
    }
    let ghost body = v@.subrange(i as int, v.len() as int);
    proof {
        assert forall|k: int| 0 <= k < i - start implies (#[trigger] rest[k] == '\n' || rest[k]
            == '\r') by {
            assert(rest[k] == v@[k + start]);
        }
        lemma_trim_start_newlines_skip(rest, i - start);
        assert(rest.subrange(i - start, rest.len() as int) =~= body);
        if i < v.len() {
            assert(body[0] == v@[i as int]);
        }
        assert(trim_start_newlines(body) == body);
    }
    let mut j: usize = v.len();
    while j > i && char_is_whitespace(v[j - 1])
        invariant
            i <= j <= v.len(),
            forall|k: int| j <= k < v.len() ==> is_ws(#[trigger] v@[k]),
        decreases j,
    {
        j = j - 1;
    }
    let ghost te = body.subrange(0, j - i);
    proof {
        assert forall|k: int| j - i <= k < body.len() implies is_ws(#[trigger] body[k]) by {
            assert(body[k] == v@[k + i]);
        }
        lemma_trim_end_cut(body, j - i);
        if j > i {
            assert(te.last() == v@[j - 1]);
        }
        assert(trim_end(te) == te);
        assert(trim_end(body) == te);
    }
    proof {
        reveal_strlit("```");
    }
    let fenced_end: bool = j - i >= 3 && v[j - 3] == '`' && v[j - 2] == '`' && v[j - 1] == '`';
    proof {
        if j - i >= 3 {
            assert(te.subrange(te.len() - 3, te.len() as int) =~= seq![
                v@[j - 3],
                v@[j - 2],
                v@[j - 1],
            ]);
            assert("```"@ =~= seq!['`', '`', '`']);
        }
    }
    let end: usize = if fenced_end {
        j - 3
    } else {
        v.len()
    };
    let cut = string_of_range(&v, i, end);
    proof {
        if fenced_end {
            assert(cut@ =~= body.take(te.len() - 3));
        } else {
            assert(cut@ =~= body);
        }
    }
    trim_str(cut.as_str())
}

// ---------------------------------------------------------------------------
// The outermost balanced object
// ---------------------------------------------------------------------------

/// Position of the first `c` in `s` at or after `i`.
pub open spec fn first_index_from(s: Seq<char>, c: char, i: int) -> Option<int>
    decreases s.len() - i,
{
    if i < 0 || i >= s.len() {
        None
    } else if s[i] == c {
        Some(i)
    } else {
        first_index_from(s, c, i + 1)
    }
}

/// Scanning `s` from `i` with brace depth `depth` and JSON string state, the
/// position of the `}` that brings the depth back to zero.
pub open spec fn scan_close(s: Seq<char>, i: int, depth: int, in_str: bool, esc: bool) -> Option<
    int,
>
    decreases s.len() - i,
{
    if i < 0 || i >= s.len() {
        None
    } else {
        let c = s[i];
        if esc {
            scan_close(s, i + 1, depth, in_str, false)
        } else if c == '\\' && in_str {
            scan_close(s, i + 1, depth, in_str, true)
        } else if c == '"' {
            scan_close(s, i + 1, depth, !in_str, false)
        } else if in_str {
            scan_close(s, i + 1, depth, in_str, false)
        } else if c == '{' {
            scan_close(s, i + 1, depth + 1, in_str, false)
        } else if c == '}' {
            if depth - 1 == 0 {
                Some(i)
            } else {
                scan_close(s, i + 1, depth - 1, in_str, false)
            }
        } else {
            scan_close(s, i + 1, depth, in_str, false)
        }
    }
}

/// From the first `{`: up to the `}` that balances it, or to the end when none does.
/// Nothing when there is no `{`.
pub open spec fn balanced_json_spec(s: Seq<char>) -> Option<Seq<char>> {
    match first_index_from(s, '{', 0) {
        None => None,
        Some(st) => match scan_close(s, st, 0, false, false) {
            Some(e) => Some(s.subrange(st, e + 1)),
            None => Some(s.subrange(st, s.len() as int)),
        },
    }
}

/// Cuts out the outermost balanced JSON object, skipping braces inside strings.
pub fn extract_balanced_json(input: &str) -> (r: Option<String>)
    ensures
        match r {
            Some(x) => balanced_json_spec(input@) == Some(x@),
            None => balanced_json_spec(input@).is_none(),
        },
{
    let v = chars_of(input);
    let ghost s = v@;
    let mut start: usize = 0;
    while start < v.len() && v[start] != '{'
        invariant
            start <= v.len(),
            s == v@,
            first_index_from(s, '{', 0) == first_index_from(s, '{', start as int),
        decreases v.len() - start,
    {
        start = start + 1;
    }
    if start == v.len() {
        return None;
    }
    assert(first_index_from(s, '{', start as int) == Some(start as int));
    let mut depth: usize = 1;
    let mut in_string: bool = false;
    let mut escape_next: bool = false;
    let mut i: usize = start + 1;
    assert(scan_close(s, start as int, 0, false, false) == scan_close(s, i as int, 1, false, false));
    while i < v.len()
        invariant
            start < i <= v.len(),
            s == v@,
            s == input@,
            1 <= depth <= i - start,
            first_index_from(s, '{', 0) == Some(start as int),
            scan_close(s, start as int, 0, false, false) == scan_close(
                s,
                i as int,
                depth as int,
                in_string,
                escape_next,
            ),
        decreases v.len() - i,
    {
        let ch = v[i];
        if escape_next {
            escape_next = false;
        } else if ch == '\\' && in_string {
            escape_next = true;
        } else if ch == '"' {
            in_string = !in_string;
        } else if in_string {
        } else if ch == '{' {
            depth = depth + 1;
        } else if ch == '}' {
            if depth == 1 {
                assert(scan_close(s, i as int, depth as int, in_string, escape_next) == Some(
                    i as int,
                ));
                let out = string_of_range(&v, start, i + 1);
                return Some(out);
            }
            depth = depth - 1;
        }
        i = i + 1;
    }
    Some(string_of_range(&v, start, v.len()))
}

// ---------------------------------------------------------------------------
// Closing a truncated object
// ---------------------------------------------------------------------------

/// Number of positions where a backslash is directly followed by a double quote.
pub open spec fn count_escaped_quotes(s: Seq<char>) -> nat
    decreases s.len(),
{
    if s.len() < 2 {
        0
    } else {
        count_escaped_quotes(s.drop_last()) + if s[s.len() - 2] == '\\' && s.last() == '"' {
            1nat
        } else {
            0nat
        }
    }
}

/// Brace depth at the end of `s` from position `i`, with JSON string state;
/// braces inside strings do not count.
pub open spec fn scan_depth(s: Seq<char>, i: int, depth: int, in_str: bool, esc: bool) -> int
    decreases s.len() - i,
{
    if i < 0 || i >= s.len() {
        depth
    } else {
        let c = s[i];
        if esc {
            scan_depth(s, i + 1, depth, in_str, false)
        } else if c == '\\' && in_str {
            scan_depth(s, i + 1, depth, in_str, true)
        } else if c == '"' {
            scan_depth(s, i + 1, depth, !in_str, false)
        } else if in_str {
            scan_depth(s, i + 1, depth, in_str, false)
        } else if c == '{' {
            scan_depth(s, i + 1, depth + 1, in_str, false)
        } else if c == '}' {
            scan_depth(s, i + 1, depth - 1, in_str, false)
        } else {
            scan_depth(s, i + 1, depth, in_str, false)
        }
    }
}

/// `n` closing braces.
pub open spec fn closing_braces(n: nat) -> Seq<char> {
    Seq::new(n, |k: int| '}')
}

/// The repair steps: trailing whitespace and one trailing comma go, a dangling
/// key gets an empty string, an odd quote count gets a closing quote, and the
/// open braces get closed.
pub open spec fn repair_spec(json: Seq<char>) -> Seq<char> {
    let r0 = trim_end(json);
    let r1 = if ends_with(r0, ","@) {
        r0.drop_last()
    } else {
        r0
    };
    let te = trim_end(r1);
    let r2 = if ends_with(te, ":"@) || ends_with(te, ": "@) {
        r1 + "\"\""@
    } else {
        r1
    };
    let quotes = count_char(r2, '"') - count_escaped_quotes(r2);
    let r3 = if quotes % 2 != 0 {
        r2.push('"')
    } else {
        r2
    };
    let d = scan_depth(r3, 0, 0, false, false);
    r3 + closing_braces(if d > 0 {
        d as nat
    } else {
        0
    })
}

proof fn lemma_count_step(s: Seq<char>, i: int)
    requires
        0 <= i < s.len(),
    ensures
        count_char(s.take(i + 1), '"') == count_char(s.take(i), '"') + if s[i] == '"' {
            1int
        } else {
            0int
        },
        count_escaped_quotes(s.take(i + 1)) == count_escaped_quotes(s.take(i)) + if i >= 1 && s[i
            - 1] == '\\' && s[i] == '"' {
            1int
        } else {
            0int
        },
{
    assert(s.take(i + 1).drop_last() =~= s.take(i));
}

/// Appends characters to `s` so that a truncated JSON object is more likely to parse.
pub fn attempt_json_repair(json: &str) -> (r: String)
    ensures
        r@ == repair_spec(json@),
{
    let r0 = trim_end_str(json);
    let mut v = chars_of(r0.as_str());
    proof {
        reveal_strlit(",");
        reveal_strlit(":");
        reveal_strlit(": ");
        reveal_strlit("\"\"");
    }
    let ghost g0 = v@;
    if v.len() > 0 && v[v.len() - 1] == ',' {
        v.pop();
        assert(v@ =~= g0.drop_last());
    }
    proof {
        if g0.len() > 0 {
            assert(","@ =~= seq![',']);
            let tail = g0.subrange(g0.len() - 1, g0.len() as int);
            if g0.last() == ',' {
                assert(tail =~= ","@);
            } else {
                assert(tail[0] != ","@[0]);
            }
        }
    }
    let ghost g1 = v@;
    assert(g0 == trim_end(json@));
    assert(g1 == (if ends_with(g0, ","@) {
        g0.drop_last()
    } else {
        g0
    }));
    let r1 = string_of(&v);
    let te = trim_end_str(r1.as_str());
    let tv = chars_of(te.as_str());
    let dangling: bool = tv.len() > 0 && tv[tv.len() - 1] == ':' || tv.len() > 1 && tv[tv.len()
        - 2] == ':' && tv[tv.len() - 1] == ' ';
    proof {
        let t = tv@;
        assert(":"@ =~= seq![':']);
        assert(": "@ =~= seq![':', ' ']);
        if t.len() > 0 {
            let tail = t.subrange(t.len() - 1, t.len() as int);
            if t.last() == ':' {
                assert(tail =~= ":"@);
            } else {
                assert(tail[0] != ":"@[0]);
            }
        }
        if t.len() > 1 {
            let tail2 = t.subrange(t.len() - 2, t.len() as int);
            if t[t.len() - 2] == ':' && t.last() == ' ' {
                assert(tail2 =~= ": "@);
            } else if t[t.len() - 2] != ':' {
                assert(tail2[0] != ": "@[0]);
            } else {
                assert(tail2[1] != ": "@[1]);
            }
        }
        assert(dangling == (ends_with(t, ":"@) || ends_with(t, ": "@)));
    }
    if dangling {
        v.push('"');
        v.push('"');
        assert(v@ =~= g1 + "\"\""@);
    }
    let ghost g2 = v@;
    assert(g2 == (if ends_with(trim_end(g1), ":"@) || ends_with(trim_end(g1), ": "@) {
        g1 + "\"\""@
    } else {
        g1
    }));
    let mut quotes: usize = 0;
    let mut escaped: usize = 0;
    let mut i: usize = 0;
    while i < v.len()
        invariant
            v@ == g2,
            i <= v.len(),
            escaped <= quotes <= i,
            quotes == count_char(g2.take(i as int), '"'),
            escaped == count_escaped_quotes(g2.take(i as int)),
        decreases v.len() - i,
    {
        proof {
            lemma_count_step(g2, i as int);
        }
        if v[i] == '"' {
            quotes = quotes + 1;
            if i >= 1 && v[i - 1] == '\\' {
                escaped = escaped + 1;
            }
        }
        i = i + 1;
    }
    assert(g2.take(g2.len() as int) =~= g2);
    if (quotes - escaped) % 2 != 0 {
        v.push('"');
    }
    let ghost g3 = v@;
    assert(g3 == (if (count_char(g2, '"') - count_escaped_quotes(g2)) % 2 != 0 {
        g2.push('"')
    } else {
        g2
    }));
    let mut opens: usize = 0;
    let mut closes: usize = 0;
    let mut in_str: bool = false;
    let mut esc: bool = false;
    let mut k: usize = 0;
    while k < v.len()
        invariant
            v@ == g3,
            k <= v.len(),
            opens <= k,
            closes <= k,
            scan_depth(g3, 0, 0, false, false) == scan_depth(
                g3,
                k as int,
                opens - closes,
                in_str,
                esc,
            ),
        decreases v.len() - k,
    {
        let ch = v[k];
        if esc {
            esc = false;
        } else if ch == '\\' && in_str {
            esc = true;
        } else if ch == '"' {
            in_str = !in_str;
        } else if in_str {
        } else if ch == '{' {
            opens = opens + 1;
        } else if ch == '}' {
            closes = closes + 1;
        }
        k = k + 1;
    }
    let ghost d = scan_depth(g3, 0, 0, false, false);
    if opens > closes {
        let mut n: usize = 0;
        let total: usize = opens - closes;
        while n < total
            invariant
                n <= total,
                v@ == g3 + closing_braces(n as nat),
            decreases total - n,
        {
            v.push('}');
            n = n + 1;
            assert(v@ =~= g3 + closing_braces(n as nat));
        }
    } else {
        assert(v@ =~= g3 + closing_braces(0));
    }
    string_of(&v)
}

// ---------------------------------------------------------------------------
// JSON values as display text
// ---------------------------------------------------------------------------

/// A JSON value as the reply holds it; an object is held as its member values,
/// in the order in which the parser yields them.
#[derive(Debug)]
pub enum JsonValue {
    Null,
    Bool(bool),
    Number(String),
    String(String),
    Array(Vec<JsonValue>),
    Object(Vec<JsonValue>),
}

/// Display text of a JSON value: strings as they are, numbers and booleans
/// spelled out, `null` as nothing, arrays one non-empty item per line and
/// objects their non-empty member values joined with `；`.
pub open spec fn json_text(v: JsonValue) -> Seq<char>
    decreases v, 0nat,
{
    match v {
        JsonValue::Null => Seq::empty(),
        JsonValue::Bool(b) => if b {
            "true"@
        } else {
            "false"@
        },
        JsonValue::Number(n) => n@,
        JsonValue::String(s) => s@,
        JsonValue::Array(items) => join(nonempty_texts(items@, items@.len() as int), "\n"@),
        JsonValue::Object(values) => join(nonempty_texts(values@, values@.len() as int), "；"@),
    }
}

/// The non-empty display texts of `items[0..n]`, in order.
pub open spec fn nonempty_texts(items: Seq<JsonValue>, n: int) -> Seq<Seq<char>>
    decreases items, n,
{
    if n <= 0 || n > items.len() {
        Seq::empty()
    } else {
        let t = json_text(items[n - 1]);
        if t.len() == 0 {
            nonempty_texts(items, n - 1)
        } else {
            nonempty_texts(items, n - 1).push(t)
        }
    }
}

proof fn lemma_join_push(xs: Seq<Seq<char>>, t: Seq<char>, sep: Seq<char>)
    ensures
        join(xs.push(t), sep) == if xs.len() == 0 {
            t
        } else {
            join(xs, sep) + sep + t
        },
{
    assert(xs.push(t).drop_last() =~= xs);
}

fn join_values(items: &Vec<JsonValue>, sep: &str) -> (r: String)
    ensures
        r@ == join(nonempty_texts(items@, items@.len() as int), sep@),
    decreases items@, 1nat,
{
    let mut r = String::new();
    let mut any: bool = false;
    let mut i: usize = 0;
    while i < items.len()
        invariant
            i <= items.len(),
            any == (nonempty_texts(items@, i as int).len() > 0),
            r@ == join(nonempty_texts(items@, i as int), sep@),
        decreases items.len() - i,
    {
        let t = json_value_to_text(&items[i]);
        proof {
            lemma_join_push(nonempty_texts(items@, i as int), t@, sep@);
        }
        if !t.as_str().is_empty() {
            if any {
                r.append(sep);
            }
            r.append(t.as_str());
            any = true;
        }
        i = i + 1;
    }
    r
}

/// Flattens any JSON value into readable text.
pub fn json_value_to_text(value: &JsonValue) -> (r: String)
    ensures
        r@ == json_text(*value),
    decreases *value, 0nat,
{
    match value {
        JsonValue::Null => String::new(),
        JsonValue::Bool(b) => if *b {
            owned("true")
        } else {
            owned("false")
        },
        JsonValue::Number(n) => owned(n.as_str()),
        JsonValue::String(s) => owned(s.as_str()),
        JsonValue::Array(items) => join_values(items, "\n"),
        JsonValue::Object(values) => join_values(values, "；"),
    }
}

/// The ten chapters of a model reply, each as it came (absent ones as `Null`).
#[derive(Debug)]
pub struct AiDisclosureSections {
    pub title: JsonValue,
    pub field: JsonValue,
    pub background: JsonValue,
    pub purpose: JsonValue,
    pub technical_solution: JsonValue,
    pub benefits: JsonValue,
    pub figures: JsonValue,
    pub implementation: JsonValue,
    pub layout: JsonValue,
    pub questions: JsonValue,
}

/// Display texts of the ten chapters, in the order of the required chapter list.
pub open spec fn section_texts(s: AiDisclosureSections) -> Seq<Seq<char>> {
    seq![
        json_text(s.title),
        json_text(s.field),
        json_text(s.background),
        json_text(s.purpose),
        json_text(s.technical_solution),
        json_text(s.benefits),
        json_text(s.figures),
        json_text(s.implementation),
        json_text(s.layout),
        json_text(s.questions),
    ]
}

impl AiDisclosureSections {
    /// Display texts of the ten chapters, in the order of the required chapter list.
    pub fn as_map(&self) -> (v: Vec<String>)
        ensures
            v@.map_values(|x: String| x@) == section_texts(*self),
    {
        let mut v: Vec<String> = Vec::new();
        v.push(json_value_to_text(&self.title));
        v.push(json_value_to_text(&self.field));
        v.push(json_value_to_text(&self.background));
        v.push(json_value_to_text(&self.purpose));
        v.push(json_value_to_text(&self.technical_solution));
        v.push(json_value_to_text(&self.benefits));
        v.push(json_value_to_text(&self.figures));
        v.push(json_value_to_text(&self.implementation));
        v.push(json_value_to_text(&self.layout));
        v.push(json_value_to_text(&self.questions));
        assert(v@.map_values(|x: String| x@) =~= section_texts(*self));
        v
    }
}

/// What the model reply holds once parsed.
#[derive(Debug)]
pub struct AiDisclosurePayload {
    pub diagnosis_summary: String,
    pub follow_up_question: Option<String>,
    pub completeness_advisory: Option<String>,
    pub sections: AiDisclosureSections,
}

// ---------------------------------------------------------------------------
// Laws
// ---------------------------------------------------------------------------

/// The text inside a fence has no surrounding whitespace.
pub proof fn lemma_strip_fence_trimmed(input: Seq<char>)
    ensures
        trim(strip_fence_spec(input)) == strip_fence_spec(input),
{
    let t = trim(input);
    lemma_trim_result(input);
    if starts_with(t, "```"@) {
        let rest = if starts_with(t, "```json"@) || starts_with(t, "```JSON"@) {
            t.skip(7)
        } else {
            t.skip(3)
        };
        let body = trim_start_newlines(rest);
        let te = trim_end(body);
        let cut = if ends_with(te, "```"@) {
            body.take(te.len() - 3)
        } else {
            body
        };
        lemma_trim_result(cut);
    }
}

proof fn lemma_first_index_found(s: Seq<char>, c: char, i: int)
    requires
        0 <= i,
    ensures
        first_index_from(s, c, i) matches Some(k) ==> i <= k < s.len() && s[k] == c,
    decreases s.len() - i,
{
    if i < s.len() && s[i] != c {
        lemma_first_index_found(s, c, i + 1);
    }
}

proof fn lemma_scan_close_bounds(s: Seq<char>, i: int, depth: int, in_str: bool, esc: bool)
    requires
        0 <= i,
    ensures
        scan_close(s, i, depth, in_str, esc) matches Some(e) ==> i <= e < s.len() && s[e] == '}',
    decreases s.len() - i,
{
    if i < s.len() {
        let c = s[i];
        if esc {
            lemma_scan_close_bounds(s, i + 1, depth, in_str, false);
        } else if c == '\\' && in_str {
            lemma_scan_close_bounds(s, i + 1, depth, in_str, true);
        } else if c == '"' {
            lemma_scan_close_bounds(s, i + 1, depth, !in_str, false);
        } else if in_str {
            lemma_scan_close_bounds(s, i + 1, depth, in_str, false);
        } else if c == '{' {
            lemma_scan_close_bounds(s, i + 1, depth + 1, in_str, false);
        } else if c == '}' {
            if depth - 1 != 0 {
                lemma_scan_close_bounds(s, i + 1, depth - 1, in_str, false);
            }
        } else {
            lemma_scan_close_bounds(s, i + 1, depth, in_str, false);
        }
    }
}

/// The cut-out object is a contiguous part of the input that starts with `{`;
/// when a balancing `}` was found it also ends with it.
pub proof fn lemma_balanced_json_shape(s: Seq<char>)
    ensures
        balanced_json_spec(s) is None <==> !s.contains('{'),
        balanced_json_spec(s) matches Some(x) ==> x.len() > 0 && x[0] == '{' && exists|a: int|
            0 <= a && a + x.len() <= s.len() && #[trigger] s.subrange(a, a + x.len()) == x,
{
    lemma_first_index_found(s, '{', 0);
    match first_index_from(s, '{', 0) {
        None => {
            assert forall|k: int| 0 <= k < s.len() implies s[k] != '{' by {
                lemma_first_index_none(s, '{', 0, k);
            }
        },
        Some(st) => {
            assert(s.contains('{')) by {
                assert(s[st] == '{');
            }
            lemma_scan_close_bounds(s, st, 0, false, false);
            match scan_close(s, st, 0, false, false) {
                Some(e) => {
                    let x = s.subrange(st, e + 1);
                    assert(s.subrange(st, st + x.len()) == x);
                },
                None => {
                    let x = s.subrange(st, s.len() as int);
                    assert(s.subrange(st, st + x.len()) == x);
                },
            }
        },
    }
}

proof fn lemma_first_index_none(s: Seq<char>, c: char, i: int, k: int)
    requires
        0 <= i <= k < s.len(),
        first_index_from(s, c, i) is None,
    ensures
        s[k] != c,
    decreases k - i,
{
    if s[i] != c && i < k {
        lemma_first_index_none(s, c, i + 1, k);
    }
}

} // verus!
