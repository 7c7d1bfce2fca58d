//! A JSON codec for the command payloads this engine exchanges.
//!
//! The schema is flat: one object whose values are strings, arrays of strings,
//! or scalars (numbers, booleans, `null`) that the engine does not read.
//! Nested objects and `\u` escapes are rejected; unread scalar values are
//! accepted as opaque tokens without validation.

use vstd::prelude::*;
use vstd::string::*;

use crate::text::chars_to_string;
use crate::text::push_char;

verus! {

/// A value of the flat payload schema.
pub enum JsonValue {
    Str(String),
    StrList(Vec<String>),
    Scalar,
}

/// The view of a [`JsonValue`].
pub enum JsonValueView {
    Str(Seq<char>),
    StrList(Seq<Seq<char>>),
    Scalar,
}

impl View for JsonValue {
    type V = JsonValueView;

    open spec fn view(&self) -> JsonValueView {
        match self {
            JsonValue::Str(s) => JsonValueView::Str(s@),
            JsonValue::StrList(v) => JsonValueView::StrList(v@.map_values(|x: String| x@)),
            JsonValue::Scalar => JsonValueView::Scalar,
        }
    }
}

/// JSON insignificant whitespace.
pub open spec fn is_ws(c: char) -> bool {
    c == ' ' || c == '\t' || c == '\n' || c == '\r'
}

/// The input with leading whitespace dropped.
pub open spec fn skip_ws(s: Seq<char>) -> Seq<char>
    decreases s.len(),
{
    if s.len() > 0 && is_ws(s[0]) {
        skip_ws(s.skip(1))
    } else {
        s
    }
}

proof fn lemma_skip_ws_len(s: Seq<char>)
    ensures
        skip_ws(s).len() <= s.len(),
    decreases s.len(),
{
    if s.len() > 0 && is_ws(s[0]) {
        lemma_skip_ws_len(s.skip(1));
    }
}

/// What a backslash escape stands for; `None` for an unsupported escape.
pub open spec fn esc_char(c: char) -> Option<char> {
    if c == '"' {
        Some('"')
    } else if c == '\\' {
        Some('\\')
    } else if c == '/' {
        Some('/')
    } else if c == 'n' {
        Some('\n')
    } else if c == 't' {
        Some('\t')
    } else if c == 'r' {
        Some('\r')
    } else {
        None
    }
}

/// The body of a string literal, after its opening quote: the decoded
/// characters and the rest after the closing quote.
pub open spec fn take_string_body(s: Seq<char>) -> Option<(Seq<char>, Seq<char>)>
    decreases s.len(),
{
    if s.len() == 0 {
        None
    } else if s[0] == '"' {
        Some((Seq::<char>::empty(), s.skip(1)))
    } else if s[0] == '\\' {
        if s.len() >= 2 {
            match esc_char(s[1]) {
                None => None,
                Some(c) => match take_string_body(s.skip(2)) {
                    None => None,
                    Some(p) => Some((seq![c] + p.0, p.1)),
                },
            }
        } else {
            None
        }
    } else {
        match take_string_body(s.skip(1)) {
            None => None,
            Some(p) => Some((seq![s[0]] + p.0, p.1)),
        }
    }
}

/// A whole string literal, opening quote included.
pub open spec fn take_string(s: Seq<char>) -> Option<(Seq<char>, Seq<char>)> {
    if s.len() > 0 && s[0] == '"' {
        take_string_body(s.skip(1))
    } else {
        None
    }
}

proof fn lemma_take_string_body_rest(s: Seq<char>)
    ensures
        take_string_body(s) matches Some(p) ==> p.1.len() < s.len(),
    decreases s.len(),
{
    if s.len() > 0 {
        if s[0] == '"' {
        } else if s[0] == '\\' {
            if s.len() >= 2 {
                lemma_take_string_body_rest(s.skip(2));
            }
        } else {
            lemma_take_string_body_rest(s.skip(1));
        }
    }
}

proof fn lemma_take_string_rest(s: Seq<char>)
    ensures
        take_string(s) matches Some(p) ==> p.1.len() < s.len(),
{
    if s.len() > 0 && s[0] == '"' {
        lemma_take_string_body_rest(s.skip(1));
    }
}

/// A character of an unread scalar token: digits, letters, sign, dot.
pub open spec fn is_scalar_char(c: char) -> bool {
    ('0' as u32 <= c as u32 && c as u32 <= '9' as u32) || ('a' as u32 <= c as u32 && c as u32
        <= 'z' as u32) || ('A' as u32 <= c as u32 && c as u32 <= 'Z' as u32) || c == '-' || c == '+'
        || c == '.'
}

/// The input with a leading scalar token dropped.
pub open spec fn skip_scalar(s: Seq<char>) -> Seq<char>
    decreases s.len(),
{
    if s.len() > 0 && is_scalar_char(s[0]) {
        skip_scalar(s.skip(1))
    } else {
        s
    }
}

proof fn lemma_skip_scalar_len(s: Seq<char>)
    ensures
        skip_scalar(s).len() <= s.len(),
    decreases s.len(),
{
    if s.len() > 0 && is_scalar_char(s[0]) {
        lemma_skip_scalar_len(s.skip(1));
    }
}

/// The items of a string array, after its opening bracket (non-empty case).
pub open spec fn take_list_items(s: Seq<char>) -> Option<(Seq<Seq<char>>, Seq<char>)>
    decreases s.len(),
    via take_list_items_decreases
{
    match take_string(skip_ws(s)) {
        None => None,
        Some(p) => {
            let r = skip_ws(p.1);
            if r.len() > 0 && r[0] == ',' {
                match take_list_items(r.skip(1)) {
                    None => None,
                    Some(q) => Some((seq![p.0] + q.0, q.1)),
                }
            } else if r.len() > 0 && r[0] == ']' {
                Some((seq![p.0], r.skip(1)))
            } else {
                None
            }
        },
    }
}

#[via_fn]
proof fn take_list_items_decreases(s: Seq<char>) {
    lemma_skip_ws_len(s);
    lemma_take_string_rest(skip_ws(s));
    match take_string(skip_ws(s)) {
        None => {},
        Some(p) => {
            lemma_skip_ws_len(p.1);
        },
    }
}

/// One value: a string, an array of strings, or an unread scalar.
pub open spec fn take_value(s: Seq<char>) -> Option<(JsonValueView, Seq<char>)> {
    if s.len() > 0 && s[0] == '"' {
        match take_string(s) {
            None => None,
            Some(p) => Some((JsonValueView::Str(p.0), p.1)),
        }
    } else if s.len() > 0 && s[0] == '[' {
        let r = skip_ws(s.skip(1));
        if r.len() > 0 && r[0] == ']' {
            Some((JsonValueView::StrList(Seq::<Seq<char>>::empty()), r.skip(1)))
        } else {
            match take_list_items(s.skip(1)) {
                None => None,
                Some(p) => Some((JsonValueView::StrList(p.0), p.1)),
            }
        }
    } else {
        if skip_scalar(s).len() < s.len() {
            Some((JsonValueView::Scalar, skip_scalar(s)))
        } else {
            None
        }
    }
}

proof fn lemma_take_list_items_rest(s: Seq<char>)
    ensures
        take_list_items(s) matches Some(p) ==> p.1.len() < s.len(),
    decreases s.len(),
{
    lemma_skip_ws_len(s);
    lemma_take_string_rest(skip_ws(s));
    match take_string(skip_ws(s)) {
        None => {},
        Some(p) => {
            lemma_skip_ws_len(p.1);
            let r = skip_ws(p.1);
            if r.len() > 0 && r[0] == ',' {
                lemma_take_list_items_rest(r.skip(1));
            }
        },
    }
}

proof fn lemma_take_value_rest(s: Seq<char>)
    ensures
        take_value(s) matches Some(p) ==> p.1.len() < s.len(),
{
    lemma_take_string_rest(s);
    lemma_skip_scalar_len(s);
    if s.len() > 0 && s[0] == '[' {
        lemma_skip_ws_len(s.skip(1));
        lemma_take_list_items_rest(s.skip(1));
    }
}

/// The members of an object, after its opening brace (non-empty case).
pub open spec fn take_members(s: Seq<char>) -> Option<
    (Seq<(Seq<char>, JsonValueView)>, Seq<char>),
>
    decreases s.len(),
    via take_members_decreases
{
    match take_string(skip_ws(s)) {
        None => None,
        Some(k) => {
            let r = skip_ws(k.1);
            if r.len() > 0 && r[0] == ':' {
                match take_value(skip_ws(r.skip(1))) {
                    None => None,
                    Some(v) => {
                        let r2 = skip_ws(v.1);
                        if r2.len() > 0 && r2[0] == ',' {
                            match take_members(r2.skip(1)) {
                                None => None,
                                Some(q) => Some((seq![(k.0, v.0)] + q.0, q.1)),
                            }
                        } else if r2.len() > 0 && r2[0] == '}' {
                            Some((seq![(k.0, v.0)], r2.skip(1)))
                        } else {
                            None
                        }
                    },
                }
            } else {
                None
            }
        },
    }
}

#[via_fn]
proof fn take_members_decreases(s: Seq<char>) {
    lemma_skip_ws_len(s);
    lemma_take_string_rest(skip_ws(s));
    match take_string(skip_ws(s)) {
        None => {},
        Some(k) => {
            lemma_skip_ws_len(k.1);
            let r = skip_ws(k.1);
            if r.len() > 0 && r[0] == ':' {
                lemma_skip_ws_len(r.skip(1));
                lemma_take_value_rest(skip_ws(r.skip(1)));
                match take_value(skip_ws(r.skip(1))) {
                    None => {},
                    Some(v) => {
                        lemma_skip_ws_len(v.1);
                    },
                }
            }
        },
    }
}

/// The whole payload: one object, with nothing but whitespace around it.
pub open spec fn spec_parse_object(s: Seq<char>) -> Option<Seq<(Seq<char>, JsonValueView)>> {
    let r = skip_ws(s);
    if r.len() > 0 && r[0] == '{' {
        let inner = skip_ws(r.skip(1));
        if inner.len() > 0 && inner[0] == '}' {
            if skip_ws(inner.skip(1)).len() == 0 {
                Some(Seq::<(Seq<char>, JsonValueView)>::empty())
            } else {
                None
            }
        } else {
            match take_members(r.skip(1)) {
                None => None,
                Some(p) => if skip_ws(p.1).len() == 0 {
                    Some(p.0)
                } else {
                    None
                },
            }
        }
    } else {
        None
    }
}

/// The first value stored under `key`, if any.
pub open spec fn spec_lookup(ms: Seq<(Seq<char>, JsonValueView)>, key: Seq<char>) -> Option<
    JsonValueView,
>
    decreases ms.len(),
{
    if ms.len() == 0 {
        None
    } else if ms[0].0 == key {
        Some(ms[0].1)
    } else {
        spec_lookup(ms.skip(1), key)
    }
}

/// The members of a parsed object, as the specification sees them.
pub open spec fn members_view(ms: Seq<(String, JsonValue)>) -> Seq<(Seq<char>, JsonValueView)> {
    ms.map_values(|p: (String, JsonValue)| (p.0@, p.1@))
}

// ---------------------------------------------------------------------------
// Executable parser
// ---------------------------------------------------------------------------
fn skip_ws_at(s: &str, i: usize) -> (j: usize)
    requires
        i <= s@.len(),
    ensures
        i <= j <= s@.len(),
        skip_ws(s@.skip(i as int)) == s@.skip(j as int),
    decreases s@.len() - i,
{
    proof {
        if i < s@.len() {
            assert(s@.skip(i as int)[0] == s@[i as int]);
            assert(s@.skip(i as int).skip(1) =~= s@.skip(i + 1 as int));
        }
    }
    if i < s.unicode_len() {
        let c = s.get_char(i);
        if c == ' ' || c == '\t' || c == '\n' || c == '\r' {
            return skip_ws_at(s, i + 1);
        }
    }
    i
}

fn esc_char_at(c: char) -> (r: Option<char>)
    ensures
        r == esc_char(c),
{
    if c == '"' {
        Some('"')
    } else if c == '\\' {
        Some('\\')
    } else if c == '/' {
        Some('/')
    } else if c == 'n' {
        Some('\n')
    } else if c == 't' {
        Some('\t')
    } else if c == 'r' {
        Some('\r')
    } else {
        None
    }
}

fn take_string_body_at(s: &str, i: usize) -> (r: Option<(Vec<char>, usize)>)
    requires
        i <= s@.len(),
    ensures
        match r {
            Some((f, j)) => i <= j <= s@.len() && take_string_body(s@.skip(i as int)) == Some(
                (f@, s@.skip(j as int)),
            ),
            None => take_string_body(s@.skip(i as int)) is None,
        },
    decreases s@.len() - i,
{
    proof {
        if i < s@.len() {
            assert(s@.skip(i as int)[0] == s@[i as int]);
            assert(s@.skip(i as int).skip(1) =~= s@.skip(i + 1 as int));
            if i + 2 <= s@.len() {
                assert(s@.skip(i as int).skip(2) =~= s@.skip(i + 2 as int));
            }
            if i + 1 < s@.len() {
                assert(s@.skip(i as int)[1] == s@[i + 1 as int]);
            }
        }
    }
    let n = s.unicode_len();
    if i == n {
        None
    } else {
        let c = s.get_char(i);
        if c == '"' {
            Some((Vec::new(), i + 1))
        } else if c == '\\' {
            if i + 1 < n {
                match esc_char_at(s.get_char(i + 1)) {
                    None => None,
                    Some(e) => {
                        match take_string_body_at(s, i + 2) {
                            None => None,
                            Some((mut f, j)) => {
                                f.insert(0, e);
                                proof {
                                    assert(f@ =~= seq![f@[0]] + f@.skip(1));
                                }
                                Some((f, j))
                            },
                        }
                    },
                }
            } else {
                None
            }
        } else {
            match take_string_body_at(s, i + 1) {
                None => None,
                Some((mut f, j)) => {
                    f.insert(0, c);
                    proof {
                        assert(f@ =~= seq![s@[i as int]] + f@.skip(1));
                    }
                    Some((f, j))
                },
            }
        }
    }
}

fn take_string_at(s: &str, i: usize) -> (r: Option<(String, usize)>)
    requires
        i <= s@.len(),
    ensures
        match r {
            Some((f, j)) => i < j <= s@.len() && take_string(s@.skip(i as int)) == Some(
                (f@, s@.skip(j as int)),
            ),
            None => take_string(s@.skip(i as int)) is None,
        },
{
    proof {
        if i < s@.len() {
            assert(s@.skip(i as int)[0] == s@[i as int]);
            assert(s@.skip(i as int).skip(1) =~= s@.skip(i + 1 as int));
        }
        lemma_take_string_rest(s@.skip(i as int));
    }
    if i < s.unicode_len() && s.get_char(i) == '"' {
        match take_string_body_at(s, i + 1) {
            None => None,
            Some((f, j)) => Some((chars_to_string(&f), j)),
        }
    } else {
        None
    }
}

fn skip_scalar_at(s: &str, i: usize) -> (j: usize)
    requires
        i <= s@.len(),
    ensures
        i <= j <= s@.len(),
        skip_scalar(s@.skip(i as int)) == s@.skip(j as int),
    decreases s@.len() - i,
{
    proof {
        if i < s@.len() {
            assert(s@.skip(i as int)[0] == s@[i as int]);
            assert(s@.skip(i as int).skip(1) =~= s@.skip(i + 1 as int));
        }
    }
    if i < s.unicode_len() {
        let c = s.get_char(i);
        let u = c as u32;
        let digit = '0' as u32 <= u && u <= '9' as u32;
        let lower = 'a' as u32 <= u && u <= 'z' as u32;
        let upper = 'A' as u32 <= u && u <= 'Z' as u32;
        if digit || lower || upper || c == '-' || c == '+' || c == '.' {
            return skip_scalar_at(s, i + 1);
        }
    }
    i
}

fn take_list_items_at(s: &str, i: usize) -> (r: Option<(Vec<String>, usize)>)
    requires
        i <= s@.len(),
    ensures
        match r {
            Some((items, j)) => i <= j <= s@.len() && (take_list_items(s@.skip(i as int)) matches
                Some(p) && p.1 == s@.skip(j as int) && items@.len() == p.0.len() && (forall|k: int|
                0 <= k < items@.len() ==> items@[k]@ == p.0[k])),
            None => take_list_items(s@.skip(i as int)) is None,
        },
    decreases s@.len() - i,
{
    let a = skip_ws_at(s, i);
    match take_string_at(s, a) {
        None => None,
        Some((item, b)) => {
            let c = skip_ws_at(s, b);
            proof {
                if c < s@.len() {
                    assert(s@.skip(c as int)[0] == s@[c as int]);
                    assert(s@.skip(c as int).skip(1) =~= s@.skip(c + 1 as int));
                }
            }
            if c < s.unicode_len() && s.get_char(c) == ',' {
                match take_list_items_at(s, c + 1) {
                    None => None,
                    Some((mut items, j)) => {
                        items.insert(0, item);
                        Some((items, j))
                    },
                }
            } else if c < s.unicode_len() && s.get_char(c) == ']' {
                let mut items: Vec<String> = Vec::new();
                items.push(item);
                Some((items, c + 1))
            } else {
                None
            }
        },
    }
}

fn take_value_at(s: &str, i: usize) -> (r: Option<(JsonValue, usize)>)
    requires
        i <= s@.len(),
    ensures
        match r {
            Some((v, j)) => i <= j <= s@.len() && take_value(s@.skip(i as int)) == Some(
                (v@, s@.skip(j as int)),
            ),
            None => take_value(s@.skip(i as int)) is None,
        },
{
    proof {
        if i < s@.len() {
            assert(s@.skip(i as int)[0] == s@[i as int]);
            assert(s@.skip(i as int).skip(1) =~= s@.skip(i + 1 as int));
        }
    }
    let n = s.unicode_len();
    if i < n && s.get_char(i) == '"' {
        match take_string_at(s, i) {
            None => None,
            Some((f, j)) => Some((JsonValue::Str(f), j)),
        }
    } else if i < n && s.get_char(i) == '[' {
        let a = skip_ws_at(s, i + 1);
        proof {
            if a < s@.len() {
                assert(s@.skip(a as int)[0] == s@[a as int]);
                assert(s@.skip(a as int).skip(1) =~= s@.skip(a + 1 as int));
            }
        }
        if a < n && s.get_char(a) == ']' {
            let items: Vec<String> = Vec::new();
            let v = JsonValue::StrList(items);
            proof {
                assert(v@ == JsonValueView::StrList(Seq::<Seq<char>>::empty())) by {
                    assert(Seq::<String>::empty().map_values(|x: String| x@)
                        =~= Seq::<Seq<char>>::empty());
                }
            }
            Some((v, a + 1))
        } else {
            match take_list_items_at(s, i + 1) {
                None => None,
                Some((items, j)) => {
                    let ghost p = take_list_items(s@.skip(i + 1 as int)).unwrap();
                    let v = JsonValue::StrList(items);
                    proof {
                        assert(v@ == JsonValueView::StrList(p.0)) by {
                            assert(items@.map_values(|x: String| x@) =~= p.0);
                        }
                    }
                    Some((v, j))
                },
            }
        }
    } else {
        let j = skip_scalar_at(s, i);
        if j > i {
            Some((JsonValue::Scalar, j))
        } else {
            proof {
                assert(s@.skip(j as int).len() == s@.skip(i as int).len());
            }
            None
        }
    }
}

fn take_members_at(s: &str, i: usize) -> (r: Option<(Vec<(String, JsonValue)>, usize)>)
    requires
        i <= s@.len(),
    ensures
        match r {
            Some((ms, j)) => i <= j <= s@.len() && (take_members(s@.skip(i as int)) matches Some(p)
                && p.1 == s@.skip(j as int) && members_view(ms@) == p.0),
            None => take_members(s@.skip(i as int)) is None,
        },
    decreases s@.len() - i,
{
    let a = skip_ws_at(s, i);
    match take_string_at(s, a) {
        None => None,
        Some((key, b)) => {
            let c = skip_ws_at(s, b);
            proof {
                if c < s@.len() {
                    assert(s@.skip(c as int)[0] == s@[c as int]);
                    assert(s@.skip(c as int).skip(1) =~= s@.skip(c + 1 as int));
                }
            }
            if c < s.unicode_len() && s.get_char(c) == ':' {
                let d = skip_ws_at(s, c + 1);
                proof {
                    lemma_take_value_rest(s@.skip(d as int));
                }
                match take_value_at(s, d) {
                    None => None,
                    Some((v, e)) => {
                        let g = skip_ws_at(s, e);
                        proof {
                            if g < s@.len() {
                                assert(s@.skip(g as int)[0] == s@[g as int]);
                                assert(s@.skip(g as int).skip(1) =~= s@.skip(g + 1 as int));
                            }
                        }
                        if g < s.unicode_len() && s.get_char(g) == ',' {
                            match take_members_at(s, g + 1) {
                                None => None,
                                Some((mut ms, j)) => {
                                    let ghost tail_view = members_view(ms@);
                                    ms.insert(0, (key, v));
                                    proof {
                                        assert(members_view(ms@) =~= seq![(ms@[0].0@, ms@[0].1@)]
                                            + tail_view);
                                    }
                                    Some((ms, j))
                                },
                            }
                        } else if g < s.unicode_len() && s.get_char(g) == '}' {
                            let mut ms: Vec<(String, JsonValue)> = Vec::new();
                            ms.push((key, v));
                            proof {
                                assert(members_view(ms@) =~= seq![(ms@[0].0@, ms@[0].1@)]);
                            }
                            Some((ms, g + 1))
                        } else {
                            None
                        }
                    },
                }
            } else {
                None
            }
        },
    }
}

/// Parses a flat JSON object into its members, in order of appearance.
pub fn parse_object(s: &str) -> (r: Option<Vec<(String, JsonValue)>>)
    ensures
        match r {
            Some(ms) => spec_parse_object(s@) == Some(members_view(ms@)),
            None => spec_parse_object(s@) is None,
        },
{
    proof {
        assert(s@.skip(0) =~= s@);
    }
    let a = skip_ws_at(s, 0);
    proof {
        if a < s@.len() {
            assert(s@.skip(a as int)[0] == s@[a as int]);
            assert(s@.skip(a as int).skip(1) =~= s@.skip(a + 1 as int));
        }
    }
    if a < s.unicode_len() && s.get_char(a) == '{' {
        let b = skip_ws_at(s, a + 1);
        proof {
            if b < s@.len() {
                assert(s@.skip(b as int)[0] == s@[b as int]);
                assert(s@.skip(b as int).skip(1) =~= s@.skip(b + 1 as int));
            }
        }
        if b < s.unicode_len() && s.get_char(b) == '}' {
            let c = skip_ws_at(s, b + 1);
            if c == s.unicode_len() {
                let ms: Vec<(String, JsonValue)> = Vec::new();
                proof {
                    assert(members_view(ms@) =~= Seq::<(Seq<char>, JsonValueView)>::empty());
                }
                Some(ms)
            } else {
                None
            }
        } else {
            match take_members_at(s, a + 1) {
                None => None,
                Some((ms, j)) => {
                    let c = skip_ws_at(s, j);
                    if c == s.unicode_len() {
                        Some(ms)
                    } else {
                        None
                    }
                },
            }
        }
    } else {
        None
    }
}

fn lookup_at<'a>(ms: &'a Vec<(String, JsonValue)>, key: &str, i: usize) -> (r: Option<
    &'a JsonValue,
>)
    requires
        i <= ms@.len(),
    ensures
        match r {
            Some(v) => spec_lookup(members_view(ms@).skip(i as int), key@) == Some(v@),
            None => spec_lookup(members_view(ms@).skip(i as int), key@) is None,
        },
    decreases ms@.len() - i,
{
    proof {
        if i < ms@.len() {
            assert(members_view(ms@).skip(i as int)[0] == members_view(ms@)[i as int]);
            assert(members_view(ms@).skip(i as int).skip(1) =~= members_view(ms@).skip(
                i + 1 as int,
            ));
        }
    }
    if i == ms.len() {
        None
    } else if crate::text::str_eq(ms[i].0.as_str(), key) {
        Some(&ms[i].1)
    } else {
        lookup_at(ms, key, i + 1)
    }
}

/// The first value stored under `key` in a parsed object.
pub fn lookup<'a>(ms: &'a Vec<(String, JsonValue)>, key: &str) -> (r: Option<&'a JsonValue>)
    ensures
        match r {
            Some(v) => spec_lookup(members_view(ms@), key@) == Some(v@),
            None => spec_lookup(members_view(ms@), key@) is None,
        },
{
    proof {
        assert(members_view(ms@).skip(0) =~= members_view(ms@));
    }
    lookup_at(ms, key, 0)
}

// ---------------------------------------------------------------------------
// Serializing: string escaping
// ---------------------------------------------------------------------------
/// A string as it stands inside a JSON string literal: quotes, backslashes
/// and the control characters this engine may meet are escaped.
pub open spec fn json_escaped(s: Seq<char>) -> Seq<char>
    decreases s.len(),
{
    if s.len() == 0 {
        Seq::<char>::empty()
    } else {
        escaped_char(s[0]) + json_escaped(s.skip(1))
    }
}

/// One character as it stands inside a JSON string literal.
pub open spec fn escaped_char(c: char) -> Seq<char> {
    if c == '"' {
        seq!['\\', '"']
    } else if c == '\\' {
        seq!['\\', '\\']
    } else if c == '\n' {
        seq!['\\', 'n']
    } else if c == '\t' {
        seq!['\\', 't']
    } else if c == '\r' {
        seq!['\\', 'r']
    } else {
        seq![c]
    }
}

proof fn lemma_json_escaped_push(s: Seq<char>, c: char)
    ensures
        json_escaped(s.push(c)) =~= json_escaped(s) + escaped_char(c),
    decreases s.len(),
{
    if s.len() == 0 {
        assert(s.push(c)[0] == c);
        assert(s.push(c).skip(1) =~= Seq::<char>::empty());
        assert(json_escaped(s.push(c)) =~= escaped_char(c) + json_escaped(s.push(c).skip(1)));
    } else {
        assert(s.push(c)[0] == s[0]);
        assert(s.push(c).skip(1) =~= s.skip(1).push(c));
        lemma_json_escaped_push(s.skip(1), c);
        assert(json_escaped(s.push(c)) =~= escaped_char(s[0]) + json_escaped(s.push(c).skip(1)));
        assert(json_escaped(s) =~= escaped_char(s[0]) + json_escaped(s.skip(1)));
    }
}

/// Escapes a string for inclusion in a JSON string literal.
pub fn json_escape(s: &str) -> (r: String)
    ensures
        r@ == json_escaped(s@),
{
    let n = s.unicode_len();
    let mut r = String::new();
    let mut i: usize = 0;
    proof {
        assert(s@.subrange(0, 0) =~= Seq::<char>::empty());
        assert(r@ =~= json_escaped(s@.subrange(0, 0)));
    }
    while i < n
        invariant
            i <= n,
            n == s@.len(),
            r@ == json_escaped(s@.subrange(0, i as int)),
        decreases n - i,
    {
        let c = s.get_char(i);
        if c == '"' {
            push_char(&mut r, '\\');
            push_char(&mut r, '"');
        } else if c == '\\' {
            push_char(&mut r, '\\');
            push_char(&mut r, '\\');
        } else if c == '\n' {
            push_char(&mut r, '\\');
            push_char(&mut r, 'n');
        } else if c == '\t' {
            push_char(&mut r, '\\');
            push_char(&mut r, 't');
        } else if c == '\r' {
            push_char(&mut r, '\\');
            push_char(&mut r, 'r');
        } else {
            push_char(&mut r, c);
        }
        i = i + 1;
        proof {
            assert(s@.subrange(0, i as int) =~= s@.subrange(0, i - 1 as int).push(
                s@[i - 1 as int],
            ));
            lemma_json_escaped_push(s@.subrange(0, i - 1 as int), s@[i - 1 as int]);
            assert(r@ =~= json_escaped(s@.subrange(0, i as int)));
        }
    }
    proof {
        assert(s@.subrange(0, n as int) =~= s@);
    }
    r
}

} // verus!
