//! Character-level helpers shared by the topic, SmartREST and JSON codecs.

use vstd::multiset::Multiset;
use vstd::prelude::*;
use vstd::string::*;

verus! {

/// How a single character of a config type tag appears in a file name:
/// `/` is the path separator and is rewritten to `:`.
pub open spec fn sanitize_char(c: char) -> char {
    if c == '/' {
        ':'
    } else {
        c
    }
}

/// A config type tag as it appears in a file name: every `/` becomes `:`.
pub open spec fn sanitize_seq(s: Seq<char>) -> Seq<char> {
    s.map_values(|c: char| sanitize_char(c))
}

/// No file name derived from a config type tag contains the path separator.
pub proof fn lemma_sanitize_no_slash(s: Seq<char>)
    ensures
        forall|i: int| 0 <= i < sanitize_seq(s).len() ==> sanitize_seq(s)[i] != '/',
{
}

/// Relies on std's `String::push`: appends exactly one character.
#[verifier::external_body]
pub(crate) fn push_char(s: &mut String, c: char)
    ensures
        final(s)@ == old(s)@.push(c),
{
    s.push(c);
}

/// Rewrites `/` to `:` in a config type tag, so that the tag can stand in a
/// single file name.
pub fn sanitize_type_tag(s: &str) -> (r: String)
    ensures
        r@ == sanitize_seq(s@),
{
    let n = s.unicode_len();
    let mut r = String::new();
    let mut i: usize = 0;
    while i < n
        invariant
            i <= n,
            n == s@.len(),
            r@ == sanitize_seq(s@.subrange(0, i as int)),
        decreases n - i,
    {
        let c = s.get_char(i);
        if c == '/' {
            push_char(&mut r, ':');
        } else {
            push_char(&mut r, c);
        }
        i = i + 1;
        assert(r@ =~= sanitize_seq(s@.subrange(0, i as int)));
    }
    assert(s@.subrange(0, n as int) =~= s@);
    r
}

/// Whether two string slices hold the same characters.
pub fn str_eq(a: &str, b: &str) -> (r: bool)
    ensures
        r == (a@ == b@),
{
    let na = a.unicode_len();
    let nb = b.unicode_len();
    if na != nb {
        return false;
    }
    let mut i: usize = 0;
    while i < na
        invariant
            i <= na,
            na == a@.len(),
            na == b@.len(),
            forall|j: int| 0 <= j < i ==> a@[j] == b@[j],
        decreases na - i,
    {
        if a.get_char(i) != b.get_char(i) {
            return false;
        }
        i = i + 1;
    }
    proof {
        assert(a@ =~= b@);
    }
    true
}

/// Lexicographic order on character sequences, by code point; the order in
/// which supported config types are listed.
pub open spec fn lex_le(a: Seq<char>, b: Seq<char>) -> bool
    decreases a.len(),
{
    if a.len() == 0 {
        true
    } else if b.len() == 0 {
        false
    } else if (a[0] as u32) < (b[0] as u32) {
        true
    } else if (a[0] as u32) == (b[0] as u32) {
        lex_le(a.skip(1), b.skip(1))
    } else {
        false
    }
}

pub proof fn lemma_lex_le_refl(a: Seq<char>)
    ensures
        lex_le(a, a),
    decreases a.len(),
{
    if a.len() > 0 {
        lemma_lex_le_refl(a.skip(1));
    }
}

/// Any two character sequences are ordered one way or the other.
pub proof fn lemma_lex_le_total(a: Seq<char>, b: Seq<char>)
    ensures
        lex_le(a, b) || lex_le(b, a),
    decreases a.len(),
{
    if a.len() > 0 && b.len() > 0 && (a[0] as u32) == (b[0] as u32) {
        lemma_lex_le_total(a.skip(1), b.skip(1));
    }
}

pub proof fn lemma_lex_le_trans(a: Seq<char>, b: Seq<char>, c: Seq<char>)
    requires
        lex_le(a, b),
        lex_le(b, c),
    ensures
        lex_le(a, c),
    decreases a.len(),
{
    if a.len() > 0 {
        if (a[0] as u32) == (b[0] as u32) && (b[0] as u32) == (c[0] as u32) {
            lemma_lex_le_trans(a.skip(1), b.skip(1), c.skip(1));
        }
    }
}

/// Equal prefixes do not decide the order: it is decided by the remainders.
proof fn lemma_lex_le_skip(a: Seq<char>, b: Seq<char>, i: int)
    requires
        0 <= i <= a.len(),
        i <= b.len(),
        forall|j: int| 0 <= j < i ==> a[j] == b[j],
    ensures
        lex_le(a, b) == lex_le(a.skip(i), b.skip(i)),
    decreases i,
{
    if i > 0 {
        assert(a[0] == b[0]);
        assert(a.skip(1).skip(i - 1) =~= a.skip(i));
        assert(b.skip(1).skip(i - 1) =~= b.skip(i));
        assert(forall|j: int| 0 <= j < i - 1 ==> a.skip(1)[j] == b.skip(1)[j]);
        lemma_lex_le_skip(a.skip(1), b.skip(1), i - 1);
    } else {
        assert(a.skip(0) =~= a);
        assert(b.skip(0) =~= b);
    }
}

/// Compares two string slices in lexicographic code-point order.
pub fn str_lex_le(a: &str, b: &str) -> (r: bool)
    ensures
        r == lex_le(a@, b@),
{
    let na = a.unicode_len();
    let nb = b.unicode_len();
    let n = if na < nb {
        na
    } else {
        nb
    };
    let mut i: usize = 0;
    while i < n
        invariant
            i <= n,
            na == a@.len(),
            nb == b@.len(),
            n == if na < nb {
                na
            } else {
                nb
            },
            forall|j: int| 0 <= j < i ==> a@[j] == b@[j],
        decreases n - i,
    {
        let ca = a.get_char(i);
        let cb = b.get_char(i);
        if ca != cb {
            proof {
                lemma_lex_le_skip(a@, b@, i as int);
                assert(a@.skip(i as int)[0] == a@[i as int]);
                assert(b@.skip(i as int)[0] == b@[i as int]);
            }
            return (ca as u32) < (cb as u32);
        }
        i = i + 1;
    }
    proof {
        lemma_lex_le_skip(a@, b@, n as int);
        if na <= nb {
            assert(a@.skip(n as int).len() == 0);
        } else {
            assert(b@.skip(n as int).len() == 0);
            assert(a@.skip(n as int).len() > 0);
        }
    }
    na <= nb
}

/// Collects characters into a `String`.
pub fn chars_to_string(v: &Vec<char>) -> (r: String)
    ensures
        r@ == v@,
{
    let mut r = String::new();
    let mut i: usize = 0;
    while i < v.len()
        invariant
            i <= v@.len(),
            r@ == v@.subrange(0, i as int),
        decreases v@.len() - i,
    {
        push_char(&mut r, v[i]);
        i = i + 1;
        assert(r@ =~= v@.subrange(0, i as int));
    }
    assert(v@.subrange(0, v@.len() as int) =~= v@);
    r
}

/// The lexicographic order as a relation value.
pub open spec fn lex_leq_fn() -> spec_fn(Seq<char>, Seq<char>) -> bool {
    |a: Seq<char>, b: Seq<char>| lex_le(a, b)
}

/// Equal code points are the same character.
proof fn lemma_char_cast_injective(a: char, b: char)
    requires
        a as u32 == b as u32,
    ensures
        a == b,
{
}

/// Two sequences each at or below the other are equal.
pub proof fn lemma_lex_le_antisym(a: Seq<char>, b: Seq<char>)
    requires
        lex_le(a, b),
        lex_le(b, a),
    ensures
        a == b,
    decreases a.len(),
{
    if a.len() > 0 {
        assert(b.len() > 0);
        assert(a[0] as u32 == b[0] as u32);
        lemma_char_cast_injective(a[0], b[0]);
        lemma_lex_le_antisym(a.skip(1), b.skip(1));
        assert(a =~= seq![a[0]] + a.skip(1));
        assert(b =~= seq![b[0]] + b.skip(1));
    } else {
        assert(b.len() == 0);
        assert(a =~= b);
    }
}

/// The lexicographic order is a total order.
pub proof fn lemma_lex_total_ordering()
    ensures
        vstd::relations::total_ordering(lex_leq_fn()),
{
    let leq = lex_leq_fn();
    assert forall|a: Seq<char>| #[trigger] leq(a, a) by {
        lemma_lex_le_refl(a);
    }
    assert forall|a: Seq<char>, b: Seq<char>| #[trigger] leq(a, b) && #[trigger] leq(b, a)
        implies a == b by {
        lemma_lex_le_antisym(a, b);
    }
    assert forall|a: Seq<char>, b: Seq<char>, c: Seq<char>|
        #[trigger] leq(a, b) && #[trigger] leq(b, c) implies leq(a, c) by {
        lemma_lex_le_trans(a, b, c);
    }
    assert forall|a: Seq<char>, b: Seq<char>| #[trigger] leq(a, b) || #[trigger] leq(b, a) by {
        lemma_lex_le_total(a, b);
    }
}

/// The views of a list of strings.
pub open spec fn views_of(v: Seq<String>) -> Seq<Seq<char>> {
    v.map_values(|t: String| t@)
}

/// Sorts strings into ascending lexicographic order, keeping duplicates: the
/// result is exactly the input sequence sorted by [`lex_le`].
pub fn sort_strings(v: Vec<String>) -> (r: Vec<String>)
    ensures
        views_of(r@) == views_of(v@).sort_by(lex_leq_fn()),
        forall|i: int, j: int| 0 <= i < j < r@.len() ==> lex_le(r@[i]@, r@[j]@),
{
    let mut src = v;
    let mut out: Vec<String> = Vec::new();
    let ghost v_ms = views_of(src@).to_multiset();
    proof {
        broadcast use vstd::seq_lib::group_to_multiset_ensures;
        broadcast use vstd::multiset::group_multiset_axioms;

        assert(views_of(out@).to_multiset().add(views_of(src@).to_multiset()) =~= views_of(
            src@,
        ).to_multiset());
    }
    while src.len() > 0
        invariant
            views_of(out@).to_multiset().add(views_of(src@).to_multiset()) == v_ms,
            forall|i: int, j: int| 0 <= i < j < out@.len() ==> lex_le(out@[i]@, out@[j]@),
            forall|i: int, j: int|
                0 <= i < out@.len() && 0 <= j < src@.len() ==> lex_le(out@[i]@, src@[j]@),
        decreases src@.len(),
    {
        let mut m: usize = 0;
        let mut k: usize = 1;
        proof {
            lemma_lex_le_refl(src@[0]@);
        }
        while k < src.len()
            invariant
                m < k <= src@.len(),
                forall|j: int| 0 <= j < k ==> lex_le(src@[m as int]@, src@[j]@),
            decreases src@.len() - k,
        {
            if str_lex_le(src[k].as_str(), src[m].as_str()) {
                proof {
                    assert forall|j: int| 0 <= j < k + 1 implies lex_le(
                        src@[k as int]@,
                        src@[j]@,
                    ) by {
                        if j < k {
                            lemma_lex_le_trans(src@[k as int]@, src@[m as int]@, src@[j]@);
                        } else {
                            lemma_lex_le_refl(src@[k as int]@);
                        }
                    }
                }
                m = k;
            } else {
                proof {
                    lemma_lex_le_total(src@[k as int]@, src@[m as int]@);
                }
            }
            k = k + 1;
        }
        let ghost old_src = src@;
        let ghost old_out = out@;
        let x = src.remove(m);
        out.push(x);
        proof {
            broadcast use vstd::seq_lib::group_to_multiset_ensures;
            broadcast use vstd::multiset::group_multiset_axioms;

            assert(views_of(out@) =~= views_of(old_out).push(old_src[m as int]@));
            assert(views_of(src@) =~= views_of(old_src).remove(m as int));
            assert(views_of(old_src).contains(views_of(old_src)[m as int]));
            assert(views_of(old_src).to_multiset().count(views_of(old_src)[m as int]) > 0);
            assert(views_of(out@).to_multiset() =~= views_of(old_out).to_multiset().insert(
                old_src[m as int]@,
            ));
            assert(views_of(src@).to_multiset() =~= views_of(old_src).to_multiset().remove(
                old_src[m as int]@,
            ));
            assert(views_of(out@).to_multiset().add(views_of(src@).to_multiset()) =~= views_of(
                old_out,
            ).to_multiset().add(views_of(old_src).to_multiset()));
            assert forall|i: int, j: int|
                0 <= i < j < out@.len() implies lex_le(out@[i]@, out@[j]@) by {
                if j < out@.len() - 1 {
                    assert(lex_le(old_out[i]@, old_out[j]@));
                }
            }
            assert forall|i: int, j: int|
                0 <= i < out@.len() && 0 <= j < src@.len() implies lex_le(
                out@[i]@,
                src@[j]@,
            ) by {
                assert(src@[j] == if j < m {
                    old_src[j]
                } else {
                    old_src[j + 1]
                });
                if i < out@.len() - 1 {
                    assert(lex_le(old_out[i]@, src@[j]@));
                } else {
                    assert(lex_le(old_src[m as int]@, src@[j]@));
                }
            }
        }
    }
    proof {
        broadcast use vstd::seq_lib::group_to_multiset_ensures;

        lemma_lex_total_ordering();
        let leq = lex_leq_fn();
        views_of(v@).lemma_sort_by_ensures(leq);
        assert(views_of(src@) =~= Seq::<Seq<char>>::empty());
        assert(views_of(src@).to_multiset() =~= Multiset::<Seq<char>>::empty());
        assert(views_of(out@).to_multiset() =~= views_of(out@).to_multiset().add(views_of(
            src@,
        ).to_multiset()));
        assert(vstd::relations::sorted_by(views_of(out@), leq));
        vstd::seq_lib::lemma_sorted_unique(views_of(out@), views_of(v@).sort_by(leq), leq);
        assert(views_of(out@) =~= views_of(v@).sort_by(leq));
    }
    out
}

/// The fields of `s` split at every occurrence of `sep`; always at least one
/// field, and empty fields are kept.
pub open spec fn split_seq(s: Seq<char>, sep: char) -> Seq<Seq<char>>
    decreases s.len(),
{
    if s.len() == 0 {
        seq![Seq::<char>::empty()]
    } else if s[0] == sep {
        seq![Seq::<char>::empty()] + split_seq(s.skip(1), sep)
    } else {
        let r = split_seq(s.skip(1), sep);
        seq![seq![s[0]] + r[0]] + r.skip(1)
    }
}

pub proof fn lemma_split_seq_nonempty(s: Seq<char>, sep: char)
    ensures
        split_seq(s, sep).len() >= 1,
    decreases s.len(),
{
    if s.len() > 0 {
        lemma_split_seq_nonempty(s.skip(1), sep);
    }
}

/// Splits a string at every occurrence of `sep`.
pub fn split_str(s: &str, sep: char) -> (r: Vec<String>)
    ensures
        r@.len() == split_seq(s@, sep).len(),
        forall|k: int| 0 <= k < r@.len() ==> r@[k]@ == split_seq(s@, sep)[k],
{
    let n = s.unicode_len();
    let mut out: Vec<String> = Vec::new();
    let mut cur = String::new();
    let mut i: usize = 0;
    proof {
        lemma_split_seq_nonempty(s@, sep);
        assert(s@.skip(0) =~= s@);
        assert(cur@ + split_seq(s@, sep)[0] =~= split_seq(s@, sep)[0]);
        assert(split_seq(s@, sep) =~~= seq![split_seq(s@, sep)[0]] + split_seq(s@, sep).skip(1));
    }
    while i < n
        invariant
            i <= n,
            n == s@.len(),
            split_seq(s@, sep) =~~= out@.map_values(|f: String| f@) + seq![cur@ + split_seq(
                s@.skip(i as int),
                sep,
            )[0]] + split_seq(s@.skip(i as int), sep).skip(1),
        decreases n - i,
    {
        let c = s.get_char(i);
        proof {
            lemma_split_seq_nonempty(s@.skip(i as int), sep);
            lemma_split_seq_nonempty(s@.skip(i + 1 as int), sep);
            assert(s@.skip(i as int)[0] == s@[i as int]);
            assert(s@.skip(i as int).skip(1) =~= s@.skip(i + 1 as int));
        }
        let ghost prev_out = out@.map_values(|f: String| f@);
        let ghost rest = split_seq(s@.skip(i + 1 as int), sep);
        if c == sep {
            proof {
                assert(split_seq(s@.skip(i as int), sep) =~~= seq![Seq::<char>::empty()] + rest);
                assert(cur@ + Seq::<char>::empty() =~= cur@);
            }
            let ghost cur_view = cur@;
            out.push(cur);
            cur = String::new();
            proof {
                assert(out@.map_values(|f: String| f@) =~~= prev_out + seq![cur_view]);
                assert(cur@ + rest[0] =~= rest[0]);
                assert((seq![Seq::<char>::empty()] + rest).skip(1) =~~= rest);
                assert(rest =~~= seq![rest[0]] + rest.skip(1));
                assert(split_seq(s@, sep) =~~= prev_out + seq![cur_view] + seq![cur@ + rest[0]]
                    + rest.skip(1));
            }
        } else {
            proof {
                assert(split_seq(s@.skip(i as int), sep) =~~= seq![seq![s@[i as int]] + rest[0]]
                    + rest.skip(1));
            }
            let ghost old_cur = cur@;
            push_char(&mut cur, c);
            proof {
                assert(cur@ + rest[0] =~= old_cur + (seq![s@[i as int]] + rest[0]));
                assert(split_seq(s@, sep) =~~= prev_out + seq![cur@ + rest[0]] + rest.skip(1));
            }
        }
        i = i + 1;
    }
    proof {
        assert(s@.skip(n as int).len() == 0);
        assert(split_seq(s@.skip(n as int), sep) =~~= seq![Seq::<char>::empty()]);
        assert(cur@ + Seq::<char>::empty() =~= cur@);
    }
    let ghost prev_out = out@.map_values(|f: String| f@);
    let ghost cur_view = cur@;
    out.push(cur);
    proof {
        assert(out@.map_values(|f: String| f@) =~~= prev_out + seq![cur_view]);
        assert(split_seq(s@, sep) =~~= out@.map_values(|f: String| f@));
    }
    out
}

/// A separator-free string is one whole field.
pub proof fn lemma_split_no_sep(s: Seq<char>, sep: char)
    requires
        !s.contains(sep),
    ensures
        split_seq(s, sep) == seq![s],
    decreases s.len(),
{
    if s.len() > 0 {
        assert(s[0] != sep);
        assert(!s.skip(1).contains(sep)) by {
            if s.skip(1).contains(sep) {
                let i = choose|i: int| 0 <= i < s.skip(1).len() && s.skip(1)[i] == sep;
                assert(s[i + 1] == sep);
            }
        }
        lemma_split_no_sep(s.skip(1), sep);
        assert(split_seq(s, sep) =~~= seq![seq![s[0]] + s.skip(1)]);
        assert(seq![s[0]] + s.skip(1) =~= s);
        assert(split_seq(s, sep) =~~= seq![s]);
    } else {
        assert(s =~= Seq::<char>::empty());
        assert(split_seq(s, sep) =~~= seq![s]);
    }
}

/// Splitting starts over after the first separator, once the separator-free
/// head is taken as the first field.
pub proof fn lemma_split_append(a: Seq<char>, b: Seq<char>, sep: char)
    requires
        !a.contains(sep),
    ensures
        split_seq(a + seq![sep] + b, sep) == seq![a] + split_seq(b, sep),
    decreases a.len(),
{
    let full = a + seq![sep] + b;
    if a.len() == 0 {
        assert(full[0] == sep);
        assert(full.skip(1) =~= b);
        assert(split_seq(full, sep) =~~= seq![Seq::<char>::empty()] + split_seq(b, sep));
        assert(split_seq(full, sep) =~~= seq![a] + split_seq(b, sep));
    } else {
        assert(a[0] != sep);
        assert(full[0] == a[0]);
        assert(!a.skip(1).contains(sep)) by {
            if a.skip(1).contains(sep) {
                let i = choose|i: int| 0 <= i < a.skip(1).len() && a.skip(1)[i] == sep;
                assert(a[i + 1] == sep);
            }
        }
        assert(full.skip(1) =~= a.skip(1) + seq![sep] + b);
        lemma_split_append(a.skip(1), b, sep);
        lemma_split_seq_nonempty(a.skip(1) + seq![sep] + b, sep);
        let r = split_seq(a.skip(1) + seq![sep] + b, sep);
        assert(r == seq![a.skip(1)] + split_seq(b, sep));
        assert(r[0] =~= a.skip(1));
        assert(split_seq(full, sep) =~~= seq![seq![a[0]] + r[0]] + r.skip(1));
        assert(seq![a[0]] + a.skip(1) =~= a);
        assert(r.skip(1) =~~= split_seq(b, sep));
        assert(split_seq(full, sep) =~~= seq![a] + split_seq(b, sep));
    }
}

/// The items joined with `sep` between each pair; empty for no items.
pub open spec fn join_seq(items: Seq<Seq<char>>, sep: char) -> Seq<char>
    decreases items.len(),
{
    if items.len() == 0 {
        Seq::<char>::empty()
    } else if items.len() == 1 {
        items[0]
    } else {
        items[0] + seq![sep] + join_seq(items.skip(1), sep)
    }
}

proof fn lemma_join_seq_push(items: Seq<Seq<char>>, sep: char, x: Seq<char>)
    requires
        items.len() >= 1,
    ensures
        join_seq(items.push(x), sep) =~= join_seq(items, sep) + seq![sep] + x,
    decreases items.len(),
{
    if items.len() == 1 {
        assert(items.push(x).len() == 2);
        assert(items.push(x)[0] =~= items[0]);
        assert(items.push(x).skip(1) =~~= seq![x]);
        assert(join_seq(seq![x], sep) =~= x);
        assert(join_seq(items.push(x), sep) =~= items.push(x)[0] + seq![sep] + join_seq(
            items.push(x).skip(1),
            sep,
        ));
    } else {
        assert(items.push(x).len() >= 3);
        assert(items.push(x)[0] =~= items[0]);
        assert(items.push(x).skip(1) =~~= items.skip(1).push(x));
        lemma_join_seq_push(items.skip(1), sep, x);
        assert(join_seq(items.push(x), sep) =~= items.push(x)[0] + seq![sep] + join_seq(
            items.push(x).skip(1),
            sep,
        ));
        assert(join_seq(items, sep) =~= items[0] + seq![sep] + join_seq(items.skip(1), sep));
    }
}

/// Joins the items with `sep` between each pair.
pub fn join_strings(items: &Vec<String>, sep: char) -> (r: String)
    ensures
        r@ == join_seq(items@.map_values(|f: String| f@), sep),
{
    let mut r = String::new();
    let mut i: usize = 0;
    while i < items.len()
        invariant
            i <= items@.len(),
            r@ == join_seq(items@.map_values(|f: String| f@).subrange(0, i as int), sep),
        decreases items@.len() - i,
    {
        let ghost mapped = items@.map_values(|f: String| f@);
        if i > 0 {
            push_char(&mut r, sep);
        }
        r.append(items[i].as_str());
        i = i + 1;
        proof {
            assert(mapped.subrange(0, i as int) =~= mapped.subrange(0, i - 1 as int).push(
                mapped[i - 1],
            ));
            if i > 1 {
                lemma_join_seq_push(mapped.subrange(0, i - 1 as int), sep, mapped[i - 1]);
            }
        }
    }
    proof {
        assert(items@.map_values(|f: String| f@).subrange(0, items@.len() as int) =~= items@.map_values(
            |f: String| f@,
        ));
    }
    r
}

} // verus!
