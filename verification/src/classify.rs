//! The attribute classifier: decides whether one raw attribute token
//! encodes a documentation line and, if so, extracts its exact text.
//!
//! A documentation token opens with the documentation key followed by a
//! raw-string quote. The upstream formatting pass may or may not break the
//! line right after the assignment sign, so two encodings are recognized:
//! `doc = r"` on one line, and `doc =`, a line break, then `r"`. Either
//! way the token must close with a quote; the text between the quotes is
//! the documentation line, kept verbatim.

use vstd::prelude::*;

verus! {

/// Whether the first eight characters of `t` spell the documentation key,
/// the assignment sign, a separator (a space or a line break), and the
/// opening raw-string quote.
pub open spec fn starts_with_doc_key(t: Seq<char>) -> bool {
    &&& t.len() >= 8
    &&& t[0] == 'd'
    &&& t[1] == 'o'
    &&& t[2] == 'c'
    &&& t[3] == ' '
    &&& t[4] == '='
    &&& (t[5] == ' ' || t[5] == '\n')
    &&& t[6] == 'r'
    &&& t[7] == '"'
}

/// Whether `t` encodes a documentation line: it opens with one of the two
/// recognized eight-character prefixes and closes with a quote of its own
/// (so the shortest documentation token has nine characters).
pub open spec fn is_doc_token(t: Seq<char>) -> bool {
    &&& t.len() >= 9
    &&& starts_with_doc_key(t)
    &&& t[t.len() - 1] == '"'
}

/// What one attribute token classifies to: the text between the quotes
/// for a documentation token, nothing for any other token.
pub open spec fn classify_spec(t: Seq<char>) -> Option<Seq<char>> {
    if is_doc_token(t) {
        Some(t.subrange(8, t.len() - 1))
    } else {
        None
    }
}

/// The documentation lines among a sequence of attribute tokens: each
/// token is classified on its own, the matches are kept in order, and
/// every other token is dropped.
pub open spec fn classify_all(tokens: Seq<Seq<char>>) -> Seq<Seq<char>>
    decreases tokens.len(),
{
    if tokens.len() == 0 {
        Seq::empty()
    } else {
        classify_all(tokens.drop_last()) + match classify_spec(tokens.last()) {
            Some(line) => seq![line],
            None => Seq::empty(),
        }
    }
}

/// Round-trip of classification: wrapping any text that holds no quote
/// character in either recognized documentation encoding classifies back
/// to exactly that text, for the one-line form and for the form with a
/// line break after the assignment sign alike.
pub proof fn lemma_round_trip_classification(s: Seq<char>)
    requires
        forall|i: int| 0 <= i < s.len() ==> s[i] != '"',
    ensures
        classify_spec("doc = r\""@ + s + "\""@) == Some(s),
        classify_spec("doc =\nr\""@ + s + "\""@) == Some(s),
{
    reveal_strlit("doc = r\"");
    reveal_strlit("doc =\nr\"");
    reveal_strlit("\"");
    let t1 = "doc = r\""@ + s + "\""@;
    let t2 = "doc =\nr\""@ + s + "\""@;
    assert(t1.len() == 9 + s.len());
    assert(t2.len() == 9 + s.len());
    assert(starts_with_doc_key(t1));
    assert(starts_with_doc_key(t2));
    assert(t1[t1.len() - 1] == '"');
    assert(t2[t2.len() - 1] == '"');
    assert(t1.subrange(8, t1.len() - 1) =~= s);
    assert(t2.subrange(8, t2.len() - 1) =~= s);
}

/// Tokens that are not documentation never leak: every line among the
/// classified documentation lines of a token sequence is the
/// classification of one of those tokens — no other text can appear.
pub proof fn lemma_no_foreign_lines(tokens: Seq<Seq<char>>, line: Seq<char>)
    requires
        classify_all(tokens).contains(line),
    ensures
        exists|i: int| 0 <= i < tokens.len() && classify_spec(tokens[i]) == Some(line),
    decreases tokens.len(),
{
    let rest = classify_all(tokens.drop_last());
    match classify_spec(tokens.last()) {
        Some(d) => {
            if line == d {
                assert(classify_spec(tokens[tokens.len() - 1]) == Some(line));
            } else {
                assert(rest.contains(line));
                lemma_no_foreign_lines(tokens.drop_last(), line);
                let i = choose|i: int|
                    0 <= i < tokens.drop_last().len() && classify_spec(tokens.drop_last()[i])
                        == Some(line);
                assert(classify_spec(tokens[i]) == Some(line));
            }
        },
        None => {
            assert(rest.contains(line));
            lemma_no_foreign_lines(tokens.drop_last(), line);
            let i = choose|i: int|
                0 <= i < tokens.drop_last().len() && classify_spec(tokens.drop_last()[i]) == Some(
                    line,
                );
            assert(classify_spec(tokens[i]) == Some(line));
        },
    }
}

/// Classification distributes over concatenation of token sequences.
pub proof fn lemma_classify_all_concat(a: Seq<Seq<char>>, b: Seq<Seq<char>>)
    ensures
        classify_all(a + b) == classify_all(a) + classify_all(b),
    decreases b.len(),
{
    if b.len() == 0 {
        assert(a + b =~= a);
        assert(classify_all(a) + classify_all(b) =~= classify_all(a));
    } else {
        assert((a + b).drop_last() =~= a + b.drop_last());
        assert((a + b).last() == b.last());
        lemma_classify_all_concat(a, b.drop_last());
        assert(classify_all(a + b) =~= classify_all(a) + classify_all(b));
    }
}

/// Order preservation: permuting a token sequence permutes the
/// classified documentation lines and does nothing else — no line is
/// dropped, duplicated, or invented, so the lines of the two orders form
/// the same multiset. Which field a line belongs to cannot change with
/// the order, since each field's lines come from that field's own tokens
/// alone.
pub proof fn lemma_order_preservation(t1: Seq<Seq<char>>, t2: Seq<Seq<char>>)
    requires
        t1.to_multiset() == t2.to_multiset(),
    ensures
        classify_all(t1).to_multiset() == classify_all(t2).to_multiset(),
    decreases t1.len(),
{
    broadcast use vstd::seq_lib::group_to_multiset_ensures;

    if t1.len() == 0 {
        assert(t1.to_multiset().len() == t1.len());
        assert(t2.to_multiset().len() == t2.len());
        assert(t2.len() == 0);
    } else {
        let x = t1.last();
        let head = t1.drop_last();
        assert(head.push(x) =~= t1);
        assert(t1.to_multiset() == head.to_multiset().insert(x));
        assert(t2.to_multiset().count(x) > 0);
        assert(t2.contains(x));
        let j = choose|j: int| 0 <= j < t2.len() && t2[j] == x;
        let t2r = t2.remove(j);
        assert(t2r.to_multiset() == t2.to_multiset().remove(x));
        assert(head.to_multiset() =~= t1.to_multiset().remove(x));
        lemma_order_preservation(head, t2r);
        // classify_all of t1 splits off its last token.
        let cx = match classify_spec(x) {
            Some(line) => seq![line],
            None => Seq::<Seq<char>>::empty(),
        };
        assert(classify_all(t1) == classify_all(head) + cx);
        // classify_all of t2 splits around position j.
        let a = t2.subrange(0, j);
        let b = t2.subrange(j + 1, t2.len() as int);
        assert(t2 =~= a + (seq![x] + b));
        lemma_classify_all_concat(a, seq![x] + b);
        lemma_classify_all_concat(seq![x], b);
        assert(seq![x].drop_last() =~= Seq::<Seq<char>>::empty());
        assert(classify_all(Seq::<Seq<char>>::empty()) + cx =~= cx);
        assert(classify_all(seq![x]) == cx);
        assert(classify_all(t2) == classify_all(a) + (cx + classify_all(b)));
        lemma_classify_all_concat(a, b);
        assert(classify_all(t2r) == classify_all(a) + classify_all(b));
        vstd::seq_lib::lemma_multiset_commutative(classify_all(head), cx);
        vstd::seq_lib::lemma_multiset_commutative(classify_all(a), cx + classify_all(b));
        vstd::seq_lib::lemma_multiset_commutative(cx, classify_all(b));
        vstd::seq_lib::lemma_multiset_commutative(classify_all(a), classify_all(b));
        assert(classify_all(t1).to_multiset() =~= classify_all(t2).to_multiset());
    }
}

/// Classifies one raw attribute token. Returns the documentation line it
/// encodes, verbatim, or nothing when the token is some other kind of
/// annotation; no input is an error.
pub fn filter_docs<'a>(meta: &'a str) -> (r: Option<&'a str>)
    ensures
        r matches Some(s) ==> classify_spec(meta@) == Some(s@),
        r is None ==> classify_spec(meta@) is None,
{
    let n = meta.unicode_len();
    if n < 9 {
        return None;
    }
    if meta.get_char(0) != 'd' || meta.get_char(1) != 'o' || meta.get_char(2) != 'c'
        || meta.get_char(3) != ' ' || meta.get_char(4) != '=' || meta.get_char(6) != 'r'
        || meta.get_char(7) != '"' {
        return None;
    }
    let sep = meta.get_char(5);
    if sep != ' ' && sep != '\n' {
        return None;
    }
    if meta.get_char(n - 1) != '"' {
        return None;
    }
    Some(meta.substring_char(8, n - 1))
}

/// Applies the classifier to each token in order and collects the
/// documentation lines, preserving their relative order.
pub fn classify_tokens(tokens: &Vec<String>) -> (r: Vec<String>)
    ensures
        r.deep_view() == classify_all(tokens.deep_view()),
{
    let mut lines: Vec<String> = Vec::new();
    let n = tokens.len();
    for i in 0..n
        invariant
            n == tokens@.len(),
            lines.deep_view() == classify_all(tokens.deep_view().take(i as int)),
    {
        let ghost pre = lines.deep_view();
        match filter_docs(tokens[i].as_str()) {
            Some(line) => lines.push(line.to_owned()),
            None => (),
        }
        proof {
            let tv = tokens.deep_view();
            assert(tv.take(i + 1).drop_last() =~= tv.take(i as int));
            assert(tv.take(i + 1).last() == tv[i as int]);
            match classify_spec(tv[i as int]) {
                Some(line) => {
                    assert(lines.deep_view() =~= pre.push(line));
                    assert(pre + seq![line] =~= pre.push(line));
                },
                None => {
                    assert(lines.deep_view() == pre);
                },
            }
        }
    }
    proof {
        assert(tokens.deep_view().take(n as int) =~= tokens.deep_view());
    }
    lines
}

} // verus!
