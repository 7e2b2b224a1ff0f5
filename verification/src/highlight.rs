//! The grammar of a highlight fragment.
//!
//! The engine wraps each matched span of a fragment in the marker pair
//! `<em>` and `</em>`. A marked span opens at the leftmost `<em>` that has a
//! `</em>` behind it; it ends at the first such `</em>`, whatever stands
//! between the two, and the search for the next span goes on behind it. The
//! text between the two markers is the span's term.

use vstd::prelude::*;

verus! {

/// The opening marker.
pub open spec fn open_marker() -> Seq<char> {
    seq!['<', 'e', 'm', '>']
}

/// The closing marker.
pub open spec fn close_marker() -> Seq<char> {
    seq!['<', '/', 'e', 'm', '>']
}

/// `<em>` stands at position `i` of `s`.
pub open spec fn opens_at(s: Seq<char>, i: int) -> bool {
    &&& 0 <= i
    &&& i + 4 <= s.len()
    &&& s[i] == '<'
    &&& s[i + 1] == 'e'
    &&& s[i + 2] == 'm'
    &&& s[i + 3] == '>'
}

/// `</em>` stands at position `j` of `s`.
pub open spec fn closes_at(s: Seq<char>, j: int) -> bool {
    &&& 0 <= j
    &&& j + 5 <= s.len()
    &&& s[j] == '<'
    &&& s[j + 1] == '/'
    &&& s[j + 2] == 'e'
    &&& s[j + 3] == 'm'
    &&& s[j + 4] == '>'
}

/// The position of the first `</em>` at or behind `from`, if there is one.
pub open spec fn span_end(s: Seq<char>, from: int) -> Option<int>
    decreases s.len() - from,
{
    if from < 0 || from >= s.len() {
        None
    } else if closes_at(s, from) {
        Some(from)
    } else {
        span_end(s, from + 1)
    }
}

/// The terms of the marked spans of `s` that open at or behind `from`, from
/// left to right. Where `<em>` stands and no `</em>` follows, no span is
/// left.
pub open spec fn terms_from(s: Seq<char>, from: int) -> Seq<Seq<char>>
    decreases s.len() - from,
    via terms_from_decreases
{
    if from < 0 || from >= s.len() {
        Seq::empty()
    } else if opens_at(s, from) {
        match span_end(s, from + 4) {
            Some(end) => seq![s.subrange(from + 4, end)] + terms_from(s, end + 5),
            None => Seq::empty(),
        }
    } else {
        terms_from(s, from + 1)
    }
}

/// The search goes on behind the span that it found, and within the text.
#[via_fn]
proof fn terms_from_decreases(s: Seq<char>, from: int) {
    if 0 <= from < s.len() && opens_at(s, from) {
        lemma_span_end(s, from + 4);
    }
}

/// The terms of all marked spans of `s`, from left to right.
pub open spec fn em_terms(s: Seq<char>) -> Seq<Seq<char>> {
    terms_from(s, 0)
}

/// Where a span ends, `</em>` stands, not before `from`, and no other
/// `</em>` lies between. Where it does not end, no `</em>` follows.
pub proof fn lemma_span_end(s: Seq<char>, from: int)
    requires
        0 <= from,
    ensures
        match span_end(s, from) {
            Some(end) => {
                &&& from <= end
                &&& closes_at(s, end)
                &&& forall|k: int| from <= k < end ==> !closes_at(s, k)
            },
            None => forall|j: int| from <= j ==> !closes_at(s, j),
        },
    decreases s.len() - from,
{
    if from < s.len() && !closes_at(s, from) {
        lemma_span_end(s, from + 1);
    }
}

/// A marked span: `<em>` stands at `open`, `</em>` at `close` behind it, and
/// no other `</em>` between the two.
pub open spec fn marked_span(s: Seq<char>, open: int, close: int) -> bool {
    &&& opens_at(s, open)
    &&& open + 4 <= close
    &&& closes_at(s, close)
    &&& forall|k: int| open + 4 <= k < close ==> !closes_at(s, k)
}

/// A marked span opens at `open`: `<em>` stands there and `</em>` somewhere
/// behind it.
pub open spec fn span_opens(s: Seq<char>, open: int) -> bool {
    &&& opens_at(s, open)
    &&& exists|close: int| open + 4 <= close && #[trigger] closes_at(s, close)
}

/// `spans` are the marked spans of `s` from `from` on, as they are met from
/// left to right: the first is the leftmost that opens at or behind `from`,
/// each further one the leftmost that opens behind the end of the one
/// before, and behind the last one none opens.
pub open spec fn leftmost_spans(s: Seq<char>, from: int, spans: Seq<(int, int)>) -> bool
    decreases spans.len(),
{
    if spans.len() == 0 {
        forall|i: int| from <= i ==> !span_opens(s, i)
    } else {
        &&& from <= spans[0].0
        &&& marked_span(s, spans[0].0, spans[0].1)
        &&& forall|i: int| from <= i < spans[0].0 ==> !span_opens(s, i)
        &&& leftmost_spans(s, spans[0].1 + 5, spans.drop_first())
    }
}

/// The texts between the markers of `spans`.
pub open spec fn span_texts(s: Seq<char>, spans: Seq<(int, int)>) -> Seq<Seq<char>> {
    Seq::new(spans.len(), |k: int| s.subrange(spans[k].0 + 4, spans[k].1))
}

/// The marked spans of `s` that open at or behind `from`, from left to
/// right, each as the positions of its two markers.
pub open spec fn spans_from(s: Seq<char>, from: int) -> Seq<(int, int)>
    decreases s.len() - from,
    via spans_from_decreases
{
    if from < 0 || from >= s.len() {
        Seq::empty()
    } else if opens_at(s, from) {
        match span_end(s, from + 4) {
            Some(end) => seq![(from, end)] + spans_from(s, end + 5),
            None => Seq::empty(),
        }
    } else {
        spans_from(s, from + 1)
    }
}

/// The search goes on behind the span that it found, and within the text.
#[via_fn]
proof fn spans_from_decreases(s: Seq<char>, from: int) {
    if 0 <= from < s.len() && opens_at(s, from) {
        lemma_span_end(s, from + 4);
    }
}

/// Where no `</em>` stands behind `from + 4`, no marked span opens at or
/// behind `from`.
proof fn lemma_no_span_opens(s: Seq<char>, from: int)
    requires
        0 <= from,
        span_end(s, from + 4) is None,
    ensures
        forall|i: int| from <= i ==> !span_opens(s, i),
{
    lemma_span_end(s, from + 4);
}

/// The spans that are met from `from + 1` on are those that are met from
/// `from` on, where no span opens at `from`.
proof fn lemma_leftmost_extend(s: Seq<char>, from: int, spans: Seq<(int, int)>)
    requires
        leftmost_spans(s, from + 1, spans),
        !span_opens(s, from),
    ensures
        leftmost_spans(s, from, spans),
{
}

/// The terms are the texts of the marked spans, and the marked spans are
/// met from left to right, none left out: this holds of every text.
pub proof fn lemma_terms_are_leftmost_spans(s: Seq<char>, from: int)
    requires
        0 <= from,
    ensures
        leftmost_spans(s, from, spans_from(s, from)),
        terms_from(s, from) == span_texts(s, spans_from(s, from)),
    decreases s.len() - from,
{
    if from >= s.len() {
        assert(terms_from(s, from) =~= span_texts(s, spans_from(s, from)));
    } else if opens_at(s, from) && span_end(s, from + 4) is Some {
        let end = span_end(s, from + 4)->Some_0;
        lemma_span_end(s, from + 4);
        lemma_terms_are_leftmost_spans(s, end + 5);
        let spans = spans_from(s, from);
        assert(spans[0] == (from, end));
        assert(spans.drop_first() =~= spans_from(s, end + 5));
        assert(marked_span(s, from, end));
        assert(terms_from(s, from) =~= span_texts(s, spans)) by {
            let rest = spans_from(s, end + 5);
            assert forall|k: int| 0 <= k < spans.len() implies terms_from(s, from)[k] == span_texts(
                s,
                spans,
            )[k] by {
                if k > 0 {
                    assert(spans[k] == rest[k - 1]);
                    assert(terms_from(s, from)[k] == terms_from(s, end + 5)[k - 1]);
                    assert(span_texts(s, rest)[k - 1] == s.subrange(rest[k - 1].0 + 4, rest[k - 1].1));
                }
            }
        }
    } else if opens_at(s, from) {
        lemma_no_span_opens(s, from);
        assert(terms_from(s, from) =~= span_texts(s, spans_from(s, from)));
    } else {
        lemma_terms_are_leftmost_spans(s, from + 1);
        lemma_leftmost_extend(s, from, spans_from(s, from + 1));
    }
}

/// The marked spans that are met from left to right are determined by the
/// text: there is one such sequence and no other.
pub proof fn lemma_leftmost_spans_unique(
    s: Seq<char>,
    from: int,
    a: Seq<(int, int)>,
    b: Seq<(int, int)>,
)
    requires
        leftmost_spans(s, from, a),
        leftmost_spans(s, from, b),
    ensures
        a == b,
    decreases a.len(),
{
    if a.len() == 0 {
        if b.len() > 0 {
            assert(span_opens(s, b[0].0));
        }
        assert(a =~= b);
    } else {
        assert(span_opens(s, a[0].0));
        if b.len() == 0 {
            assert(false);
        } else {
            assert(span_opens(s, b[0].0));
            assert(a[0].0 == b[0].0);
            assert(a[0].1 == b[0].1);
            lemma_leftmost_spans_unique(s, a[0].1 + 5, a.drop_first(), b.drop_first());
            assert(a =~= seq![a[0]] + a.drop_first());
            assert(b =~= seq![b[0]] + b.drop_first());
        }
    }
}

/// A text in which `<em>` stands nowhere.
pub open spec fn unmarked(s: Seq<char>) -> bool {
    forall|i: int| !opens_at(s, i)
}

/// A text that can stand between a pair of markers and be told from what
/// follows: `</em>` stands nowhere in it.
pub open spec fn enclosable(s: Seq<char>) -> bool {
    forall|i: int| !closes_at(s, i)
}

/// The fragment in which the texts `between` and the marked terms `terms`
/// take turns: `between[0]`, then `terms[0]` inside a pair of markers, then
/// `between[1]`, and so on, up to the text behind the last pair.
pub open spec fn fragment_of(terms: Seq<Seq<char>>, between: Seq<Seq<char>>) -> Seq<char>
    recommends
        between.len() == terms.len() + 1,
    decreases terms.len(),
{
    if terms.len() == 0 {
        between[0]
    } else {
        between[0] + open_marker() + terms[0] + close_marker() + fragment_of(
            terms.drop_first(),
            between.drop_first(),
        )
    }
}

/// Where `</em>` stands at `end` and no `</em>` comes before it, the span
/// ends at `end`.
pub proof fn lemma_span_end_found(s: Seq<char>, from: int, end: int)
    requires
        0 <= from <= end,
        closes_at(s, end),
        forall|k: int| from <= k < end ==> !closes_at(s, k),
    ensures
        span_end(s, from) == Some(end),
    decreases end - from,
{
    if from < end {
        lemma_span_end_found(s, from + 1, end);
    }
}

/// Positions at which no `<em>` stands are passed over.
pub proof fn lemma_terms_skip(s: Seq<char>, from: int, to: int)
    requires
        0 <= from <= to <= s.len(),
        forall|i: int| from <= i < to ==> !opens_at(s, i),
    ensures
        terms_from(s, from) == terms_from(s, to),
    decreases to - from,
{
    if from < to {
        lemma_terms_skip(s, from + 1, to);
    }
}

/// What stands before the place from which a span is sought does not
/// matter.
pub proof fn lemma_span_end_shift(prefix: Seq<char>, rest: Seq<char>, k: int)
    requires
        0 <= k,
    ensures
        span_end(prefix + rest, prefix.len() + k) == match span_end(rest, k) {
            Some(end) => Some(prefix.len() + end),
            None => None,
        },
    decreases rest.len() - k,
{
    let s = prefix + rest;
    let n = prefix.len() as int;
    if k < rest.len() {
        assert(closes_at(s, n + k) == closes_at(rest, k)) by {
            if k + 5 <= rest.len() {
                assert(s[n + k] == rest[k]);
                assert(s[n + k + 1] == rest[k + 1]);
                assert(s[n + k + 2] == rest[k + 2]);
                assert(s[n + k + 3] == rest[k + 3]);
                assert(s[n + k + 4] == rest[k + 4]);
            }
        }
        lemma_span_end_shift(prefix, rest, k + 1);
    }
}

/// What stands before the place from which terms are sought does not
/// matter.
pub proof fn lemma_terms_shift(prefix: Seq<char>, rest: Seq<char>, k: int)
    requires
        0 <= k,
    ensures
        terms_from(prefix + rest, prefix.len() + k) == terms_from(rest, k),
    decreases rest.len() - k,
{
    let s = prefix + rest;
    let n = prefix.len() as int;
    if k < rest.len() {
        assert(opens_at(s, n + k) == opens_at(rest, k)) by {
            if k + 4 <= rest.len() {
                assert(s[n + k] == rest[k]);
                assert(s[n + k + 1] == rest[k + 1]);
                assert(s[n + k + 2] == rest[k + 2]);
                assert(s[n + k + 3] == rest[k + 3]);
            }
        }
        if opens_at(rest, k) {
            lemma_span_end_shift(prefix, rest, k + 4);
            match span_end(rest, k + 4) {
                Some(end) => {
                    lemma_span_end(rest, k + 4);
                    lemma_terms_shift(prefix, rest, end + 5);
                    assert(s.subrange(n + k + 4, n + end) =~= rest.subrange(k + 4, end));
                },
                None => {},
            }
        } else {
            lemma_terms_shift(prefix, rest, k + 1);
        }
    }
}

/// A fragment that begins with an unmarked text, a marked term and the
/// closing marker yields that term, and then the terms of what follows.
pub proof fn lemma_first_term(before: Seq<char>, term: Seq<char>, rest: Seq<char>)
    requires
        unmarked(before),
        enclosable(term),
    ensures
        em_terms(before + open_marker() + term + close_marker() + rest) == seq![term] + em_terms(
            rest,
        ),
{
    let head = before + open_marker() + term + close_marker();
    let s = head + rest;
    let b = before.len() as int;
    let t = term.len() as int;
    assert(s[b] == '<' && s[b + 1] == 'e' && s[b + 2] == 'm' && s[b + 3] == '>');
    assert(s[b + 4 + t] == '<' && s[b + 4 + t + 1] == '/' && s[b + 4 + t + 2] == 'e' && s[b + 4 + t
        + 3] == 'm' && s[b + 4 + t + 4] == '>');
    assert forall|i: int| 0 <= i < b implies !opens_at(s, i) by {
        if opens_at(s, i) {
            if i + 4 <= b {
                assert(s[i] == before[i]);
                assert(s[i + 1] == before[i + 1]);
                assert(s[i + 2] == before[i + 2]);
                assert(s[i + 3] == before[i + 3]);
                assert(opens_at(before, i));
            }
        }
    }
    lemma_terms_skip(s, 0, b);
    assert(opens_at(s, b));
    assert forall|k: int| b + 4 <= k < b + 4 + t implies !closes_at(s, k) by {
        assert(s[k] == term[k - b - 4]);
        if closes_at(s, k) {
            if k + 5 <= b + 4 + t {
                assert(s[k + 1] == term[k + 1 - b - 4]);
                assert(s[k + 2] == term[k + 2 - b - 4]);
                assert(s[k + 3] == term[k + 3 - b - 4]);
                assert(s[k + 4] == term[k + 4 - b - 4]);
                assert(closes_at(term, k - b - 4));
            }
        }
    }
    lemma_span_end_found(s, b + 4, b + 4 + t);
    assert(s.subrange(b + 4, b + 4 + t) =~= term);
    assert(head.len() == b + 4 + t + 5);
    lemma_terms_shift(head, rest, 0);
}

/// Extraction is exact: from a fragment in which marked terms and unmarked
/// texts take turns, it yields the terms, all of them, in their order, and
/// nothing else. A fragment without a marked term yields none.
pub proof fn lemma_extraction_exact(terms: Seq<Seq<char>>, between: Seq<Seq<char>>)
    requires
        between.len() == terms.len() + 1,
        forall|i: int| 0 <= i < between.len() ==> unmarked(#[trigger] between[i]),
        forall|i: int| 0 <= i < terms.len() ==> enclosable(#[trigger] terms[i]),
    ensures
        em_terms(fragment_of(terms, between)) == terms,
    decreases terms.len(),
{
    if terms.len() == 0 {
        let s = between[0];
        assert(unmarked(s));
        lemma_terms_skip(s, 0, s.len() as int);
        assert(em_terms(s) =~= terms);
    } else {
        let rest = fragment_of(terms.drop_first(), between.drop_first());
        assert forall|i: int| 0 <= i < between.drop_first().len() implies unmarked(
            #[trigger] between.drop_first()[i],
        ) by {
            assert(between.drop_first()[i] == between[i + 1]);
        }
        assert forall|i: int| 0 <= i < terms.drop_first().len() implies enclosable(
            #[trigger] terms.drop_first()[i],
        ) by {
            assert(terms.drop_first()[i] == terms[i + 1]);
        }
        lemma_extraction_exact(terms.drop_first(), between.drop_first());
        assert(unmarked(between[0]));
        assert(enclosable(terms[0]));
        lemma_first_term(between[0], terms[0], rest);
        assert(seq![terms[0]] + terms.drop_first() =~= terms);
    }
}

/// Whether `<em>` stands at position `i`.
pub(crate) fn marker_opens(chars: &Vec<char>, i: usize) -> (r: bool)
    ensures
        r == opens_at(chars@, i as int),
{
    let n = chars.len();
    n >= 4 && i <= n - 4 && chars[i] == '<' && chars[i + 1] == 'e' && chars[i + 2] == 'm' && chars[i
        + 3] == '>'
}

/// Whether `</em>` stands at position `j`.
fn marker_closes(chars: &Vec<char>, j: usize) -> (r: bool)
    ensures
        r == closes_at(chars@, j as int),
{
    let n = chars.len();
    n >= 5 && j <= n - 5 && chars[j] == '<' && chars[j + 1] == '/' && chars[j + 2] == 'e' && chars[j
        + 3] == 'm' && chars[j + 4] == '>'
}

/// The end of the span whose text begins at `from`: the place of the first
/// `</em>` at or behind `from`.
pub(crate) fn find_span_end(chars: &Vec<char>, from: usize) -> (r: Option<usize>)
    ensures
        match span_end(chars@, from as int) {
            Some(end) => r == Some(end as usize) && from <= end && end + 5 <= chars@.len(),
            None => r is None,
        },
{
    let n = chars.len();
    let mut k: usize = from;
    while k < n
        invariant
            from <= k,
            n == chars@.len(),
            span_end(chars@, from as int) == span_end(chars@, k as int),
        decreases n - k,
    {
        if marker_closes(chars, k) {
            return Some(k);
        }
        k += 1;
    }
    None
}

} // verus!
