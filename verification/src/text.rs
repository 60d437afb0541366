//! Text: comparing, copying, cutting and sorting.

use vstd::prelude::*;
use vstd::string::*;
use vstd::utf8::encode_utf8;

verus! {

/// The characters of an optional text.
pub open spec fn text_opt(o: Option<String>) -> Option<Seq<char>> {
    match o {
        Some(s) => Some(s@),
        None => None,
    }
}

/// The characters of each text of a list.
pub open spec fn texts(v: Seq<String>) -> Seq<Seq<char>> {
    Seq::new(v.len(), |i: int| v[i]@)
}

/// The characters of each text of an optional list.
pub open spec fn texts_opt(o: Option<Vec<String>>) -> Option<Seq<Seq<char>>> {
    match o {
        Some(v) => Some(texts(v@)),
        None => None,
    }
}

pub fn same_text_opt(a: &Option<String>, b: &Option<String>) -> (r: bool)
    ensures
        r == (text_opt(*a) == text_opt(*b)),
{
    match (a, b) {
        (Some(x), Some(y)) => *x == *y,
        (None, None) => true,
        _ => false,
    }
}

pub fn same_texts(a: &Vec<String>, b: &Vec<String>) -> (r: bool)
    ensures
        r == (texts(a@) == texts(b@)),
{
    if a.len() != b.len() {
        assert(texts(a@).len() != texts(b@).len());
        return false;
    }
    let mut i: usize = 0;
    while i < a.len()
        invariant
            i <= a@.len(),
            a@.len() == b@.len(),
            forall|j: int| 0 <= j < i ==> (#[trigger] a@[j])@ == b@[j]@,
        decreases a@.len() - i,
    {
        if a[i] != b[i] {
            assert(texts(a@)[i as int] != texts(b@)[i as int]);
            return false;
        }
        i = i + 1;
    }
    assert(texts(a@) =~= texts(b@));
    true
}

pub fn same_texts_opt(a: &Option<Vec<String>>, b: &Option<Vec<String>>) -> (r: bool)
    ensures
        r == (texts_opt(*a) == texts_opt(*b)),
{
    match (a, b) {
        (Some(x), Some(y)) => same_texts(x, y),
        (None, None) => true,
        _ => false,
    }
}

pub fn copy_text_opt(a: &Option<String>) -> (r: Option<String>)
    ensures
        text_opt(r) == text_opt(*a),
{
    match a {
        Some(s) => Some(s.clone()),
        None => None,
    }
}

pub fn copy_texts(a: &Vec<String>) -> (r: Vec<String>)
    ensures
        texts(r@) == texts(a@),
{
    let mut r: Vec<String> = Vec::new();
    let mut i: usize = 0;
    while i < a.len()
        invariant
            i <= a@.len(),
            r@.len() == i,
            forall|j: int| 0 <= j < i ==> (#[trigger] r@[j])@ == a@[j]@,
        decreases a@.len() - i,
    {
        r.push(a[i].clone());
        i = i + 1;
    }
    assert(texts(r@) =~= texts(a@));
    r
}

pub fn copy_texts_opt(a: &Option<Vec<String>>) -> (r: Option<Vec<String>>)
    ensures
        texts_opt(r) == texts_opt(*a),
{
    match a {
        Some(v) => Some(copy_texts(v)),
        None => None,
    }
}

pub fn copy_bytes(a: &Vec<u8>) -> (r: Vec<u8>)
    ensures
        r@ == a@,
{
    let mut r: Vec<u8> = Vec::new();
    let mut i: usize = 0;
    while i < a.len()
        invariant
            i <= a@.len(),
            r@ =~= a@.subrange(0, i as int),
        decreases a@.len() - i,
    {
        r.push(a[i]);
        i = i + 1;
    }
    assert(r@ =~= a@);
    r
}

/// Whether a list holds a text.
pub fn holds_text(list: &Vec<String>, text: &String) -> (r: bool)
    ensures
        r == texts(list@).contains(text@),
{
    let mut i: usize = 0;
    while i < list.len()
        invariant
            i <= list@.len(),
            forall|j: int| 0 <= j < i ==> (#[trigger] list@[j])@ != text@,
        decreases list@.len() - i,
    {
        if list[i] == *text {
            assert(texts(list@)[i as int] == text@);
            return true;
        }
        i = i + 1;
    }
    proof {
        assert forall|j: int| 0 <= j < texts(list@).len() implies texts(list@)[j] != text@ by {
            assert(list@[j]@ != text@);
        }
    }
    false
}

/// What stands before the first `c` of a text, if it holds one.
pub open spec fn before_first(s: Seq<char>, c: char) -> Option<Seq<char>>
    decreases s.len(),
{
    if s.len() == 0 {
        None
    } else if s[0] == c {
        Some(Seq::empty())
    } else {
        match before_first(s.drop_first(), c) {
            Some(rest) => Some(seq![s[0]] + rest),
            None => None,
        }
    }
}

/// What stands behind the last `c` of a text, if it holds one.
pub open spec fn after_last(s: Seq<char>, c: char) -> Option<Seq<char>>
    decreases s.len(),
{
    if s.len() == 0 {
        None
    } else if s.last() == c {
        Some(Seq::empty())
    } else {
        match after_last(s.drop_last(), c) {
            Some(rest) => Some(rest.push(s.last())),
            None => None,
        }
    }
}

/// A text is cut at a character exactly when it holds it, and then what stands
/// before the first one holds none.
pub proof fn lemma_before_first(s: Seq<char>, c: char)
    ensures
        before_first(s, c) is Some <==> s.contains(c),
        before_first(s, c) matches Some(head) ==> head.len() < s.len() && s[head.len() as int] == c
            && head == s.subrange(0, head.len() as int) && !head.contains(c),
    decreases s.len(),
{
    if s.len() > 0 && s[0] != c {
        let rest = s.drop_first();
        lemma_before_first(rest, c);
        assert(s =~= seq![s[0]] + rest);
        if rest.contains(c) {
            let i = rest.index_of(c);
            assert(s[i + 1] == c);
        }
        if s.contains(c) {
            let i = s.index_of(c);
            assert(rest[i - 1] == c);
        }
        if let Some(tail) = before_first(rest, c) {
            let head = seq![s[0]] + tail;
            assert(head =~= s.subrange(0, head.len() as int));
            assert(s[head.len() as int] == rest[tail.len() as int]);
            assert forall|i: int| 0 <= i < head.len() implies head[i] != c by {
                if i > 0 {
                    assert(head[i] == tail[i - 1]);
                }
            }
        }
    } else if s.len() > 0 {
        assert(s.contains(c));
        assert(s.subrange(0, 0) =~= Seq::<char>::empty());
    }
}

proof fn lemma_before_first_at(s: Seq<char>, c: char, i: int)
    requires
        0 <= i < s.len(),
        s[i] == c,
        forall|j: int| 0 <= j < i ==> s[j] != c,
    ensures
        before_first(s, c) == Some(s.subrange(0, i)),
    decreases s.len(),
{
    if i == 0 {
        assert(s.subrange(0, 0) =~= Seq::<char>::empty());
    } else {
        lemma_before_first_at(s.drop_first(), c, i - 1);
        assert(seq![s[0]] + s.drop_first().subrange(0, i - 1) =~= s.subrange(0, i));
    }
}

/// A text that is put together with a `c` behind its first part, which holds
/// none, is cut there again.
pub proof fn lemma_before_first_joined(head: Seq<char>, c: char, tail: Seq<char>)
    requires
        !head.contains(c),
    ensures
        before_first(head + seq![c] + tail, c) == Some(head),
{
    let s = head + seq![c] + tail;
    assert forall|j: int| 0 <= j < head.len() implies s[j] != c by {
        assert(s[j] == head[j]);
    }
    lemma_before_first_at(s, c, head.len() as int);
    assert(s.subrange(0, head.len() as int) =~= head);
}

/// Cuts a text at its first `c` and hands out what stands before it.
pub fn cut_before_first(s: &String, c: char) -> (r: Option<String>)
    ensures
        text_opt(r) == before_first(s@, c),
{
    let text: &str = s.as_str();
    let n: usize = text.unicode_len();
    let mut i: usize = 0;
    for d in it: text.chars()
        invariant
            n == text@.len(),
            text@ == s@,
            it.seq() == text@,
            i == it.index(),
            forall|j: int| 0 <= j < i ==> text@[j] != c,
    {
        if d == c {
            proof {
                lemma_before_first_at(s@, c, i as int);
            }
            return Some(text.substring_char(0, i).to_owned());
        }
        i = i + 1;
    }
    proof {
        lemma_before_first(s@, c);
    }
    None
}

proof fn lemma_after_last_at(s: Seq<char>, c: char, i: int)
    requires
        0 <= i < s.len(),
        s[i] == c,
        forall|j: int| i < j < s.len() ==> s[j] != c,
    ensures
        after_last(s, c) == Some(s.subrange(i + 1, s.len() as int)),
    decreases s.len(),
{
    if i == s.len() - 1 {
        assert(s.subrange(i + 1, s.len() as int) =~= Seq::<char>::empty());
    } else {
        lemma_after_last_at(s.drop_last(), c, i);
        assert(s.drop_last().subrange(i + 1, s.len() - 1).push(s.last()) =~= s.subrange(
            i + 1,
            s.len() as int,
        ));
    }
}

/// A text has a last `c` exactly when it holds one, and what stands behind it
/// holds none.
pub proof fn lemma_after_last(s: Seq<char>, c: char)
    ensures
        after_last(s, c) is Some <==> s.contains(c),
        after_last(s, c) matches Some(tail) ==> tail.len() < s.len() && !tail.contains(c) && s[s.len()
            - tail.len() - 1] == c && tail == s.subrange(s.len() - tail.len(), s.len() as int),
    decreases s.len(),
{
    if s.len() > 0 && s.last() != c {
        let front = s.drop_last();
        lemma_after_last(front, c);
        if front.contains(c) {
            let i = front.index_of(c);
            assert(s[i] == c);
        }
        if s.contains(c) {
            let i = s.index_of(c);
            assert(front[i] == c);
        }
        if let Some(tail) = after_last(front, c) {
            let whole = tail.push(s.last());
            assert(whole =~= s.subrange(s.len() - whole.len(), s.len() as int));
            assert forall|i: int| 0 <= i < whole.len() implies whole[i] != c by {
                if i < tail.len() {
                    assert(whole[i] == tail[i]);
                }
            }
        }
    } else if s.len() > 0 {
        assert(s[s.len() - 1] == c);
        assert(s.subrange(s.len() as int, s.len() as int) =~= Seq::<char>::empty());
    }
}

/// A text that is put together with a `c` before its last part, which holds
/// none, is cut there again.
pub proof fn lemma_after_last_joined(head: Seq<char>, c: char, tail: Seq<char>)
    requires
        !tail.contains(c),
    ensures
        after_last(head + seq![c] + tail, c) == Some(tail),
{
    let s = head + seq![c] + tail;
    let at = head.len() as int;
    assert forall|j: int| at < j < s.len() implies s[j] != c by {
        assert(s[j] == tail[j - at - 1]);
    }
    lemma_after_last_at(s, c, at);
    assert(s.subrange(at + 1, s.len() as int) =~= tail);
}

/// Cuts a text at its last `c` and hands out what stands behind it.
pub fn cut_after_last(s: &String, c: char) -> (r: Option<String>)
    ensures
        text_opt(r) == after_last(s@, c),
{
    let text: &str = s.as_str();
    let n: usize = text.unicode_len();
    let mut last: Option<usize> = None;
    let mut i: usize = 0;
    for d in it: text.chars()
        invariant
            n == text@.len(),
            text@ == s@,
            it.seq() == text@,
            i == it.index(),
            match last {
                Some(at) => at < i && text@[at as int] == c && forall|j: int|
                    at < j < i ==> text@[j] != c,
                None => forall|j: int| 0 <= j < i ==> text@[j] != c,
            },
    {
        if d == c {
            last = Some(i);
        }
        i = i + 1;
    }
    match last {
        Some(at) => {
            proof {
                lemma_after_last_at(s@, c, at as int);
            }
            Some(text.substring_char(at + 1, n).to_owned())
        },
        None => {
            proof {
                lemma_after_last(s@, c);
            }
            None
        },
    }
}

/// A text in quotes, with the characters escaped that the `Debug` of `str`
/// escapes.
pub uninterp spec fn quoted(s: Seq<char>) -> Seq<char>;

/// The `Debug` of `str`: it depends on the text alone.
#[verifier::external_body]
pub(crate) fn quote(s: &str) -> (r: String)
    ensures
        r@ == quoted(s@),
{
    format!("{:?}", s)
}

/// The order of texts: byte by byte of their encoding, a prefix before what it
/// begins.
pub open spec fn bytes_le(a: Seq<u8>, b: Seq<u8>) -> bool
    decreases a.len(),
{
    if a.len() == 0 {
        true
    } else if b.len() == 0 {
        false
    } else if a[0] != b[0] {
        a[0] < b[0]
    } else {
        bytes_le(a.drop_first(), b.drop_first())
    }
}

pub open spec fn text_le(a: Seq<char>, b: Seq<char>) -> bool {
    bytes_le(encode_utf8(a), encode_utf8(b))
}

proof fn lemma_bytes_le_total(a: Seq<u8>, b: Seq<u8>)
    ensures
        bytes_le(a, b) || bytes_le(b, a),
    decreases a.len(),
{
    if a.len() > 0 && b.len() > 0 && a[0] == b[0] {
        lemma_bytes_le_total(a.drop_first(), b.drop_first());
    }
}

proof fn lemma_bytes_le_trans(a: Seq<u8>, b: Seq<u8>, c: Seq<u8>)
    requires
        bytes_le(a, b),
        bytes_le(b, c),
    ensures
        bytes_le(a, c),
    decreases a.len(),
{
    if a.len() > 0 && a[0] == b[0] && b[0] == c[0] {
        lemma_bytes_le_trans(a.drop_first(), b.drop_first(), c.drop_first());
    }
}

proof fn lemma_bytes_le_at(a: Seq<u8>, b: Seq<u8>, i: int)
    requires
        0 <= i <= a.len(),
        i <= b.len(),
        forall|j: int| 0 <= j < i ==> a[j] == b[j],
    ensures
        bytes_le(a, b) == bytes_le(a.subrange(i, a.len() as int), b.subrange(i, b.len() as int)),
    decreases i,
{
    if i == 0 {
        assert(a.subrange(0, a.len() as int) =~= a);
        assert(b.subrange(0, b.len() as int) =~= b);
    } else {
        let x = a.drop_first();
        let y = b.drop_first();
        assert forall|j: int| 0 <= j < i - 1 implies x[j] == y[j] by {
            assert(a[j + 1] == b[j + 1]);
        }
        assert(a[0] == b[0]);
        lemma_bytes_le_at(x, y, i - 1);
        assert(x.subrange(i - 1, x.len() as int) =~= a.subrange(i, a.len() as int));
        assert(y.subrange(i - 1, y.len() as int) =~= b.subrange(i, b.len() as int));
    }
}

fn text_not_after(a: &String, b: &String) -> (r: bool)
    ensures
        r == text_le(a@, b@),
{
    let x: &[u8] = a.as_str().as_bytes();
    let y: &[u8] = b.as_str().as_bytes();
    let mut i: usize = 0;
    while i < x.len() && i < y.len()
        invariant
            i <= x@.len(),
            i <= y@.len(),
            x@ == encode_utf8(a@),
            y@ == encode_utf8(b@),
            forall|j: int| 0 <= j < i ==> x@[j] == y@[j],
        decreases x@.len() - i,
    {
        if x[i] != y[i] {
            proof {
                lemma_bytes_le_at(x@, y@, i as int);
            }
            return x[i] < y[i];
        }
        i = i + 1;
    }
    proof {
        lemma_bytes_le_at(x@, y@, i as int);
    }
    i == x.len()
}

/// Each text stands before those that follow it.
pub open spec fn sorted(s: Seq<Seq<char>>) -> bool {
    forall|i: int, j: int| 0 <= i < j < s.len() ==> text_le(#[trigger] s[i], #[trigger] s[j])
}

proof fn lemma_bytes_le_antisymmetric(a: Seq<u8>, b: Seq<u8>)
    requires
        bytes_le(a, b),
        bytes_le(b, a),
    ensures
        a == b,
    decreases a.len(),
{
    if a.len() > 0 && b.len() > 0 {
        lemma_bytes_le_antisymmetric(a.drop_first(), b.drop_first());
        assert(a =~= seq![a[0]] + a.drop_first());
        assert(b =~= seq![b[0]] + b.drop_first());
    } else {
        assert(a =~= b);
    }
}

/// There is only one order to put the same texts in.
pub proof fn lemma_sorted_once(a: Seq<Seq<char>>, b: Seq<Seq<char>>)
    requires
        sorted(a),
        sorted(b),
        a.to_multiset() == b.to_multiset(),
    ensures
        a == b,
{
    let leq = |x: Seq<char>, y: Seq<char>| text_le(x, y);
    assert forall|x: Seq<char>| #[trigger] leq(x, x) by {
        lemma_bytes_le_total(encode_utf8(x), encode_utf8(x));
    }
    assert forall|x: Seq<char>, y: Seq<char>| #[trigger] leq(x, y) && #[trigger] leq(y, x) implies x
        == y by {
        lemma_bytes_le_antisymmetric(encode_utf8(x), encode_utf8(y));
        vstd::utf8::encode_utf8_decode_utf8(x);
        vstd::utf8::encode_utf8_decode_utf8(y);
    }
    assert forall|x: Seq<char>, y: Seq<char>, z: Seq<char>| #[trigger]
        leq(x, y) && #[trigger] leq(y, z) implies leq(x, z) by {
        lemma_bytes_le_trans(encode_utf8(x), encode_utf8(y), encode_utf8(z));
    }
    assert forall|x: Seq<char>, y: Seq<char>| #[trigger] leq(x, y) || #[trigger] leq(y, x) by {
        lemma_bytes_le_total(encode_utf8(x), encode_utf8(y));
    }
    assert(vstd::relations::sorted_by(a, leq));
    assert(vstd::relations::sorted_by(b, leq));
    vstd::seq_lib::lemma_sorted_unique(a, b, leq);
}

/// Sorts a list of texts.
pub fn sort_texts(list: Vec<String>) -> (r: Vec<String>)
    ensures
        sorted(texts(r@)),
        texts(r@).to_multiset() == texts(list@).to_multiset(),
{
    let mut r: Vec<String> = Vec::new();
    let mut i: usize = 0;
    assert(texts(r@) =~= texts(list@).subrange(0, 0));
    while i < list.len()
        invariant
            i <= list@.len(),
            sorted(texts(r@)),
            texts(r@).to_multiset() == texts(list@).subrange(0, i as int).to_multiset(),
        decreases list@.len() - i,
    {
        let ghost before = texts(r@);
        let text = list[i].clone();
        let mut at: usize = 0;
        while at < r.len() && text_not_after(&r[at], &text)
            invariant
                at <= r@.len(),
                forall|j: int| 0 <= j < at ==> text_le((#[trigger] r@[j])@, text@),
            decreases r@.len() - at,
        {
            at = at + 1;
        }
        proof {
            if at < r@.len() {
                lemma_bytes_le_total(encode_utf8(text@), encode_utf8(r@[at as int]@));
            }
        }
        let ghost x = text@;
        r.insert(at, text);
        proof {
            let after = texts(r@);
            assert(after =~= before.insert(at as int, x));
            assert forall|a: int, b: int| 0 <= a < b < after.len() implies text_le(
                #[trigger] after[a],
                #[trigger] after[b],
            ) by {
                let p = if a < at { a } else { a - 1 };
                let q = if b < at { b } else { b - 1 };
                if b < at {
                    assert(after[a] == before[a] && after[b] == before[b]);
                } else if b == at {
                    assert(after[a] == before[a]);
                } else if a == at {
                    assert(after[b] == before[q]);
                    if q > at {
                        assert(text_le(before[at as int], before[q]));
                        lemma_bytes_le_trans(
                            encode_utf8(x),
                            encode_utf8(before[at as int]),
                            encode_utf8(before[q]),
                        );
                    }
                } else {
                    assert(after[a] == before[p] && after[b] == before[q]);
                }
            }
            vstd::seq_lib::to_multiset_insert(before, at as int, x);
            assert(texts(list@).subrange(0, i as int + 1) =~= texts(list@).subrange(
                0,
                i as int,
            ).push(x));
            texts(list@).subrange(0, i as int).to_multiset_ensures();
            assert(after.to_multiset() =~= texts(list@).subrange(0, i as int + 1).to_multiset());
        }
        i = i + 1;
    }
    assert(texts(list@).subrange(0, list@.len() as int) =~= texts(list@));
    r
}

/// Reading texts by their characters keeps how many there are, their order and
/// which are missing.
pub proof fn texts_are_read_as_they_are(one: Option<String>, all: Option<Vec<String>>, v: Seq<String>)
    ensures
        one is None ==> text_opt(one) is None,
        one matches Some(s) ==> text_opt(one) == Some(s@),
        all is None ==> texts_opt(all) is None,
        all matches Some(list) ==> texts_opt(all) == Some(texts(list@)),
        texts(v).len() == v.len(),
        forall|i: int| 0 <= i < v.len() ==> #[trigger] texts(v)[i] == v[i]@,
{
}

/// Texts are ordered by the first byte of their encoding in which they differ;
/// where there is none, the shorter one stands first.
pub proof fn texts_are_ordered_at_their_first_difference(a: Seq<char>, b: Seq<char>, i: int)
    requires
        0 <= i <= encode_utf8(a).len(),
        i <= encode_utf8(b).len(),
        forall|j: int| 0 <= j < i ==> encode_utf8(a)[j] == encode_utf8(b)[j],
    ensures
        i == encode_utf8(a).len() ==> text_le(a, b),
        i == encode_utf8(b).len() && i < encode_utf8(a).len() ==> !text_le(a, b),
        i < encode_utf8(a).len() && i < encode_utf8(b).len() && encode_utf8(a)[i]
            < encode_utf8(b)[i] ==> text_le(a, b) && !text_le(b, a),
{
    lemma_bytes_le_at(encode_utf8(a), encode_utf8(b), i);
    lemma_bytes_le_at(encode_utf8(b), encode_utf8(a), i);
}

/// A sorted list has no text behind one that should stand after it.
pub proof fn sorted_texts_are_in_order(s: Seq<Seq<char>>, i: int, j: int)
    requires
        sorted(s),
        0 <= i < j < s.len(),
    ensures
        text_le(s[i], s[j]),
{
}

/// A text is cut before its first `c`, and behind its last.
pub proof fn texts_are_cut_at_their_ends(
    head: Seq<char>,
    middle: Seq<char>,
    tail: Seq<char>,
    c: char,
)
    requires
        !head.contains(c),
        !tail.contains(c),
    ensures
        before_first(head + seq![c] + middle + seq![c] + tail, c) == Some(head),
        after_last(head + seq![c] + middle + seq![c] + tail, c) == Some(tail),
        before_first(head + seq![c] + tail, c) == Some(head),
        after_last(head + seq![c] + tail, c) == Some(tail),
        before_first(head, c) is None,
        after_last(head, c) is None,
{
    lemma_before_first_joined(head, c, tail);
    lemma_after_last_joined(head, c, tail);
    lemma_before_first_joined(head, c, middle + seq![c] + tail);
    lemma_after_last_joined(head + seq![c] + middle, c, tail);
    assert(head + seq![c] + (middle + seq![c] + tail) =~= head + seq![c] + middle + seq![c] + tail);
    lemma_before_first(head, c);
    lemma_after_last(head, c);
}

} // verus!
