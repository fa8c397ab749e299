//! Character-level helpers shared by the chunkers and the prompt assembler.

use vstd::prelude::*;
use vstd::string::StringExecFns;

verus! {

/// The characters that carry the Unicode `White_Space` property.
pub open spec fn is_whitespace(c: char) -> bool {
    let n = c as u32;
    ||| 0x09 <= n <= 0x0D
    ||| n == 0x20
    ||| n == 0x85
    ||| n == 0xA0
    ||| n == 0x1680
    ||| 0x2000 <= n <= 0x200A
    ||| n == 0x2028
    ||| n == 0x2029
    ||| n == 0x202F
    ||| n == 0x205F
    ||| n == 0x3000
}

/// Decides whether `c` is a whitespace character.
pub fn char_is_whitespace(c: char) -> (r: bool)
    ensures
        r == is_whitespace(c),
{
    let n: u32 = c as u32;
    (0x09 <= n && n <= 0x0D) || n == 0x20 || n == 0x85 || n == 0xA0 || n == 0x1680 || (0x2000 <= n
        && n <= 0x200A) || n == 0x2028 || n == 0x2029 || n == 0x202F || n == 0x205F || n == 0x3000
}

/// The characters of `s`, in order.
pub fn to_chars(s: &str) -> (v: Vec<char>)
    ensures
        v@ == s@,
{
    let mut v: Vec<char> = Vec::new();
    for c in it: s.chars()
        invariant
            v@ == it.seq().take(it.index() as int),
    {
        v.push(c);
    }
    v
}

/// `String::push` appends the character to the end of the string.
pub assume_specification[ String::push ](s: &mut String, c: char)
    ensures
        final(s)@ == old(s)@.push(c),
;

/// The string made of `v[from..to]`.
pub fn from_chars(v: &Vec<char>, from: usize, to: usize) -> (s: String)
    requires
        from <= to <= v.len(),
    ensures
        s@ == v@.subrange(from as int, to as int),
{
    let mut s = String::new();
    let mut i: usize = from;
    while i < to
        invariant
            from <= i <= to <= v.len(),
            s@ == v@.subrange(from as int, i as int),
        decreases to - i,
    {
        s.push(v[i]);
        i += 1;
        assert(v@.subrange(from as int, i as int) == v@.subrange(from as int, i - 1).push(v@[i - 1]));
    }
    s
}

/// Decides whether two texts hold the same characters.
pub fn same_text(a: &str, b: &str) -> (r: bool)
    ensures
        r == (a@ == b@),
{
    String::from_str(a) == String::from_str(b)
}

/// The views of a sequence of strings.
pub open spec fn texts(v: Seq<String>) -> Seq<Seq<char>> {
    Seq::new(v.len(), |i: int| v[i]@)
}

/// Appending a string appends its view.
pub proof fn lemma_texts_push(v: Seq<String>, s: String)
    ensures
        texts(v.push(s)) == texts(v).push(s@),
{
    assert(texts(v.push(s)) =~= texts(v).push(s@));
}

/// Every character of `s` is whitespace (an empty `s` is blank).
pub open spec fn is_blank(s: Seq<char>) -> bool {
    forall|i: int| 0 <= i < s.len() ==> is_whitespace(#[trigger] s[i])
}

/// Decides whether `v[from..to]` is blank.
pub fn range_is_blank(v: &Vec<char>, from: usize, to: usize) -> (r: bool)
    requires
        from <= to <= v.len(),
    ensures
        r == is_blank(v@.subrange(from as int, to as int)),
{
    let mut i: usize = from;
    while i < to
        invariant
            from <= i <= to <= v.len(),
            forall|j: int| from <= j < i ==> is_whitespace(#[trigger] v@[j]),
        decreases to - i,
    {
        if !char_is_whitespace(v[i]) {
            proof {
                let piece = v@.subrange(from as int, to as int);
                assert(piece[i - from] == v@[i as int]);
            }
            return false;
        }
        i += 1;
    }
    proof {
        let piece = v@.subrange(from as int, to as int);
        assert forall|j: int| 0 <= j < piece.len() implies is_whitespace(#[trigger] piece[j]) by {
            assert(piece[j] == v@[from + j]);
        }
    }
    true
}

/// The positions below `n` at which `pred` holds, in increasing order.
pub open spec fn positions(n: int, pred: spec_fn(int) -> bool) -> Seq<int>
    decreases n,
{
    if n <= 0 {
        Seq::empty()
    } else if pred(n - 1) {
        positions(n - 1, pred).push(n - 1)
    } else {
        positions(n - 1, pred)
    }
}

/// `positions(n, pred)` lists exactly the positions in `[0, n)` that satisfy
/// `pred`, each once and in increasing order.
pub proof fn lemma_positions(n: int, pred: spec_fn(int) -> bool)
    ensures
        forall|i: int|
            0 <= i < positions(n, pred).len() ==> 0 <= #[trigger] positions(n, pred)[i] < n
                && pred(positions(n, pred)[i]),
        forall|i: int, j: int|
            0 <= i < j < positions(n, pred).len() ==> #[trigger] positions(n, pred)[i]
                < #[trigger] positions(n, pred)[j],
        forall|p: int| 0 <= p < n && pred(p) ==> positions(n, pred).contains(p),
    decreases n,
{
    if n > 0 {
        lemma_positions(n - 1, pred);
        let prev = positions(n - 1, pred);
        let cur = positions(n, pred);
        assert forall|p: int| 0 <= p < n && pred(p) implies cur.contains(p) by {
            if p == n - 1 {
                assert(cur[cur.len() - 1] == p);
            } else {
                assert(prev.contains(p));
                let i = choose|i: int| 0 <= i < prev.len() && prev[i] == p;
                assert(cur[i] == p);
            }
        }
    }
}

/// Positions at which `pred` fails add nothing.
pub proof fn lemma_positions_skip(lo: int, hi: int, pred: spec_fn(int) -> bool)
    requires
        0 <= lo <= hi,
        forall|p: int| lo <= p < hi ==> !#[trigger] pred(p),
    ensures
        positions(hi, pred) == positions(lo, pred),
    decreases hi - lo,
{
    if lo < hi {
        lemma_positions_skip(lo, hi - 1, pred);
    }
}

/// Position `p` of `text` begins a word: it holds a character that is not
/// whitespace, and no such character stands right before it.
pub open spec fn is_word_start(text: Seq<char>, p: int) -> bool {
    &&& 0 <= p < text.len()
    &&& !is_whitespace(text[p])
    &&& (p == 0 || is_whitespace(text[p - 1]))
}

/// `is_word_start` over the positions of one text.
pub open spec fn word_pred(text: Seq<char>) -> spec_fn(int) -> bool {
    |p: int| is_word_start(text, p)
}

/// The first position at or after `from` that holds whitespace, or the length
/// of `text` when there is none.
pub open spec fn word_end(text: Seq<char>, from: int) -> int
    decreases text.len() - from,
{
    if from < 0 || from >= text.len() || is_whitespace(text[from]) {
        from
    } else {
        word_end(text, from + 1)
    }
}

/// The words that begin at the positions `starts`.
pub open spec fn words_at(text: Seq<char>, starts: Seq<int>) -> Seq<Seq<char>> {
    Seq::new(starts.len(), |i: int| text.subrange(starts[i], word_end(text, starts[i])))
}

/// The words of `text`: its maximal runs of characters that are not
/// whitespace, in order.
pub open spec fn words(text: Seq<char>) -> Seq<Seq<char>> {
    words_at(text, positions(text.len() as int, word_pred(text)))
}

/// A word runs from its start to the next whitespace or to the end of the
/// text, and holds no whitespace.
pub proof fn lemma_word_end(text: Seq<char>, from: int)
    requires
        0 <= from <= text.len(),
    ensures
        from <= word_end(text, from) <= text.len(),
        forall|j: int| from <= j < word_end(text, from) ==> !is_whitespace(#[trigger] text[j]),
        word_end(text, from) == text.len() || is_whitespace(text[word_end(text, from)]),
    decreases text.len() - from,
{
    if from < text.len() && !is_whitespace(text[from]) {
        lemma_word_end(text, from + 1);
    }
}

/// No word is empty, and no word holds whitespace.
pub proof fn lemma_words_hold_no_whitespace(text: Seq<char>)
    ensures
        forall|i: int|
            0 <= i < words(text).len() ==> (#[trigger] words(text)[i]).len() > 0 && forall|j: int|
                0 <= j < words(text)[i].len() ==> !is_whitespace(#[trigger] words(text)[i][j]),
{
    let starts = positions(text.len() as int, word_pred(text));
    lemma_positions(text.len() as int, word_pred(text));
    assert forall|i: int| 0 <= i < words(text).len() implies (#[trigger] words(text)[i]).len() > 0
        && forall|j: int|
        0 <= j < words(text)[i].len() ==> !is_whitespace(#[trigger] words(text)[i][j]) by {
        let a = starts[i];
        assert(word_pred(text)(a));
        lemma_word_end(text, a);
        lemma_word_end(text, a + 1);
        let word = text.subrange(a, word_end(text, a));
        assert(words(text)[i] == word);
        assert forall|j: int| 0 <= j < word.len() implies !is_whitespace(#[trigger] word[j]) by {
            assert(word[j] == text[a + j]);
        }
    }
}

/// Splits a text into its words.
pub fn split_whitespace(text: &str) -> (r: Vec<String>)
    ensures
        texts(r@) == words(text@),
{
    let chars = to_chars(text);
    let n = chars.len();
    let ghost t = chars@;
    let ghost pred = word_pred(t);
    let mut out: Vec<String> = Vec::new();
    let mut p: usize = 0;
    assert(texts(out@) =~= words_at(t, positions(0, pred)));
    while p < n
        invariant
            chars@ == t,
            n == t.len(),
            pred == word_pred(t),
            p <= n,
            p == 0 || p == n || is_whitespace(t[p - 1]),
            texts(out@) == words_at(t, positions(p as int, pred)),
        decreases n - p,
    {
        if char_is_whitespace(chars[p]) {
            assert(!pred(p as int));
            p += 1;
        } else {
            let mut q: usize = p + 1;
            while q < n && !char_is_whitespace(chars[q])
                invariant
                    chars@ == t,
                    n == t.len(),
                    p < q <= n,
                    forall|j: int| p <= j < q ==> !is_whitespace(#[trigger] t[j]),
                    word_end(t, p as int) == word_end(t, q as int),
                decreases n - q,
            {
                q += 1;
            }
            let ghost prev = out@;
            let ghost starts = positions(p as int, pred);
            let word = from_chars(&chars, p, q);
            out.push(word);
            let next: usize = if q < n {
                q + 1
            } else {
                q
            };
            proof {
                assert(pred(p as int));
                assert(positions(p + 1, pred) == starts.push(p as int));
                assert forall|j: int| p + 1 <= j < next implies !#[trigger] pred(j) by {
                    if j < q {
                        assert(!is_whitespace(t[j - 1]));
                    }
                }
                lemma_positions_skip(p + 1, next as int, pred);
                lemma_texts_push(prev, word);
                assert(words_at(t, starts.push(p as int)) =~= words_at(t, starts).push(word@));
            }
            p = next;
        }
    }
    out
}

/// The items of `parts`, with one space between each two neighbours.
pub open spec fn join_with_space(parts: Seq<Seq<char>>) -> Seq<char>
    decreases parts.len(),
{
    if parts.len() == 0 {
        Seq::empty()
    } else if parts.len() == 1 {
        parts[0]
    } else {
        join_with_space(parts.drop_last()) + seq![' '] + parts.last()
    }
}

/// Joins `parts[from..to]` with single spaces.
pub fn join_range(parts: &Vec<String>, from: usize, to: usize) -> (s: String)
    requires
        from <= to <= parts.len(),
    ensures
        s@ == join_with_space(texts(parts@).subrange(from as int, to as int)),
{
    let mut s = String::new();
    let mut i: usize = from;
    let ghost all = texts(parts@);
    while i < to
        invariant
            from <= i <= to <= parts.len(),
            all == texts(parts@),
            s@ == join_with_space(all.subrange(from as int, i as int)),
        decreases to - i,
    {
        let ghost before = all.subrange(from as int, i as int);
        let ghost after = all.subrange(from as int, i + 1);
        proof {
            assert(after.drop_last() =~= before);
            assert(after.last() == parts@[i as int]@);
        }
        if i > from {
            s.push(' ');
            assert(s@ == join_with_space(before) + seq![' ']);
        }
        s.append(parts[i].as_str());
        i += 1;
    }
    s
}

/// The character of a decimal digit.
pub open spec fn digit(d: int) -> char {
    if d == 0 {
        '0'
    } else if d == 1 {
        '1'
    } else if d == 2 {
        '2'
    } else if d == 3 {
        '3'
    } else if d == 4 {
        '4'
    } else if d == 5 {
        '5'
    } else if d == 6 {
        '6'
    } else if d == 7 {
        '7'
    } else if d == 8 {
        '8'
    } else {
        '9'
    }
}

/// A number in decimal, without sign or leading zeros.
pub open spec fn decimal(n: nat) -> Seq<char>
    decreases n,
{
    if n < 10 {
        seq![digit(n as int)]
    } else {
        decimal(n / 10).push(digit((n % 10) as int))
    }
}

/// The character of the decimal digit `d`.
fn digit_char(d: usize) -> (c: char)
    requires
        d < 10,
    ensures
        c == digit(d as int),
{
    if d == 0 {
        '0'
    } else if d == 1 {
        '1'
    } else if d == 2 {
        '2'
    } else if d == 3 {
        '3'
    } else if d == 4 {
        '4'
    } else if d == 5 {
        '5'
    } else if d == 6 {
        '6'
    } else if d == 7 {
        '7'
    } else if d == 8 {
        '8'
    } else {
        '9'
    }
}

/// Appends `n` in decimal to `out`.
pub fn push_decimal(out: &mut String, n: usize)
    ensures
        final(out)@ == old(out)@ + decimal(n as nat),
    decreases n,
{
    if n >= 10 {
        push_decimal(out, n / 10);
    }
    out.push(digit_char(n % 10));
    assert(out@ =~= old(out)@ + decimal(n as nat));
}

} // verus!
