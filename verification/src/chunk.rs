//! Splitting a document into retrievable chunks, either at its top-level
//! markdown headers or into overlapping windows of words.

use vstd::prelude::*;
use vstd::seq_lib::lemma_flatten_concat;
use crate::error::ChunkError;
use crate::text::{
    from_chars, is_blank, is_whitespace, join_range, join_with_space, lemma_positions,
    lemma_positions_skip, lemma_texts_push, positions, range_is_blank, split_whitespace, texts,
    to_chars, words,
};

verus! {

/// Position `p` of `text` begins a top-level header: it is the first position
/// of a line, holds `#` followed by a space, and the character after the space
/// (if any) is not another `#`.
pub open spec fn is_header_start(text: Seq<char>, p: int) -> bool {
    &&& 0 <= p < text.len()
    &&& (p == 0 || text[p - 1] == '\n')
    &&& text[p] == '#'
    &&& p + 1 < text.len()
    &&& text[p + 1] == ' '
    &&& (p + 2 < text.len() ==> text[p + 2] != '#')
}

/// `is_header_start` over the positions of one text.
pub open spec fn header_pred(text: Seq<char>) -> spec_fn(int) -> bool {
    |p: int| is_header_start(text, p)
}

/// The header starts of `text`, in increasing order.
pub open spec fn header_starts(text: Seq<char>) -> Seq<int> {
    positions(text.len() as int, header_pred(text))
}

/// The pieces into which `cuts` divide `text`: one before the first cut, one
/// between each two neighbours, and one after the last.
pub open spec fn cut_pieces(text: Seq<char>, cuts: Seq<int>) -> Seq<Seq<char>> {
    Seq::new(
        cuts.len() + 1,
        |i: int|
            text.subrange(
                if i == 0 {
                    0
                } else {
                    cuts[i - 1]
                },
                if i == cuts.len() {
                    text.len() as int
                } else {
                    cuts[i]
                },
            ),
    )
}

/// The test that keeps a piece: it holds a character that is not whitespace.
pub open spec fn has_content() -> spec_fn(Seq<char>) -> bool {
    |piece: Seq<char>| !is_blank(piece)
}

/// The pieces of `pieces` that are not blank, in order.
pub open spec fn drop_blank(pieces: Seq<Seq<char>>) -> Seq<Seq<char>> {
    pieces.filter(has_content())
}

/// The chunks of a markdown text: it is cut in front of every top-level
/// header, and the pieces that hold only whitespace are dropped.
pub open spec fn header_chunks(text: Seq<char>) -> Seq<Seq<char>> {
    drop_blank(cut_pieces(text, header_starts(text)))
}

/// Decides whether position `p` begins a top-level header.
fn header_at(chars: &Vec<char>, p: usize) -> (r: bool)
    requires
        p < chars.len(),
    ensures
        r == is_header_start(chars@, p as int),
{
    let n = chars.len();
    (p == 0 || chars[p - 1] == '\n') && chars[p] == '#' && n - p > 1 && chars[p + 1] == ' ' && !(n
        - p > 2 && chars[p + 2] == '#')
}

/// Dropping blank pieces after appending one piece.
proof fn lemma_drop_blank_push(pieces: Seq<Seq<char>>, piece: Seq<char>)
    ensures
        drop_blank(pieces.push(piece)) == if is_blank(piece) {
            drop_blank(pieces)
        } else {
            drop_blank(pieces).push(piece)
        },
{
    pieces.lemma_filter_push(piece, has_content());
}

/// A filter keeps a sequence whose items all pass.
proof fn lemma_filter_keeps_all<A>(s: Seq<A>, pred: spec_fn(A) -> bool)
    requires
        forall|i: int| 0 <= i < s.len() ==> pred(#[trigger] s[i]),
    ensures
        s.filter(pred) == s,
    decreases s.len(),
{
    if s.len() == 0 {
        reveal(Seq::filter);
    } else {
        lemma_filter_keeps_all(s.drop_last(), pred);
        s.drop_last().lemma_filter_push(s.last(), pred);
        assert(s.drop_last().push(s.last()) =~= s);
    }
}

/// Where the piece that begins at header `i` ends: at the next header, or at
/// the end of the text.
pub open spec fn header_piece_end(text: Seq<char>, i: int) -> int {
    if i + 1 < header_starts(text).len() {
        header_starts(text)[i + 1]
    } else {
        text.len() as int
    }
}

/// The piece that begins at header `i` holds at least its `# ` and is not
/// blank.
proof fn lemma_header_piece(text: Seq<char>, i: int)
    requires
        0 <= i < header_starts(text).len(),
    ensures
        is_header_start(text, header_starts(text)[i]),
        header_starts(text)[i] + 2 <= header_piece_end(text, i) <= text.len(),
        cut_pieces(text, header_starts(text))[i + 1] == text.subrange(
            header_starts(text)[i],
            header_piece_end(text, i),
        ),
        !is_blank(text.subrange(header_starts(text)[i], header_piece_end(text, i))),
{
    let cuts = header_starts(text);
    let pred = header_pred(text);
    lemma_positions(text.len() as int, pred);
    let from = cuts[i];
    let to = header_piece_end(text, i);
    assert(pred(from));
    if i + 1 < cuts.len() {
        assert(pred(cuts[i + 1]));
        assert(cuts[i] < cuts[i + 1]);
    }
    assert(text.subrange(from, to)[0] == '#');
}

/// Cutting loses nothing: the pieces, one after the other, are the text.
pub proof fn lemma_pieces_make_the_text(text: Seq<char>, cuts: Seq<int>)
    requires
        forall|i: int| 0 <= i < cuts.len() ==> 0 <= #[trigger] cuts[i] <= text.len(),
        forall|i: int, j: int| 0 <= i < j < cuts.len() ==> #[trigger] cuts[i] <= #[trigger] cuts[j],
    ensures
        cut_pieces(text, cuts).flatten() == text,
    decreases cuts.len(),
{
    let pieces = cut_pieces(text, cuts);
    if cuts.len() == 0 {
        assert(pieces[0] =~= text);
        pieces.lemma_flatten_singleton();
    } else {
        let last = cuts.last();
        let front = text.take(last);
        let init = cuts.drop_last();
        let tail = text.subrange(last, text.len() as int);
        lemma_pieces_make_the_text(front, init);
        assert(pieces =~= cut_pieces(front, init).push(tail)) by {
            assert forall|i: int| 0 <= i < pieces.len() implies pieces[i] == cut_pieces(
                front,
                init,
            ).push(tail)[i] by {
                if i < init.len() {
                    assert(cuts[i] <= last);
                    if i > 0 {
                        assert(cuts[i - 1] <= cuts[i]);
                    }
                    assert(pieces[i] =~= cut_pieces(front, init)[i]);
                } else if i == init.len() {
                    if i > 0 {
                        assert(cuts[i - 1] <= last);
                    }
                    assert(pieces[i] =~= cut_pieces(front, init)[i]);
                }
            }
        }
        cut_pieces(front, init).lemma_flatten_push(tail);
        assert(front + tail =~= text);
    }
}

/// Header splitting loses nothing but blank pieces: the pieces in front of
/// and between the headers, one after the other, are the text.
pub proof fn lemma_header_pieces_make_the_text(text: Seq<char>)
    ensures
        cut_pieces(text, header_starts(text)).flatten() == text,
{
    lemma_positions(text.len() as int, header_pred(text));
    lemma_pieces_make_the_text(text, header_starts(text));
}

/// A text that holds only whitespace has no chunks.
pub proof fn lemma_blank_text_has_no_chunks(text: Seq<char>)
    requires
        is_blank(text),
    ensures
        header_chunks(text).len() == 0,
{
    let pred = header_pred(text);
    assert forall|p: int| 0 <= p < text.len() implies !#[trigger] pred(p) by {
        assert(is_whitespace(text[p]));
    }
    lemma_positions_skip(0, text.len() as int, pred);
    let pieces = cut_pieces(text, header_starts(text));
    assert(header_starts(text) =~= Seq::empty());
    assert(text.subrange(0, text.len() as int) =~= text);
    assert(pieces[0] == text);
    assert(pieces =~= Seq::<Seq<char>>::empty().push(text));
    lemma_drop_blank_push(Seq::empty(), text);
    reveal(Seq::filter);
}

/// A text without a top-level header that is not blank is its own single
/// chunk.
pub proof fn lemma_text_without_header_is_one_chunk(text: Seq<char>)
    requires
        header_starts(text).len() == 0,
        !is_blank(text),
    ensures
        header_chunks(text) == seq![text],
{
    let pieces = cut_pieces(text, header_starts(text));
    assert(text.subrange(0, text.len() as int) =~= text);
    assert(pieces[0] == text);
    assert(pieces =~= Seq::<Seq<char>>::empty().push(text));
    lemma_drop_blank_push(Seq::empty(), text);
    reveal(Seq::filter);
    assert(header_chunks(text) =~= seq![text]);
}

/// A text with `n >= 1` top-level headers and nothing but whitespace in front
/// of the first one has exactly `n` chunks. Chunk `i` runs from header `i` to
/// the next header (the last one to the end of the text), so it is not empty
/// and begins with its header line. Together the chunks hold the text from
/// its first header on.
pub proof fn lemma_one_chunk_per_header(text: Seq<char>)
    requires
        header_starts(text).len() >= 1,
        is_blank(text.subrange(0, header_starts(text)[0])),
    ensures
        header_chunks(text).len() == header_starts(text).len(),
        header_chunks(text).flatten() == text.skip(header_starts(text)[0]),
        forall|i: int|
            0 <= i < header_starts(text).len() ==> {
                &&& #[trigger] header_chunks(text)[i] == text.subrange(
                    header_starts(text)[i],
                    header_piece_end(text, i),
                )
                &&& is_header_start(text, header_starts(text)[i])
                &&& header_chunks(text)[i].len() >= 2
                &&& header_chunks(text)[i][0] == '#'
                &&& header_chunks(text)[i][1] == ' '
            },
{
    let cuts = header_starts(text);
    let pieces = cut_pieces(text, cuts);
    let first = pieces[0];
    let rest = pieces.subrange(1, pieces.len() as int);
    assert(pieces =~= seq![first] + rest);
    assert forall|i: int| 0 <= i < rest.len() implies has_content()(#[trigger] rest[i]) by {
        lemma_header_piece(text, i);
    }
    lemma_filter_keeps_all(rest, has_content());
    rest.lemma_filter_prepend(first, has_content());
    assert(header_chunks(text) =~= rest);
    assert(rest.flatten() == text.skip(cuts[0])) by {
        lemma_header_pieces_make_the_text(text);
        lemma_positions(text.len() as int, header_pred(text));
        lemma_flatten_concat(seq![first], rest);
        seq![first].lemma_flatten_singleton();
        assert(text.skip(cuts[0]) =~= (first + rest.flatten()).skip(first.len() as int));
        assert((first + rest.flatten()).skip(first.len() as int) =~= rest.flatten());
    }
    assert forall|i: int| 0 <= i < cuts.len() implies {
        &&& #[trigger] header_chunks(text)[i] == text.subrange(cuts[i], header_piece_end(text, i))
        &&& is_header_start(text, cuts[i])
        &&& header_chunks(text)[i].len() >= 2
        &&& header_chunks(text)[i][0] == '#'
        &&& header_chunks(text)[i][1] == ' '
    } by {
        lemma_header_piece(text, i);
        assert(rest[i] == pieces[i + 1]);
    }
}

/// Splits markdown at its top-level headers. Each header line begins a new
/// chunk; whitespace-only pieces are dropped. Never fails.
pub fn chunk(content: String) -> (r: Result<Vec<String>, ChunkError>)
    ensures
        r is Ok,
        texts(r->Ok_0@) == header_chunks(content@),
{
    let chars = to_chars(content.as_str());
    let n = chars.len();
    let ghost text = chars@;
    let ghost pred = header_pred(text);
    let mut chunks: Vec<String> = Vec::new();
    let mut start: usize = 0;
    let mut p: usize = 0;
    assert(cut_pieces(text, positions(0, pred)).drop_last() =~= Seq::empty());
    assert(texts(chunks@) =~= Seq::empty());
    while p < n
        invariant
            chars@ == text,
            n == text.len(),
            pred == header_pred(text),
            0 <= start <= p <= n,
            start as int == (if positions(p as int, pred).len() == 0 {
                0
            } else {
                positions(p as int, pred).last()
            }),
            texts(chunks@) == drop_blank(cut_pieces(text, positions(p as int, pred)).drop_last()),
        decreases n - p,
    {
        let ghost cuts = positions(p as int, pred);
        let ghost done = cut_pieces(text, cuts).drop_last();
        if header_at(&chars, p) {
            let ghost piece = text.subrange(start as int, p as int);
            proof {
                assert(pred(p as int));
                assert(positions(p + 1, pred) == cuts.push(p as int));
                assert(cut_pieces(text, cuts.push(p as int)).drop_last() =~= done.push(piece));
                lemma_drop_blank_push(done, piece);
            }
            if !range_is_blank(&chars, start, p) {
                let ghost prev = chunks@;
                let s = from_chars(&chars, start, p);
                chunks.push(s);
                proof {
                    lemma_texts_push(prev, s);
                }
            }
            start = p;
        } else {
            assert(!pred(p as int));
        }
        p += 1;
    }
    let ghost cuts = header_starts(text);
    let ghost done = cut_pieces(text, cuts).drop_last();
    let ghost piece = text.subrange(start as int, n as int);
    proof {
        assert(cut_pieces(text, cuts) =~= done.push(piece));
        lemma_drop_blank_push(done, piece);
    }
    if !range_is_blank(&chars, start, n) {
        let ghost prev = chunks@;
        let s = from_chars(&chars, start, n);
        chunks.push(s);
        proof {
            lemma_texts_push(prev, s);
        }
    }
    Ok(chunks)
}

/// The overlap that is applied: the requested one, held below the window's
/// size so that each window begins after the one before it.
pub open spec fn effective_overlap(max_words: int, overlap: int) -> int {
    if overlap < max_words - 1 {
        overlap
    } else {
        max_words - 1
    }
}

/// The distance between the starts of two neighbouring windows.
pub open spec fn window_step(max_words: int, overlap: int) -> int {
    max_words - effective_overlap(max_words, overlap)
}

/// The number of windows over `word_count` words.
pub open spec fn window_count(word_count: int, max_words: int, overlap: int) -> int {
    let step = window_step(max_words, overlap);
    if word_count <= 0 {
        0
    } else if word_count <= max_words {
        1
    } else {
        1 + (word_count - max_words + step - 1) / step
    }
}

/// The index of the first word of window `i`.
pub open spec fn window_start(i: int, max_words: int, overlap: int) -> int {
    i * window_step(max_words, overlap)
}

/// The index behind the last word of window `i`.
pub open spec fn window_end(i: int, word_count: int, max_words: int, overlap: int) -> int {
    let full = window_start(i, max_words, overlap) + max_words;
    if full < word_count {
        full
    } else {
        word_count
    }
}

/// The chunks of a text under the word-window policy: window `i` holds the
/// words from `window_start` to `window_end`, joined by single spaces.
pub open spec fn word_windows(text: Seq<char>, max_words: int, overlap: int) -> Seq<Seq<char>> {
    let w = words(text);
    Seq::new(
        window_count(w.len() as int, max_words, overlap) as nat,
        |i: int|
            join_with_space(
                w.subrange(
                    window_start(i, max_words, overlap),
                    window_end(i, w.len() as int, max_words, overlap),
                ),
            ),
    )
}

/// The windows cover the words without a gap. The first begins at word 0,
/// each begins `window_step` words after the one before it and not behind that
/// one's end, none is empty, and the last ends exactly at the last word.
pub proof fn lemma_windows_cover(word_count: int, max_words: int, overlap: int)
    requires
        word_count >= 1,
        max_words >= 1,
        overlap >= 0,
    ensures
        1 <= window_step(max_words, overlap) <= max_words,
        window_count(word_count, max_words, overlap) >= 1,
        window_start(0, max_words, overlap) == 0,
        window_end(
            window_count(word_count, max_words, overlap) - 1,
            word_count,
            max_words,
            overlap,
        ) == word_count,
        forall|i: int|
            0 <= i < window_count(word_count, max_words, overlap) ==> 0 <= #[trigger] window_start(
                i,
                max_words,
                overlap,
            ) < window_end(i, word_count, max_words, overlap) <= word_count,
        forall|i: int|
            0 <= i < window_count(word_count, max_words, overlap) - 1 ==> #[trigger] window_start(
                i + 1,
                max_words,
                overlap,
            ) == window_start(i, max_words, overlap) + window_step(max_words, overlap)
                && window_start(i + 1, max_words, overlap) <= window_end(
                i,
                word_count,
                max_words,
                overlap,
            ),
{
    let step = window_step(max_words, overlap);
    let count = window_count(word_count, max_words, overlap);
    assert(0 * step == 0);
    lemma_last_window(word_count, max_words, overlap);
    assert forall|i: int| 0 <= i < count implies 0 <= #[trigger] window_start(i, max_words, overlap)
        < window_end(i, word_count, max_words, overlap) <= word_count by {
        lemma_window_start_in_range(i, word_count, max_words, overlap);
    }
    assert forall|i: int| 0 <= i < count - 1 implies #[trigger] window_start(
        i + 1,
        max_words,
        overlap,
    ) == window_start(i, max_words, overlap) + step && window_start(i + 1, max_words, overlap)
        <= window_end(i, word_count, max_words, overlap) by {
        assert((i + 1) * step == i * step + step) by (nonlinear_arith);
        lemma_window_start_in_range(i + 1, word_count, max_words, overlap);
    }
}

/// The last window begins in front of the last word and reaches it.
proof fn lemma_last_window(word_count: int, max_words: int, overlap: int)
    requires
        word_count >= 1,
        max_words >= 1,
        overlap >= 0,
    ensures
        window_count(word_count, max_words, overlap) >= 1,
        window_start(window_count(word_count, max_words, overlap) - 1, max_words, overlap)
            < word_count,
        window_start(window_count(word_count, max_words, overlap) - 1, max_words, overlap)
            + max_words >= word_count,
{
    let step = window_step(max_words, overlap);
    if word_count <= max_words {
        assert(0 * step == 0);
    } else {
        let a = word_count - max_words + step - 1;
        let k = a / step;
        assert(k * step <= a && a < k * step + step && k >= 0) by (nonlinear_arith)
            requires
                k == a / step,
                step >= 1,
                a >= 0,
        ;
    }
}

/// Every window begins in front of the last word.
proof fn lemma_window_start_in_range(i: int, word_count: int, max_words: int, overlap: int)
    requires
        word_count >= 1,
        max_words >= 1,
        overlap >= 0,
        0 <= i < window_count(word_count, max_words, overlap),
    ensures
        0 <= window_start(i, max_words, overlap) < word_count,
{
    let step = window_step(max_words, overlap);
    let last = window_count(word_count, max_words, overlap) - 1;
    lemma_last_window(word_count, max_words, overlap);
    assert(0 <= i * step <= last * step) by (nonlinear_arith)
        requires
            0 <= i <= last,
            step >= 1,
    ;
}

/// Splits a text into windows of at most `max_words_per_chunk` words, each
/// window sharing `overlap_word_count` words with the one before it (fewer
/// when the window's size does not allow as many). Never fails.
pub fn chunk_by_words(content: String, max_words_per_chunk: usize, overlap_word_count: usize) -> (r:
    Result<Vec<String>, ChunkError>)
    requires
        max_words_per_chunk > 0,
    ensures
        r is Ok,
        texts(r->Ok_0@) == word_windows(
            content@,
            max_words_per_chunk as int,
            overlap_word_count as int,
        ),
{
    let word_list = split_whitespace(content.as_str());
    let word_count = word_list.len();
    let mut chunks: Vec<String> = Vec::new();
    let ghost max_words = max_words_per_chunk as int;
    let ghost overlap = overlap_word_count as int;
    let ghost w = texts(word_list@);
    if word_count == 0 {
        assert(texts(chunks@) =~= word_windows(content@, max_words, overlap));
        return Ok(chunks);
    }
    let effective_overlap = if overlap_word_count < max_words_per_chunk - 1 {
        overlap_word_count
    } else {
        max_words_per_chunk - 1
    };
    let step_size = max_words_per_chunk - effective_overlap;
    let num_chunks = if word_count <= max_words_per_chunk {
        1
    } else {
        1 + (word_count - max_words_per_chunk + step_size - 1) / step_size
    };
    let mut i: usize = 0;
    while i < num_chunks
        invariant
            w == texts(word_list@),
            w == words(content@),
            word_count == word_list.len(),
            word_count >= 1,
            max_words == max_words_per_chunk,
            overlap == overlap_word_count,
            max_words >= 1,
            step_size == window_step(max_words, overlap),
            num_chunks == window_count(word_count as int, max_words, overlap),
            i <= num_chunks,
            chunks.len() == i,
            forall|j: int|
                0 <= j < i ==> #[trigger] chunks@[j]@ == join_with_space(
                    w.subrange(
                        window_start(j, max_words, overlap),
                        window_end(j, word_count as int, max_words, overlap),
                    ),
                ),
        decreases num_chunks - i,
    {
        proof {
            lemma_window_start_in_range(i as int, word_count as int, max_words, overlap);
        }
        let start_position = i * step_size;
        let end_position = if word_count - start_position <= max_words_per_chunk {
            word_count
        } else {
            start_position + max_words_per_chunk
        };
        let chunk = join_range(&word_list, start_position, end_position);
        chunks.push(chunk);
        i += 1;
    }
    assert(texts(chunks@) =~= word_windows(content@, max_words, overlap));
    Ok(chunks)
}

} // verus!
