//! Splitting a long text into chunks of bounded length at word boundaries.
//!
//! Words are packed greedily: a chunk takes the next word as long as the
//! chunk, one space and the word together stay within the bound. A word that
//! is longer than the bound is never cut; it makes a chunk of its own.

use vstd::prelude::*;
use crate::text::all_words;
use crate::text::byte_len;
use crate::text::byte_length;
use crate::text::chars_of;
use crate::text::is_whitespace;
use crate::text::is_word;
use crate::text::join_words;
use crate::text::leading_whitespace;
use crate::text::lemma_byte_len_char;
use crate::text::lemma_byte_len_concat;
use crate::text::lemma_leading_whitespace_bound;
use crate::text::lemma_trailing_whitespace_bound;
use crate::text::lemma_words_are_words;
use crate::text::lemma_words_join;
use crate::text::lemma_words_trimmed;
use crate::text::split_words;
use crate::text::trailing_whitespace;
use crate::text::trim;
use crate::text::trimmed;
use crate::text::words;

verus! {

/// The state of greedy packing: the chunks that are closed, and the chunk
/// that still takes words (empty before the first word).
pub struct Packing {
    pub closed: Seq<Seq<char>>,
    pub open: Seq<char>,
}

/// Whether the open chunk cannot take `w`: with one space between them they
/// would be longer than `max` bytes.
pub open spec fn overflows(open: Seq<char>, w: Seq<char>, max: nat) -> bool {
    byte_len(open) + byte_len(w) + 1 > max
}

/// Packing after one more word.
pub open spec fn pack_step(p: Packing, w: Seq<char>, max: nat) -> Packing {
    if p.open.len() == 0 {
        Packing { closed: p.closed, open: w }
    } else if overflows(p.open, w, max) {
        Packing { closed: p.closed.push(p.open), open: w }
    } else {
        Packing { closed: p.closed, open: p.open + seq![' '] + w }
    }
}

/// Packing after all of `ws`, taken from left to right.
pub open spec fn pack(ws: Seq<Seq<char>>, max: nat) -> Packing
    decreases ws.len(),
{
    if ws.len() == 0 {
        Packing { closed: Seq::empty(), open: Seq::empty() }
    } else {
        pack_step(pack(ws.drop_last(), max), ws.last(), max)
    }
}

/// The chunks of a packing: the closed ones, then the open one unless it is
/// empty.
pub open spec fn chunks_of(p: Packing) -> Seq<Seq<char>> {
    if p.open.len() == 0 {
        p.closed
    } else {
        p.closed.push(p.open)
    }
}

/// The chunks that greedy packing makes of the words `ws`.
pub open spec fn pack_words(ws: Seq<Seq<char>>, max: nat) -> Seq<Seq<char>> {
    chunks_of(pack(ws, max))
}

/// The chunks of `text` for the bound `max`: a text within the bound is one
/// chunk, trimmed; a longer one is packed word by word.
pub open spec fn split_spec(text: Seq<char>, max: nat) -> Seq<Seq<char>> {
    if byte_len(text) <= max {
        seq![trimmed(text)]
    } else {
        pack_words(words(text), max)
    }
}

/// Packs `ws` greedily into chunks: a chunk takes the next word as long as
/// it stays within `max_length` bytes; a word that is longer than that makes
/// a chunk of its own.
pub fn pack_chunks(ws: &Vec<String>, max_length: usize) -> (chunks: Vec<String>)
    ensures
        chunks.deep_view() == pack_words(ws.deep_view(), max_length as nat),
{
    let ghost all = ws.deep_view();
    let ghost max = max_length as nat;
    let mut closed: Vec<String> = Vec::new();
    let mut open = String::new();
    let mut open_len: usize = 0;
    let mut i: usize = 0;
    assert(closed.deep_view() =~= Seq::<Seq<char>>::empty());
    while i < ws.len()
        invariant
            i <= ws.len(),
            all == ws.deep_view(),
            max == max_length as nat,
            closed.deep_view() == pack(all.take(i as int), max).closed,
            open@ == pack(all.take(i as int), max).open,
            open_len == byte_len(open@),
        decreases ws.len() - i,
    {
        let ghost before = pack(all.take(i as int), max);
        let ghost w = all[i as int];
        proof {
            assert(all.take(i + 1).drop_last() =~= all.take(i as int));
            assert(all.take(i + 1).last() == w);
            assert(w == ws[i as int]@);
        }
        let word_len = byte_length(ws[i].as_str());
        if open.as_str().is_empty() {
            open.append(ws[i].as_str());
            open_len = word_len;
            assert(open@ =~= w);
        } else {
            let too_long = if word_len >= max_length {
                true
            } else {
                open_len > max_length - 1 - word_len
            };
            assert(too_long == overflows(before.open, w, max));
            if too_long {
                let ghost closed_before = closed.deep_view();
                closed.push(open);
                assert(closed.deep_view() =~= closed_before.push(before.open));
                open = ws[i].clone();
                open_len = word_len;
            } else {
                proof {
                    lemma_byte_len_char(' ');
                    lemma_byte_len_concat(before.open, seq![' ']);
                    lemma_byte_len_concat(before.open + seq![' '], w);
                }
                open.append(" ");
                proof {
                    reveal_strlit(" ");
                    assert(" "@ =~= seq![' ']);
                }
                open.append(ws[i].as_str());
                open_len = open_len + 1 + word_len;
                assert(open@ =~= before.open + seq![' '] + w);
            }
        }
        i += 1;
    }
    assert(all.take(ws.len() as int) =~= all);
    if !open.as_str().is_empty() {
        let ghost closed_before = closed.deep_view();
        let ghost last = open@;
        closed.push(open);
        assert(closed.deep_view() =~= closed_before.push(last));
    }
    closed
}

/// Splits `text` into chunks at word boundaries. A text of at most
/// `max_length` bytes is one chunk, trimmed. A longer text is packed word by
/// word into chunks of at most `max_length` bytes; only a word that is longer
/// than that makes a longer chunk.
pub fn split_text(text: &str, max_length: usize) -> (chunks: Vec<String>)
    ensures
        chunks.deep_view() == split_spec(text@, max_length as nat),
{
    let chars = chars_of(text);
    if byte_length(text) <= max_length {
        let mut chunks: Vec<String> = Vec::new();
        let only = trim(&chars);
        let ghost t = only@;
        chunks.push(only);
        assert(chunks.deep_view() =~= seq![t]);
        return chunks;
    }
    let ws = split_words(&chars);
    pack_chunks(&ws, max_length)
}

/// A chunk is within the bound, or it is one of the words and too long by
/// itself.
pub open spec fn bounded_or_single_word(chunk: Seq<char>, ws: Seq<Seq<char>>, max: nat) -> bool {
    byte_len(chunk) <= max || (ws.contains(chunk) && byte_len(chunk) > max)
}

/// A text that neither starts nor ends with whitespace.
pub open spec fn is_trimmed(s: Seq<char>) -> bool {
    s.len() > 0 ==> !is_whitespace(s[0]) && !is_whitespace(s.last())
}

/// What holds of a packing of words at every step.
pub open spec fn packing_inv(p: Packing, ws: Seq<Seq<char>>, max: nat) -> bool {
    &&& p.open.len() == 0 <==> ws.len() == 0
    &&& p.open.len() == 0 ==> p.closed.len() == 0
    &&& bounded_or_single_word(p.open, ws, max) || p.open.len() == 0
    &&& is_trimmed(p.open)
    &&& forall|i: int|
        0 <= i < p.closed.len() ==> bounded_or_single_word(#[trigger] p.closed[i], ws, max)
            && is_trimmed(p.closed[i]) && p.closed[i].len() > 0
    &&& join_words(chunks_of(p)) == join_words(ws)
}

/// Greedy packing of words keeps its invariant.
pub proof fn lemma_pack_inv(ws: Seq<Seq<char>>, max: nat)
    requires
        all_words(ws),
    ensures
        packing_inv(pack(ws, max), ws, max),
    decreases ws.len(),
{
    if ws.len() == 0 {
        assert(chunks_of(pack(ws, max)) =~= ws);
    } else {
        let init = ws.drop_last();
        let w = ws.last();
        assert forall|i: int| 0 <= i < init.len() implies is_word(#[trigger] init[i]) by {
            assert(init[i] == ws[i]);
        }
        lemma_pack_inv(init, max);
        let p = pack(init, max);
        let q = pack(ws, max);
        assert(is_word(w));
        assert(ws.contains(w));
        assert forall|c: Seq<char>| bounded_or_single_word(c, init, max) implies bounded_or_single_word(
            c,
            ws,
            max,
        ) by {
            if init.contains(c) {
                let k = choose|k: int| 0 <= k < init.len() && init[k] == c;
                assert(ws[k] == c);
            }
        }
        if p.open.len() == 0 {
            assert(init.len() == 0);
            assert(chunks_of(q) =~= seq![w]);
            assert(ws =~= seq![w]);
        } else if overflows(p.open, w, max) {
            assert(chunks_of(q) =~= chunks_of(p).push(w));
            assert(chunks_of(q).drop_last() =~= chunks_of(p));
            assert forall|i: int| 0 <= i < q.closed.len() implies bounded_or_single_word(
                #[trigger] q.closed[i],
                ws,
                max,
            ) && is_trimmed(q.closed[i]) && q.closed[i].len() > 0 by {
                if i < p.closed.len() {
                    assert(q.closed[i] == p.closed[i]);
                }
            }
        } else {
            let joined = p.open + seq![' '] + w;
            lemma_byte_len_char(' ');
            lemma_byte_len_concat(p.open, seq![' ']);
            lemma_byte_len_concat(p.open + seq![' '], w);
            assert(joined[0] == p.open[0]);
            assert(joined.last() == w.last());
            assert(chunks_of(q) =~= p.closed.push(joined));
            assert(chunks_of(p) =~= p.closed.push(p.open));
            assert(chunks_of(q).drop_last() =~= p.closed);
            assert(chunks_of(p).drop_last() =~= p.closed);
            if p.closed.len() == 0 {
                assert(join_words(chunks_of(q)) =~= joined);
            } else {
                assert(join_words(chunks_of(q)) =~= join_words(p.closed) + seq![' '] + p.open
                    + seq![' '] + w);
            }
        }
    }
}

/// Every chunk is at most `max` bytes long, unless it is a single word of
/// the text that is longer than that by itself.
pub proof fn lemma_chunks_bounded(text: Seq<char>, max: nat)
    ensures
        forall|i: int|
            0 <= i < split_spec(text, max).len() ==> bounded_or_single_word(
                #[trigger] split_spec(text, max)[i],
                words(text),
                max,
            ),
{
    if byte_len(text) <= max {
        lemma_trimmed_is_shorter(text);
    } else {
        lemma_words_are_words(text);
        lemma_pack_inv(words(text), max);
    }
}

/// Joining the chunks with single spaces gives a text with the same words
/// as the text that was split, in the same order.
pub proof fn lemma_rejoined_chunks_keep_words(text: Seq<char>, max: nat)
    ensures
        words(join_words(split_spec(text, max))) == words(text),
{
    if byte_len(text) <= max {
        lemma_words_trimmed(text);
    } else {
        lemma_words_are_words(text);
        lemma_pack_inv(words(text), max);
        lemma_words_join(words(text));
    }
}

/// A text within the bound makes exactly one chunk: the text, trimmed.
pub proof fn lemma_short_text_is_one_chunk(text: Seq<char>, max: nat)
    requires
        byte_len(text) <= max,
    ensures
        split_spec(text, max) == seq![trimmed(text)],
        split_spec(text, max).len() == 1,
{
}

/// Splitting a chunk that is within the bound gives that chunk back,
/// unchanged.
pub proof fn lemma_split_again_is_identity(text: Seq<char>, max: nat, i: int)
    requires
        0 <= i < split_spec(text, max).len(),
        byte_len(split_spec(text, max)[i]) <= max,
    ensures
        split_spec(split_spec(text, max)[i], max) == seq![split_spec(text, max)[i]],
{
    let chunk = split_spec(text, max)[i];
    if byte_len(text) <= max {
        lemma_trimmed_is_trimmed(text);
    } else {
        lemma_words_are_words(text);
        lemma_pack_inv(words(text), max);
    }
    lemma_trim_of_trimmed(chunk);
}

/// A trimmed text is no longer than the text.
pub proof fn lemma_trimmed_is_shorter(s: Seq<char>)
    ensures
        byte_len(trimmed(s)) <= byte_len(s),
{
    let from = leading_whitespace(s) as int;
    lemma_leading_whitespace_bound(s);
    lemma_trailing_whitespace_bound(s);
    if from < s.len() {
        let to = s.len() - trailing_whitespace(s);
        let head = s.take(from);
        let tail = s.skip(to);
        assert(s =~= head + trimmed(s) + tail);
        lemma_byte_len_concat(head, trimmed(s));
        lemma_byte_len_concat(head + trimmed(s), tail);
    } else {
        assert(vstd::utf8::encode_utf8(trimmed(s)) =~= Seq::<u8>::empty());
    }
}

/// A trimmed text neither starts nor ends with whitespace.
pub proof fn lemma_trimmed_is_trimmed(s: Seq<char>)
    ensures
        is_trimmed(trimmed(s)),
{
    lemma_leading_whitespace_bound(s);
    lemma_trailing_whitespace_bound(s);
}

/// Trimming a text that neither starts nor ends with whitespace changes
/// nothing.
pub proof fn lemma_trim_of_trimmed(s: Seq<char>)
    requires
        is_trimmed(s),
    ensures
        trimmed(s) == s,
{
    if s.len() > 0 {
        assert(leading_whitespace(s) == 0);
        assert(trailing_whitespace(s) == 0);
        assert(s.subrange(0, s.len() as int) =~= s);
    } else {
        assert(trimmed(s) =~= s);
    }
}

} // verus!
