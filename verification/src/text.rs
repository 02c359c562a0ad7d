//! Characters, words and byte lengths of chat text.
//!
//! Text is modelled as a sequence of characters. Its length is counted in
//! bytes of its UTF-8 encoding, and its words are the maximal runs of
//! characters that are not whitespace.

use vstd::prelude::*;
use vstd::utf8::encode_scalar;
use vstd::utf8::encode_utf8;

verus! {

/// The characters that separate words: the Unicode `White_Space` code points.
pub open spec fn is_whitespace(c: char) -> bool {
    let v = c as u32;
    ||| 0x09 <= v <= 0x0D
    ||| v == 0x20
    ||| v == 0x85
    ||| v == 0xA0
    ||| v == 0x1680
    ||| 0x2000 <= v <= 0x200A
    ||| v == 0x2028
    ||| v == 0x2029
    ||| v == 0x202F
    ||| v == 0x205F
    ||| v == 0x3000
}

/// The length of `s` in bytes of its UTF-8 encoding.
pub open spec fn byte_len(s: Seq<char>) -> nat {
    encode_utf8(s).len()
}

/// The number of whitespace characters at the start of `s`.
pub open spec fn leading_whitespace(s: Seq<char>) -> nat
    decreases s.len(),
{
    if s.len() > 0 && is_whitespace(s[0]) {
        1 + leading_whitespace(s.drop_first())
    } else {
        0
    }
}

/// The number of whitespace characters at the end of `s`.
pub open spec fn trailing_whitespace(s: Seq<char>) -> nat
    decreases s.len(),
{
    if s.len() > 0 && is_whitespace(s.last()) {
        1 + trailing_whitespace(s.drop_last())
    } else {
        0
    }
}

/// `s` without the whitespace at its start and at its end.
pub open spec fn trimmed(s: Seq<char>) -> Seq<char> {
    let from = leading_whitespace(s);
    if from == s.len() {
        Seq::empty()
    } else {
        s.subrange(from as int, s.len() - trailing_whitespace(s))
    }
}

/// The length of the longest prefix of `s` that holds no whitespace.
pub open spec fn word_len(s: Seq<char>) -> nat
    decreases s.len(),
{
    if s.len() > 0 && !is_whitespace(s[0]) {
        1 + word_len(s.drop_first())
    } else {
        0
    }
}

/// The first run of characters without whitespace ends inside `s`.
pub proof fn lemma_word_len_bound(s: Seq<char>)
    ensures
        word_len(s) <= s.len(),
        forall|i: int| 0 <= i < word_len(s) ==> !is_whitespace(#[trigger] s[i]),
        word_len(s) < s.len() ==> is_whitespace(s[word_len(s) as int]),
    decreases s.len(),
{
    if s.len() > 0 && !is_whitespace(s[0]) {
        let t = s.drop_first();
        lemma_word_len_bound(t);
        assert forall|i: int| 0 <= i < word_len(s) implies !is_whitespace(#[trigger] s[i]) by {
            if i > 0 {
                assert(s[i] == t[i - 1]);
            }
        }
        if word_len(s) < s.len() {
            assert(s[word_len(s) as int] == t[word_len(t) as int]);
        }
    }
}

/// The words of `s`: its maximal runs of characters that are not whitespace,
/// from left to right.
pub open spec fn words(s: Seq<char>) -> Seq<Seq<char>>
    decreases s.len(),
{
    if s.len() == 0 {
        Seq::empty()
    } else if is_whitespace(s[0]) {
        words(s.drop_first())
    } else {
        proof {
            lemma_word_len_bound(s);
        }
        seq![s.take(word_len(s) as int)] + words(s.skip(word_len(s) as int))
    }
}

/// A word is not empty and holds no whitespace.
pub open spec fn is_word(w: Seq<char>) -> bool {
    &&& w.len() > 0
    &&& forall|i: int| 0 <= i < w.len() ==> !is_whitespace(#[trigger] w[i])
}

/// Every member of `ws` is a word.
pub open spec fn all_words(ws: Seq<Seq<char>>) -> bool {
    forall|i: int| 0 <= i < ws.len() ==> is_word(#[trigger] ws[i])
}

/// The members of `ws` in order, with one space between neighbours.
pub open spec fn join_words(ws: Seq<Seq<char>>) -> Seq<char>
    decreases ws.len(),
{
    if ws.len() == 0 {
        Seq::empty()
    } else if ws.len() == 1 {
        ws[0]
    } else {
        join_words(ws.drop_last()) + seq![' '] + ws.last()
    }
}

/// Tells whether `c` separates words.
pub fn char_is_whitespace(c: char) -> (r: bool)
    ensures
        r == is_whitespace(c),
{
    let v: u32 = c as u32;
    (0x09 <= v && v <= 0x0D) || v == 0x20 || v == 0x85 || v == 0xA0 || v == 0x1680 || (0x2000 <= v
        && v <= 0x200A) || v == 0x2028 || v == 0x2029 || v == 0x202F || v == 0x205F || v == 0x3000
}

/// Appends one character to a `String` (`String::push`): the text afterwards
/// is the text before followed by `c`.
#[verifier::external_body]
pub(crate) fn push_char(s: &mut String, c: char)
    ensures
        final(s)@ == old(s)@.push(c),
{
    s.push(c)
}

/// The characters of `s`, in order.
pub fn chars_of(s: &str) -> (v: Vec<char>)
    ensures
        v@ == s@,
{
    let mut v: Vec<char> = Vec::new();
    for c in it: s.chars()
        invariant
            v@ == it.seq().take(it.index()),
            it.seq() == s@,
    {
        v.push(c);
    }
    v
}

/// The text made of `chars[from..to]`.
pub fn string_of(chars: &Vec<char>, from: usize, to: usize) -> (s: String)
    requires
        from <= to <= chars@.len(),
    ensures
        s@ == chars@.subrange(from as int, to as int),
{
    let mut s = String::new();
    let mut i: usize = from;
    while i < to
        invariant
            from <= i <= to <= chars@.len(),
            s@ == chars@.subrange(from as int, i as int),
        decreases to - i,
    {
        push_char(&mut s, chars[i]);
        i += 1;
        assert(s@ =~= chars@.subrange(from as int, i as int));
    }
    s
}

/// The length of `s` in bytes.
pub fn byte_length(s: &str) -> (n: usize)
    ensures
        n == byte_len(s@),
{
    s.as_bytes().len()
}

/// The byte length of a concatenation is the sum of the parts' byte lengths.
pub proof fn lemma_byte_len_concat(a: Seq<char>, b: Seq<char>)
    ensures
        byte_len(a + b) == byte_len(a) + byte_len(b),
    decreases a.len(),
{
    if a.len() == 0 {
        assert(a + b =~= b);
    } else {
        assert((a + b).drop_first() =~= a.drop_first() + b);
        lemma_byte_len_concat(a.drop_first(), b);
    }
}

/// One character takes between one and four bytes; a space takes one.
pub proof fn lemma_byte_len_char(c: char)
    ensures
        1 <= byte_len(seq![c]) <= 4,
        c == ' ' ==> byte_len(seq![c]) == 1,
{
    let s = seq![c];
    assert(s.drop_first() =~= Seq::<char>::empty());
    assert(encode_utf8(s.drop_first()) =~= Seq::<u8>::empty());
    assert(encode_utf8(s) =~= encode_scalar(c as u32));
}

/// Where the first `k` characters of `s` hold no whitespace, the first run
/// goes on after them.
pub proof fn lemma_word_len_prefix(s: Seq<char>, k: int)
    requires
        0 <= k <= s.len(),
        forall|i: int| 0 <= i < k ==> !is_whitespace(#[trigger] s[i]),
    ensures
        word_len(s) == k + word_len(s.skip(k)),
    decreases k,
{
    if k == 0 {
        assert(s.skip(0) =~= s);
    } else {
        let t = s.drop_first();
        assert forall|i: int| 0 <= i < k - 1 implies !is_whitespace(#[trigger] t[i]) by {
            assert(t[i] == s[i + 1]);
        }
        lemma_word_len_prefix(t, k - 1);
        assert(t.skip(k - 1) =~= s.skip(k));
    }
}

/// Where the first `k` characters of `s` are whitespace, the leading
/// whitespace goes on after them.
pub proof fn lemma_leading_whitespace_prefix(s: Seq<char>, k: int)
    requires
        0 <= k <= s.len(),
        forall|i: int| 0 <= i < k ==> is_whitespace(#[trigger] s[i]),
    ensures
        leading_whitespace(s) == k + leading_whitespace(s.skip(k)),
        words(s) == words(s.skip(k)),
    decreases k,
{
    if k == 0 {
        assert(s.skip(0) =~= s);
    } else {
        let t = s.drop_first();
        assert forall|i: int| 0 <= i < k - 1 implies is_whitespace(#[trigger] t[i]) by {
            assert(t[i] == s[i + 1]);
        }
        lemma_leading_whitespace_prefix(t, k - 1);
        assert(t.skip(k - 1) =~= s.skip(k));
    }
}

/// Where the last `k` characters of `s` are whitespace, the trailing
/// whitespace goes on before them.
pub proof fn lemma_trailing_whitespace_suffix(s: Seq<char>, k: int)
    requires
        0 <= k <= s.len(),
        forall|i: int| s.len() - k <= i < s.len() ==> is_whitespace(#[trigger] s[i]),
    ensures
        trailing_whitespace(s) == k + trailing_whitespace(s.take(s.len() - k)),
    decreases k,
{
    if k == 0 {
        assert(s.take(s.len() as int) =~= s);
    } else {
        let t = s.drop_last();
        assert forall|i: int| t.len() - (k - 1) <= i < t.len() implies is_whitespace(
            #[trigger] t[i],
        ) by {
            assert(t[i] == s[i]);
        }
        lemma_trailing_whitespace_suffix(t, k - 1);
        assert(t.take(t.len() - (k - 1)) =~= s.take(s.len() - k));
    }
}

/// `chars` without the whitespace at its start and at its end.
pub fn trim(chars: &Vec<char>) -> (r: String)
    ensures
        r@ == trimmed(chars@),
{
    let n = chars.len();
    let mut from: usize = 0;
    while from < n && char_is_whitespace(chars[from])
        invariant
            from <= n == chars@.len(),
            forall|i: int| 0 <= i < from ==> is_whitespace(#[trigger] chars@[i]),
        decreases n - from,
    {
        from += 1;
    }
    proof {
        lemma_leading_whitespace_prefix(chars@, from as int);
        if from < n {
            assert(chars@.skip(from as int)[0] == chars@[from as int]);
        }
    }
    if from == n {
        return String::new();
    }
    let mut to: usize = n;
    while to > from && char_is_whitespace(chars[to - 1])
        invariant
            from <= to <= n == chars@.len(),
            from < n,
            !is_whitespace(chars@[from as int]),
            forall|i: int| to <= i < n ==> is_whitespace(#[trigger] chars@[i]),
        decreases to,
    {
        to -= 1;
    }
    proof {
        lemma_trailing_whitespace_suffix(chars@, n - to);
        assert(chars@.take(to as int).last() == chars@[to - 1]);
    }
    string_of(chars, from, to)
}

/// The words of `chars`, from left to right.
pub fn split_words(chars: &Vec<char>) -> (out: Vec<String>)
    ensures
        out.deep_view() == words(chars@),
{
    let n = chars.len();
    let mut out: Vec<String> = Vec::new();
    let mut i: usize = 0;
    assert(chars@.skip(0) =~= chars@);
    while i < n
        invariant
            i <= n == chars@.len(),
            words(chars@) =~= out.deep_view() + words(chars@.skip(i as int)),
        decreases n - i,
    {
        let ghost rest = chars@.skip(i as int);
        assert(rest[0] == chars@[i as int]);
        if char_is_whitespace(chars[i]) {
            assert(rest.drop_first() =~= chars@.skip(i + 1));
            i += 1;
        } else {
            let start = i;
            let mut j: usize = i + 1;
            while j < n && !char_is_whitespace(chars[j])
                invariant
                    start < j <= n == chars@.len(),
                    forall|k: int| start <= k < j ==> !is_whitespace(#[trigger] chars@[k]),
                decreases n - j,
            {
                j += 1;
            }
            let w = string_of(chars, start, j);
            proof {
                let tail = chars@.skip(j as int);
                assert forall|k: int| 0 <= k < j - start implies !is_whitespace(
                    #[trigger] rest[k],
                ) by {
                    assert(rest[k] == chars@[start + k]);
                }
                lemma_word_len_prefix(rest, j - start);
                assert(rest.skip(j - start) =~= tail);
                if j < n {
                    assert(tail[0] == chars@[j as int]);
                }
                assert(word_len(tail) == 0);
                assert(rest.take(j - start) =~= w@);
                assert(out.deep_view().push(w@) + words(tail) =~= out.deep_view() + (seq![w@]
                    + words(tail)));
            }
            let ghost before = out.deep_view();
            out.push(w);
            assert(out.deep_view() =~= before.push(w@));
            i = j;
        }
    }
    assert(words(chars@.skip(n as int)) =~= Seq::<Seq<char>>::empty());
    out
}

/// The members of `parts` in order, with one space between neighbours.
pub fn join_with_spaces(parts: &Vec<String>) -> (r: String)
    ensures
        r@ == join_words(parts.deep_view()),
{
    let mut r = String::new();
    let mut i: usize = 0;
    while i < parts.len()
        invariant
            i <= parts.len(),
            r@ == join_words(parts.deep_view().take(i as int)),
        decreases parts.len() - i,
    {
        let ghost before = parts.deep_view().take(i as int);
        let ghost after = parts.deep_view().take(i + 1);
        assert(after.drop_last() =~= before);
        assert(after.last() == parts[i as int]@);
        if i > 0 {
            push_char(&mut r, ' ');
        }
        r.append(parts[i].as_str());
        assert(r@ =~= join_words(after));
        i += 1;
    }
    assert(parts.deep_view().take(parts.len() as int) =~= parts.deep_view());
    r
}

/// A word is the only word of itself.
pub proof fn lemma_words_of_word(w: Seq<char>)
    requires
        is_word(w),
    ensures
        words(w) == seq![w],
{
    lemma_word_len_prefix(w, w.len() as int);
    let rest = w.skip(w.len() as int);
    assert(rest =~= Seq::<char>::empty());
    assert(word_len(rest) == 0);
    assert(word_len(w) == w.len());
    assert(!is_whitespace(w[0]));
    assert(w.take(w.len() as int) =~= w);
    assert(words(rest) =~= Seq::<Seq<char>>::empty());
    assert(seq![w] + Seq::<Seq<char>>::empty() =~= seq![w]);
}

/// The words of two texts with one whitespace character between them are
/// the words of the first followed by the words of the second.
pub proof fn lemma_words_concat(a: Seq<char>, c: char, b: Seq<char>)
    requires
        is_whitespace(c),
    ensures
        words(a + seq![c] + b) == words(a) + words(b),
    decreases a.len(),
{
    let s = a + seq![c] + b;
    if a.len() == 0 {
        assert(s.drop_first() =~= b);
        assert(words(a) + words(b) =~= words(b));
    } else if is_whitespace(a[0]) {
        assert(s.drop_first() =~= a.drop_first() + seq![c] + b);
        lemma_words_concat(a.drop_first(), c, b);
    } else {
        lemma_word_len_bound(a);
        let n = word_len(a) as int;
        assert forall|i: int| 0 <= i < n implies !is_whitespace(#[trigger] s[i]) by {
            assert(s[i] == a[i]);
        }
        lemma_word_len_prefix(s, n);
        assert(s.skip(n) =~= a.skip(n) + seq![c] + b);
        if n < a.len() {
            assert(s.skip(n)[0] == a[n]);
        } else {
            assert(s.skip(n)[0] == c);
        }
        assert(word_len(s.skip(n)) == 0);
        assert(s.take(n) =~= a.take(n));
        lemma_words_concat(a.skip(n), c, b);
        assert(seq![a.take(n)] + (words(a.skip(n)) + words(b)) =~= (seq![a.take(n)] + words(
            a.skip(n),
        )) + words(b));
    }
}

/// Every word of a text is a word: not empty and free of whitespace.
pub proof fn lemma_words_are_words(s: Seq<char>)
    ensures
        all_words(words(s)),
    decreases s.len(),
{
    if s.len() == 0 {
    } else if is_whitespace(s[0]) {
        lemma_words_are_words(s.drop_first());
    } else {
        lemma_word_len_bound(s);
        let n = word_len(s) as int;
        lemma_words_are_words(s.skip(n));
        let first = s.take(n);
        let rest = words(s.skip(n));
        assert(is_word(first));
        assert forall|i: int| 0 <= i < words(s).len() implies is_word(#[trigger] words(s)[i]) by {
            if i > 0 {
                assert(words(s)[i] == rest[i - 1]);
            }
        }
    }
}

/// Joining words with single spaces and splitting again gives the words back.
pub proof fn lemma_words_join(ws: Seq<Seq<char>>)
    requires
        all_words(ws),
    ensures
        words(join_words(ws)) == ws,
    decreases ws.len(),
{
    if ws.len() == 0 {
    } else if ws.len() == 1 {
        lemma_words_of_word(ws[0]);
        assert(seq![ws[0]] =~= ws);
    } else {
        let init = ws.drop_last();
        assert forall|i: int| 0 <= i < init.len() implies is_word(#[trigger] init[i]) by {
            assert(init[i] == ws[i]);
        }
        lemma_words_join(init);
        lemma_words_of_word(ws.last());
        lemma_words_concat(join_words(init), ' ', ws.last());
        assert(init + seq![ws.last()] =~= ws);
    }
}

/// Trimming a text keeps its words.
pub proof fn lemma_words_trimmed(s: Seq<char>)
    ensures
        words(trimmed(s)) == words(s),
{
    let from = leading_whitespace(s) as int;
    lemma_leading_whitespace_bound(s);
    lemma_leading_whitespace_prefix(s, from);
    if from < s.len() {
        lemma_trailing_whitespace_bound(s);
        lemma_words_drop_trailing(s.skip(from), trailing_whitespace(s) as int);
        let t = s.skip(from);
        assert(t.take(t.len() - trailing_whitespace(s)) =~= trimmed(s));
    }
}

/// The leading whitespace ends inside the text, and what follows it is no
/// whitespace.
pub proof fn lemma_leading_whitespace_bound(s: Seq<char>)
    ensures
        leading_whitespace(s) <= s.len(),
        forall|i: int| 0 <= i < leading_whitespace(s) ==> is_whitespace(#[trigger] s[i]),
        leading_whitespace(s) < s.len() ==> !is_whitespace(s[leading_whitespace(s) as int]),
    decreases s.len(),
{
    if s.len() > 0 && is_whitespace(s[0]) {
        let t = s.drop_first();
        lemma_leading_whitespace_bound(t);
        assert forall|i: int| 0 <= i < leading_whitespace(s) implies is_whitespace(
            #[trigger] s[i],
        ) by {
            if i > 0 {
                assert(s[i] == t[i - 1]);
            }
        }
        if leading_whitespace(s) < s.len() {
            assert(s[leading_whitespace(s) as int] == t[leading_whitespace(t) as int]);
        }
    }
}

/// The trailing whitespace starts inside the text, and what precedes it is
/// no whitespace.
pub proof fn lemma_trailing_whitespace_bound(s: Seq<char>)
    ensures
        trailing_whitespace(s) <= s.len(),
        forall|i: int|
            s.len() - trailing_whitespace(s) <= i < s.len() ==> is_whitespace(#[trigger] s[i]),
        trailing_whitespace(s) < s.len() ==> !is_whitespace(
            s[s.len() - trailing_whitespace(s) - 1],
        ),
        leading_whitespace(s) < s.len() ==> leading_whitespace(s) + trailing_whitespace(s)
            < s.len(),
    decreases s.len(),
{
    lemma_leading_whitespace_bound(s);
    if s.len() > 0 && is_whitespace(s.last()) {
        let t = s.drop_last();
        lemma_trailing_whitespace_bound(t);
        assert forall|i: int| s.len() - trailing_whitespace(s) <= i < s.len() implies is_whitespace(
            #[trigger] s[i],
        ) by {
            if i < s.len() - 1 {
                assert(s[i] == t[i]);
            }
        }
        if trailing_whitespace(s) < s.len() {
            assert(s[s.len() - trailing_whitespace(s) - 1] == t[t.len() - trailing_whitespace(t)
                - 1]);
        }
    }
}

/// Dropping whitespace from the end of a text keeps its words.
pub proof fn lemma_words_drop_trailing(s: Seq<char>, k: int)
    requires
        0 <= k <= s.len(),
        forall|i: int| s.len() - k <= i < s.len() ==> is_whitespace(#[trigger] s[i]),
    ensures
        words(s.take(s.len() - k)) == words(s),
    decreases k,
{
    if k == 0 {
        assert(s.take(s.len() as int) =~= s);
    } else {
        let t = s.drop_last();
        assert forall|i: int| t.len() - (k - 1) <= i < t.len() implies is_whitespace(
            #[trigger] t[i],
        ) by {
            assert(t[i] == s[i]);
        }
        lemma_words_drop_trailing(t, k - 1);
        assert(t.take(t.len() - (k - 1)) =~= s.take(s.len() - k));
        lemma_words_concat(t, s.last(), Seq::empty());
        assert(t + seq![s.last()] + Seq::<char>::empty() =~= s);
        assert(words(t) + words(Seq::<char>::empty()) =~= words(t));
    }
}

/// A text without a character that is no whitespace.
pub open spec fn is_blank(s: Seq<char>) -> bool {
    forall|i: int| 0 <= i < s.len() ==> is_whitespace(#[trigger] s[i])
}

/// Whether `s` holds nothing but whitespace.
pub fn str_is_blank(s: &str) -> (r: bool)
    ensures
        r == is_blank(s@),
{
    let chars = chars_of(s);
    let mut i: usize = 0;
    while i < chars.len()
        invariant
            i <= chars.len(),
            chars@ == s@,
            forall|k: int| 0 <= k < i ==> is_whitespace(#[trigger] chars@[k]),
        decreases chars.len() - i,
    {
        if !char_is_whitespace(chars[i]) {
            return false;
        }
        i += 1;
    }
    true
}

/// A text is blank exactly when nothing is left of it after trimming.
pub proof fn lemma_blank_iff_trimmed_empty(s: Seq<char>)
    ensures
        is_blank(s) <==> trimmed(s).len() == 0,
{
    lemma_leading_whitespace_bound(s);
    lemma_trailing_whitespace_bound(s);
    if is_blank(s) {
        let k = leading_whitespace(s) as int;
        if k < s.len() {
            assert(is_whitespace(s[k]));
        }
    }
}

} // verus!
