//! Words of a text: its maximal runs of characters that are not white space.

use vstd::prelude::*;

verus! {

/// Whether `c` is white space: one of the characters with the Unicode
/// property `White_Space`.
pub open spec fn is_whitespace(c: char) -> bool {
    let u = c as u32;
    ||| 0x09 <= u <= 0x0D
    ||| u == 0x20
    ||| u == 0x85
    ||| u == 0xA0
    ||| u == 0x1680
    ||| 0x2000 <= u <= 0x200A
    ||| u == 0x2028
    ||| u == 0x2029
    ||| u == 0x202F
    ||| u == 0x205F
    ||| u == 0x3000
}

/// Whether `w` can stand as one word of a text: it is not empty and holds no
/// white space.
pub open spec fn is_word(w: Seq<char>) -> bool {
    w.len() > 0 && forall|i: int| 0 <= i < w.len() ==> !is_whitespace(#[trigger] w[i])
}

/// The words of `s`, in order.
///
/// Read from left to right, a white space character ends the word before it,
/// any other character either goes on with the word that the character before
/// it belongs to or starts a new one.
pub open spec fn split_whitespace(s: Seq<char>) -> Seq<Seq<char>>
    decreases s.len(),
{
    if s.len() == 0 {
        Seq::empty()
    } else {
        let before = split_whitespace(s.drop_last());
        let c = s.last();
        if is_whitespace(c) {
            before
        } else if s.len() >= 2 && !is_whitespace(s[s.len() - 2]) {
            before.update(before.len() - 1, before.last().push(c))
        } else {
            before.push(seq![c])
        }
    }
}

/// A text that ends in a character other than white space has a last word.
pub proof fn lemma_split_has_last_word(s: Seq<char>)
    requires
        s.len() > 0,
        !is_whitespace(s.last()),
    ensures
        split_whitespace(s).len() > 0,
    decreases s.len(),
{
    if s.len() >= 2 && !is_whitespace(s[s.len() - 2]) {
        lemma_split_has_last_word(s.drop_last());
    }
}

/// White space at the end of a text adds no word.
pub proof fn lemma_split_push_whitespace(s: Seq<char>, c: char)
    requires
        is_whitespace(c),
    ensures
        split_whitespace(s.push(c)) == split_whitespace(s),
{
    assert(s.push(c).drop_last() =~= s);
}

/// A word written directly behind white space, or at the start of a text, is
/// the next word of the text.
pub proof fn lemma_split_append_word(p: Seq<char>, w: Seq<char>)
    requires
        p.len() == 0 || is_whitespace(p.last()),
        is_word(w),
    ensures
        split_whitespace(p + w) == split_whitespace(p).push(w),
    decreases w.len(),
{
    let s = p + w;
    let c = w.last();
    let init = w.drop_last();
    assert(s.drop_last() =~= p + init);
    assert(s.last() == c);
    if init.len() == 0 {
        assert(p + init =~= p);
        assert(w =~= seq![c]);
    } else {
        assert(is_word(init)) by {
            assert forall|i: int| 0 <= i < init.len() implies !is_whitespace(#[trigger] init[i]) by {
                assert(init[i] == w[i]);
            }
        }
        lemma_split_append_word(p, init);
        assert(s[s.len() - 2] == init.last());
        assert(init.last() == w[w.len() - 2]);
        let before = split_whitespace(p).push(init);
        assert(before.update(before.len() - 1, before.last().push(c)) =~= split_whitespace(
            p,
        ).push(w)) by {
            assert(init.push(c) =~= w);
        }
    }
}

/// A text that is one word has that word and no other.
pub proof fn lemma_split_single_word(w: Seq<char>)
    requires
        is_word(w),
    ensures
        split_whitespace(w) == seq![w],
{
    let p = Seq::<char>::empty();
    lemma_split_append_word(p, w);
    assert(p + w =~= w);
    assert(split_whitespace(p).push(w) =~= seq![w]);
}

/// A blank and a word written behind a text add that word to its words.
pub proof fn lemma_split_append_blank_word(p: Seq<char>, w: Seq<char>)
    requires
        is_word(w),
    ensures
        split_whitespace(p + seq![' '] + w) == split_whitespace(p).push(w),
{
    let q = p + seq![' '];
    assert(q =~= p.push(' '));
    lemma_split_push_whitespace(p, ' ');
    lemma_split_append_word(q, w);
}

/// Every word of a text is a word: not empty and free of white space.
pub proof fn lemma_split_gives_words(s: Seq<char>)
    ensures
        forall|k: int| 0 <= k < split_whitespace(s).len() ==> is_word(
            #[trigger] split_whitespace(s)[k],
        ),
    decreases s.len(),
{
    if s.len() > 0 {
        lemma_split_gives_words(s.drop_last());
        let c = s.last();
        if !is_whitespace(c) && s.len() >= 2 && !is_whitespace(s[s.len() - 2]) {
            lemma_split_has_last_word(s.drop_last());
        }
    }
}

/// Whether `c` is white space.
pub fn char_is_whitespace(c: char) -> (b: bool)
    ensures
        b == is_whitespace(c),
{
    let u: u32 = c as u32;
    (0x09 <= u && u <= 0x0D) || u == 0x20 || u == 0x85 || u == 0xA0 || u == 0x1680 || (0x2000 <= u
        && u <= 0x200A) || u == 0x2028 || u == 0x2029 || u == 0x202F || u == 0x205F || u == 0x3000
}

/// The characters of `text`, one by one.
pub fn to_chars(text: &str) -> (chars: Vec<char>)
    ensures
        chars@ == text@,
{
    let mut chars: Vec<char> = Vec::new();
    for c in it: text.chars()
        invariant
            chars@ == it.seq().take(it.index() as int),
            it.seq() == text@,
    {
        chars.push(c);
    }
    chars
}

/// Whether `chars[start..end]` spells `word`.
pub fn word_is(chars: &Vec<char>, start: usize, end: usize, word: &str) -> (b: bool)
    requires
        start <= end <= chars.len(),
    ensures
        b == (chars@.subrange(start as int, end as int) == word@),
{
    let letters = to_chars(word);
    let ghost part = chars@.subrange(start as int, end as int);
    if letters.len() != end - start {
        return false;
    }
    let mut i: usize = 0;
    while i < letters.len()
        invariant
            start <= end <= chars.len(),
            letters.len() == end - start,
            letters@ == word@,
            i <= letters.len(),
            part == chars@.subrange(start as int, end as int),
            forall|k: int| 0 <= k < i ==> part[k] == letters@[k],
        decreases letters.len() - i,
    {
        if chars[start + i] != letters[i] {
            assert(part[i as int] != letters@[i as int]);
            return false;
        }
        i += 1;
    }
    assert(part =~= letters@);
    true
}

/// Whether `a` and `b` hold the same characters.
pub fn text_eq(a: &str, b: &str) -> (r: bool)
    ensures
        r == (a@ == b@),
{
    let chars = to_chars(a);
    assert(chars@.subrange(0, chars@.len() as int) =~= chars@);
    word_is(&chars, 0, chars.len(), b)
}

/// Whether `text` ends with `suffix`.
pub open spec fn ends_with_spec(text: Seq<char>, suffix: Seq<char>) -> bool {
    text.len() >= suffix.len() && text.subrange(text.len() - suffix.len(), text.len() as int)
        == suffix
}

/// Whether `text` ends with `suffix`.
pub fn ends_with(text: &str, suffix: &str) -> (b: bool)
    ensures
        b == ends_with_spec(text@, suffix@),
{
    let chars = to_chars(text);
    let tail = suffix.unicode_len();
    if chars.len() < tail {
        return false;
    }
    word_is(&chars, chars.len() - tail, chars.len(), suffix)
}

/// The words that the bounds `bounds` cut out of `chars`.
pub open spec fn words_at(chars: Seq<char>, bounds: Seq<(usize, usize)>) -> Seq<Seq<char>> {
    Seq::new(bounds.len(), |k: int| chars.subrange(bounds[k].0 as int, bounds[k].1 as int))
}

/// Whether the index `i` lies within one of `bounds`.
pub open spec fn covered(bounds: Seq<(usize, usize)>, i: int) -> bool {
    exists|k: int| 0 <= k < bounds.len() && (#[trigger] bounds[k]).0 <= i < bounds[k].1
}

/// Whether `bounds` mark the words among the first `len` characters of
/// `chars`: ranges in ascending order, none empty and no two touching, that
/// together hold exactly the characters that are not white space.
pub open spec fn marks_words(chars: Seq<char>, bounds: Seq<(usize, usize)>, len: int) -> bool {
    &&& forall|k: int| 0 <= k < bounds.len() ==> (#[trigger] bounds[k]).0 < bounds[k].1 <= len
    &&& forall|k: int| 0 <= k < bounds.len() - 1 ==> (#[trigger] bounds[k]).1 < bounds[k + 1].0
    &&& forall|i: int|
        0 <= i < len ==> (!is_whitespace(#[trigger] chars[i]) <==> covered(bounds, i))
}

/// Finds the words of `chars`: for each word, in order, the index of its
/// first character and the index behind its last.
pub fn word_bounds(chars: &Vec<char>) -> (bounds: Vec<(usize, usize)>)
    ensures
        marks_words(chars@, bounds@, chars@.len() as int),
        words_at(chars@, bounds@) == split_whitespace(chars@),
{
    let mut bounds: Vec<(usize, usize)> = Vec::new();
    let mut in_word = false;
    let mut i: usize = 0;
    assert(chars@.take(0) =~= Seq::<char>::empty());
    assert(words_at(chars@, bounds@) =~= split_whitespace(chars@.take(0)));
    while i < chars.len()
        invariant
            i <= chars.len(),
            marks_words(chars@, bounds@, i as int),
            words_at(chars@, bounds@) == split_whitespace(chars@.take(i as int)),
            in_word <==> i > 0 && !is_whitespace(chars@[i - 1]),
            in_word ==> bounds.len() > 0 && bounds@.last().1 == i,
        decreases chars.len() - i,
    {
        let c = chars[i];
        let ghost prefix = chars@.take(i as int);
        let ghost next = chars@.take(i + 1);
        let ghost old_bounds = bounds@;
        let ghost n = old_bounds.len() as int;
        proof {
            assert(next.drop_last() =~= prefix);
            assert(next.last() == c);
            if i > 0 {
                assert(next[next.len() - 2] == chars@[i - 1]);
            }
        }
        if char_is_whitespace(c) {
            in_word = false;
        } else if in_word {
            let last = bounds.len() - 1;
            let start = bounds[last].0;
            bounds.set(last, (start, i + 1));
            proof {
                let before = split_whitespace(prefix);
                assert(words_at(chars@, bounds@) =~= before.update(
                    before.len() - 1,
                    before.last().push(c),
                )) by {
                    assert(before.len() == n);
                    assert(before.last() == chars@.subrange(start as int, i as int));
                    assert(chars@.subrange(start as int, i + 1) =~= chars@.subrange(
                        start as int,
                        i as int,
                    ).push(c));
                    assert forall|k: int| 0 <= k < n implies #[trigger] words_at(
                        chars@,
                        bounds@,
                    )[k] == before.update(before.len() - 1, before.last().push(c))[k] by {
                        if k < n - 1 {
                            assert(bounds@[k] == old_bounds[k]);
                            assert(words_at(chars@, old_bounds)[k] == before[k]);
                        }
                    }
                }
                assert forall|k: int| 0 <= k < n - 1 implies (#[trigger] bounds@[k]).1 < bounds@[k
                    + 1].0 by {
                    assert(bounds@[k] == old_bounds[k]);
                    assert(bounds@[k + 1].0 == old_bounds[k + 1].0);
                }
                assert forall|j: int| 0 <= j < i + 1 implies (!is_whitespace(#[trigger] chars@[j])
                    <==> covered(bounds@, j)) by {
                    if j < i {
                        if covered(old_bounds, j) {
                            let k = choose|k: int|
                                0 <= k < n && (#[trigger] old_bounds[k]).0 <= j < old_bounds[k].1;
                            assert(bounds@[k].0 <= j < bounds@[k].1);
                        }
                        if covered(bounds@, j) {
                            let k = choose|k: int|
                                0 <= k < n && (#[trigger] bounds@[k]).0 <= j < bounds@[k].1;
                            assert(old_bounds[k].0 <= j < old_bounds[k].1);
                        }
                    } else {
                        assert(bounds@[n - 1].0 <= j < bounds@[n - 1].1);
                    }
                }
            }
        } else {
            proof {
                if n > 0 && old_bounds[n - 1].1 == i {
                    assert(old_bounds[n - 1].0 <= i - 1 < old_bounds[n - 1].1);
                    assert(covered(old_bounds, i - 1));
                }
            }
            bounds.push((i, i + 1));
            in_word = true;
            proof {
                let before = split_whitespace(prefix);
                assert(chars@.subrange(i as int, i + 1) =~= seq![c]);
                assert(words_at(chars@, bounds@) =~= before.push(seq![c])) by {
                    assert forall|k: int| 0 <= k < bounds@.len() implies #[trigger] words_at(
                        chars@,
                        bounds@,
                    )[k] == before.push(seq![c])[k] by {
                        if k < n {
                            assert(bounds@[k] == old_bounds[k]);
                            assert(words_at(chars@, old_bounds)[k] == before[k]);
                        }
                    }
                }
                assert forall|k: int| 0 <= k < n implies (#[trigger] bounds@[k]).1 < bounds@[k
                    + 1].0 by {
                    assert(bounds@[k] == old_bounds[k]);
                    if k < n - 1 {
                        assert(bounds@[k + 1] == old_bounds[k + 1]);
                    }
                }
                assert forall|j: int| 0 <= j < i + 1 implies (!is_whitespace(#[trigger] chars@[j])
                    <==> covered(bounds@, j)) by {
                    if j < i {
                        if covered(old_bounds, j) {
                            let k = choose|k: int|
                                0 <= k < n && (#[trigger] old_bounds[k]).0 <= j < old_bounds[k].1;
                            assert(bounds@[k].0 <= j < bounds@[k].1);
                        }
                        if covered(bounds@, j) {
                            let k = choose|k: int|
                                0 <= k < n + 1 && (#[trigger] bounds@[k]).0 <= j < bounds@[k].1;
                            assert(old_bounds[k].0 <= j < old_bounds[k].1);
                        }
                    } else {
                        assert(bounds@[n].0 <= j < bounds@[n].1);
                    }
                }
            }
        }
        i += 1;
    }
    assert(chars@.take(i as int) =~= chars@);
    bounds
}

} // verus!
