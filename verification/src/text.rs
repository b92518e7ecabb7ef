//! Text at the level of characters: cutting a passage into words, and
//! comparing what was typed against a word.

use vstd::prelude::*;
use vstd::std_specs::iter::IteratorSpec;

verus! {

/// Number of positions that two sequences have in common.
pub open spec fn common_len(a: Seq<char>, b: Seq<char>) -> nat {
    if a.len() <= b.len() {
        a.len()
    } else {
        b.len()
    }
}

/// `i` is the first position, among those present in both sequences, at which
/// `a` and `b` differ.
pub open spec fn is_first_mismatch(a: Seq<char>, b: Seq<char>, i: int) -> bool {
    &&& 0 <= i < common_len(a, b)
    &&& a[i] != b[i]
    &&& forall|j: int| 0 <= j < i ==> a[j] == b[j]
}

/// The first position at which `a` and `b` differ within their common length,
/// or `None` when the shorter one is a prefix of the longer one.
pub open spec fn first_mismatch(a: Seq<char>, b: Seq<char>) -> Option<nat> {
    if exists|i: int| is_first_mismatch(a, b, i) {
        Some((choose|i: int| is_first_mismatch(a, b, i)) as nat)
    } else {
        None
    }
}

/// A first mismatch, where there is one, is the only one.
pub proof fn lemma_first_mismatch_unique(a: Seq<char>, b: Seq<char>, i: int)
    requires
        is_first_mismatch(a, b, i),
    ensures
        first_mismatch(a, b) == Some(i as nat),
{
    let k = choose|k: int| is_first_mismatch(a, b, k);
    assert(is_first_mismatch(a, b, k));
    if k < i {
        assert(a[k] == b[k]);
    } else if i < k {
        assert(a[i] == b[i]);
    }
}

/// Where there is a first mismatch, it is one: it lies within the common
/// length, the characters there differ, and those before it agree.
pub proof fn lemma_first_mismatch_is_first(a: Seq<char>, b: Seq<char>)
    ensures
        first_mismatch(a, b) matches Some(i) ==> is_first_mismatch(a, b, i as int),
        first_mismatch(a, b) is None ==> forall|j: int|
            0 <= j < common_len(a, b) ==> a[j] == b[j],
{
    if exists|i: int| is_first_mismatch(a, b, i) {
        let k = choose|k: int| is_first_mismatch(a, b, k);
        assert(is_first_mismatch(a, b, k));
    } else {
        lemma_agree_without_mismatch(a, b, common_len(a, b) as int);
    }
}

/// Without a first mismatch the sequences agree on every common position.
proof fn lemma_agree_without_mismatch(a: Seq<char>, b: Seq<char>, n: int)
    requires
        !exists|i: int| is_first_mismatch(a, b, i),
        0 <= n <= common_len(a, b),
    ensures
        forall|j: int| 0 <= j < n ==> a[j] == b[j],
    decreases n,
{
    if n > 0 {
        lemma_agree_without_mismatch(a, b, n - 1);
        if a[n - 1] != b[n - 1] {
            assert(is_first_mismatch(a, b, n - 1));
        }
    }
}

/// Sequences that agree on every common position have no mismatch.
pub proof fn lemma_first_mismatch_none(a: Seq<char>, b: Seq<char>)
    requires
        forall|j: int| 0 <= j < common_len(a, b) ==> a[j] == b[j],
    ensures
        first_mismatch(a, b) is None,
{
    if exists|i: int| is_first_mismatch(a, b, i) {
        let k = choose|k: int| is_first_mismatch(a, b, k);
        assert(a[k] == b[k]);
    }
}

/// Compares `input` with `target` character by character up to the shorter
/// length and reports the first position where they differ.
pub fn find_mismatch(input: &str, target: &str) -> (r: Option<usize>)
    ensures
        r matches Some(i) ==> is_first_mismatch(input@, target@, i as int),
        r is None ==> forall|j: int| 0 <= j < common_len(input@, target@) ==> input@[j] == target@[j],
        first_mismatch(input@, target@) == match r {
            Some(i) => Some(i as nat),
            None => None,
        },
{
    let input_len: usize = input.unicode_len();
    let mut typed = input.chars();
    let mut wanted = target.chars();
    let mut index: usize = 0;
    loop
        invariant
            input_len == input@.len(),
            index <= common_len(input@, target@),
            typed.remaining() == input@.skip(index as int),
            wanted.remaining() == target@.skip(index as int),
            forall|j: int| 0 <= j < index ==> input@[j] == target@[j],
        decreases common_len(input@, target@) - index,
    {
        match typed.next() {
            None => {
                proof { lemma_first_mismatch_none(input@, target@); }
                return None;
            },
            Some(c1) => match wanted.next() {
                None => {
                    proof { lemma_first_mismatch_none(input@, target@); }
                    return None;
                },
                Some(c2) => {
                    if c1 != c2 {
                        proof { lemma_first_mismatch_unique(input@, target@, index as int); }
                        return Some(index);
                    }
                    index = index + 1;
                },
            },
        }
    }
}

/// `String::push` appends the character to the end of the string.
pub assume_specification[ String::push ](s: &mut String, c: char)
    ensures
        final(s)@ == old(s)@.push(c),
;

/// `String::pop` removes the last character and returns it; on an empty
/// string it returns `None` and leaves the string empty.
pub assume_specification[ String::pop ](s: &mut String) -> (r: Option<char>)
    ensures
        old(s)@.len() == 0 ==> r is None && final(s)@ == old(s)@,
        old(s)@.len() > 0 ==> r == Some(old(s)@.last()) && final(s)@ == old(s)@.drop_last(),
;

/// The characters that separate words: those with the Unicode property
/// White_Space.
pub open spec fn is_whitespace(c: char) -> bool {
    let u = c as u32;
    ||| 0x09 <= u <= 0x0D
    ||| u == 0x20
    ||| u == 0x85
    ||| u == 0xA0
    ||| u == 0x1680
    ||| 0x2000 <= u <= 0x200A
    ||| u == 0x2028
    ||| u == 0x2029
    ||| u == 0x202F
    ||| u == 0x205F
    ||| u == 0x3000
}

/// Whether `c` separates words.
pub fn is_whitespace_char(c: char) -> (b: bool)
    ensures
        b == is_whitespace(c),
{
    let u: u32 = c as u32;
    (0x09 <= u && u <= 0x0D) || u == 0x20 || u == 0x85 || u == 0xA0 || u == 0x1680 || (0x2000 <= u
        && u <= 0x200A) || u == 0x2028 || u == 0x2029 || u == 0x202F || u == 0x205F || u == 0x3000
}

/// The run of non-whitespace characters that `s` ends with.
pub open spec fn trailing_word(s: Seq<char>) -> Seq<char>
    decreases s.len(),
{
    if s.len() == 0 || is_whitespace(s.last()) {
        Seq::empty()
    } else {
        trailing_word(s.drop_last()).push(s.last())
    }
}

/// `s` without the word it ends with.
pub open spec fn before_trailing_word(s: Seq<char>) -> Seq<char> {
    s.take(s.len() - trailing_word(s).len())
}

/// The words of `s`: its maximal runs of non-whitespace characters, in order.
pub open spec fn words_of(s: Seq<char>) -> Seq<Seq<char>>
    decreases s.len(),
{
    if s.len() == 0 {
        Seq::empty()
    } else if is_whitespace(s.last()) {
        words_of(s.drop_last())
    } else {
        proof {
            lemma_trailing_word_len(s);
        }
        words_of(before_trailing_word(s)).push(trailing_word(s))
    }
}

/// The trailing word is a suffix of `s` without whitespace, and is not empty
/// where `s` ends in a character that is not whitespace.
pub proof fn lemma_trailing_word_len(s: Seq<char>)
    ensures
        trailing_word(s).len() <= s.len(),
        s.len() > 0 && !is_whitespace(s.last()) ==> trailing_word(s).len() > 0,
        forall|j: int| 0 <= j < trailing_word(s).len() ==> !is_whitespace(#[trigger] trailing_word(s)[j]),
    decreases s.len(),
{
    if s.len() > 0 && !is_whitespace(s.last()) {
        lemma_trailing_word_len(s.drop_last());
    }
}

/// `w` is a word: not empty, and without whitespace.
pub open spec fn is_word(w: Seq<char>) -> bool {
    &&& w.len() > 0
    &&& forall|j: int| 0 <= j < w.len() ==> !is_whitespace(#[trigger] w[j])
}

/// Every element of `words_of(s)` is a word.
pub proof fn lemma_words_are_words(s: Seq<char>)
    ensures
        forall|i: int| 0 <= i < words_of(s).len() ==> is_word(#[trigger] words_of(s)[i]),
    decreases s.len(),
{
    if s.len() == 0 {
    } else if is_whitespace(s.last()) {
        lemma_words_are_words(s.drop_last());
        assert(words_of(s) == words_of(s.drop_last()));
    } else {
        lemma_trailing_word_len(s);
        lemma_words_are_words(before_trailing_word(s));
        let earlier = words_of(before_trailing_word(s));
        assert(words_of(s) == earlier.push(trailing_word(s)));
        assert forall|i: int| 0 <= i < words_of(s).len() implies is_word(
            #[trigger] words_of(s)[i],
        ) by {
            if i < earlier.len() {
                assert(words_of(s)[i] == earlier[i]);
            }
        }
    }
}

/// The words of a text are those before its trailing word, and that word
/// where there is one.
proof fn lemma_words_of_split(s: Seq<char>)
    ensures
        words_of(s) == if trailing_word(s).len() > 0 {
            words_of(before_trailing_word(s)).push(trailing_word(s))
        } else {
            words_of(before_trailing_word(s))
        },
{
    lemma_trailing_word_len(s);
    if trailing_word(s).len() == 0 {
        assert(before_trailing_word(s) =~= s);
    }
}

/// What appending one character does to the trailing word and to the words.
proof fn lemma_words_of_push(s: Seq<char>, c: char)
    ensures
        is_whitespace(c) ==> trailing_word(s.push(c)).len() == 0 && words_of(s.push(c)) == words_of(s),
        !is_whitespace(c) ==> trailing_word(s.push(c)) == trailing_word(s).push(c)
            && before_trailing_word(s.push(c)) == before_trailing_word(s),
{
    let t = s.push(c);
    assert(t.drop_last() =~= s);
    lemma_trailing_word_len(s);
    if !is_whitespace(c) {
        assert(before_trailing_word(t) =~= before_trailing_word(s));
    }
}

/// The character sequences that a sequence of strings stands for.
pub open spec fn string_views(strings: Seq<String>) -> Seq<Seq<char>> {
    Seq::new(strings.len(), |i: int| strings[i]@)
}

/// Cuts `text` into its words, splitting on whitespace.
pub fn split_words(text: &str) -> (words: Vec<String>)
    ensures
        string_views(words@) == words_of(text@),
        forall|i: int| 0 <= i < words.len() ==> is_word(#[trigger] words[i]@),
{
    let mut words: Vec<String> = Vec::new();
    let mut current = String::new();
    let mut chars = text.chars();
    let ghost mut seen: Seq<char> = Seq::empty();
    assert(before_trailing_word(seen) =~= seen);
    assert(string_views(words@) =~= words_of(seen));
    loop
        invariant
            seen.len() <= text@.len(),
            seen == text@.take(seen.len() as int),
            chars.remaining() == text@.skip(seen.len() as int),
            current@ == trailing_word(seen),
            string_views(words@) == words_of(before_trailing_word(seen)),
        decreases text@.len() - seen.len(),
    {
        let ghost before = seen;
        let ghost words_before = words@;
        match chars.next() {
            None => {
                proof {
                    assert(seen =~= text@);
                    lemma_words_of_split(seen);
                    lemma_words_are_words(text@);
                }
                if !current.as_str().is_empty() {
                    words.push(current);
                    assert(string_views(words@) =~= string_views(words_before).push(
                        trailing_word(seen),
                    ));
                }
                assert forall|i: int| 0 <= i < words.len() implies is_word(#[trigger] words[i]@) by {
                    assert(words[i]@ == string_views(words@)[i]);
                }
                return words;
            },
            Some(c) => {
                proof {
                    seen = before.push(c);
                    assert(seen =~= text@.take(seen.len() as int));
                    lemma_words_of_push(before, c);
                    lemma_words_of_split(before);
                }
                if is_whitespace_char(c) {
                    if !current.as_str().is_empty() {
                        words.push(current);
                        current = String::new();
                        assert(string_views(words@) =~= string_views(words_before).push(
                            trailing_word(before),
                        ));
                    }
                    assert(before_trailing_word(seen) =~= seen);
                } else {
                    current.push(c);
                }
            },
        }
    }
}

} // verus!
