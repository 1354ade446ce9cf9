//! Words in a text, and their capitals.

use vstd::prelude::*;

verus! {

/// Whether `c` is white space.
pub uninterp spec fn is_whitespace(c: char) -> bool;

/// The upper-case form of `c`, which may be more than one character.
pub uninterp spec fn uppercase(c: char) -> Seq<char>;

/// Says whether `c` is white space.
///
/// Calls `char::is_whitespace` of the standard library, which goes by the
/// Unicode property `White_Space`. The answer depends on `c` alone.
#[verifier::external_body]
pub(crate) fn char_is_whitespace(c: char) -> (space: bool)
    ensures
        space == is_whitespace(c),
{
    c.is_whitespace()
}

/// The upper-case form of `c`.
///
/// Calls `char::to_uppercase` of the standard library and collects what its
/// iterator gives. The characters depend on `c` alone.
#[verifier::external_body]
pub(crate) fn char_to_uppercase(c: char) -> (upper: Vec<char>)
    ensures
        upper@ == uppercase(c),
{
    c.to_uppercase().collect()
}

/// Appends `c` to `text`.
///
/// Calls `String::push` of the standard library.
#[verifier::external_body]
pub(crate) fn push_char(text: &mut String, c: char)
    ensures
        final(text)@ == old(text)@.push(c),
{
    text.push(c);
}

/// The words of `s`: its longest runs of characters that are not white
/// space, in their order.
pub open spec fn split_whitespace(s: Seq<char>) -> Seq<Seq<char>>
    decreases s.len(),
{
    if s.len() == 0 {
        seq![]
    } else {
        let front = split_whitespace(s.drop_last());
        let c = s.last();
        if is_whitespace(c) {
            front
        } else if s.len() > 1 && !is_whitespace(s[s.len() - 2]) {
            front.update(front.len() - 1, front.last().push(c))
        } else {
            front.push(seq![c])
        }
    }
}

/// The word with its first character in upper case.
pub open spec fn capitalized(word: Seq<char>) -> Seq<char> {
    if word.len() == 0 {
        word
    } else {
        uppercase(word[0]) + word.skip(1)
    }
}

/// The words, with `separator` between one and the next.
pub open spec fn joined(words: Seq<Seq<char>>, separator: char) -> Seq<char>
    decreases words.len(),
{
    if words.len() == 0 {
        seq![]
    } else if words.len() == 1 {
        words[0]
    } else {
        joined(words.drop_last(), separator) + seq![separator] + words.last()
    }
}

/// The text with each word capitalized and one space between the words.
pub open spec fn capitalized_words(s: Seq<char>) -> Seq<char> {
    joined(split_whitespace(s).map_values(|word: Seq<char>| capitalized(word)), ' ')
}

/// No word is empty, and a text that ends in a character that is not white
/// space has a word.
pub proof fn lemma_words_are_not_empty(s: Seq<char>)
    ensures
        forall|i: int| 0 <= i < split_whitespace(s).len() ==> (#[trigger] split_whitespace(s)[i]).len() > 0,
        s.len() > 0 && !is_whitespace(s.last()) ==> split_whitespace(s).len() > 0,
    decreases s.len(),
{
    if s.len() > 0 {
        let front = split_whitespace(s.drop_last());
        let words = split_whitespace(s);
        lemma_words_are_not_empty(s.drop_last());
        if s.len() > 1 {
            assert(s.drop_last().last() == s[s.len() - 2]);
        }
        assert forall|i: int| 0 <= i < words.len() implies (#[trigger] words[i]).len() > 0 by {
            if i < front.len() - 1 {
                assert(words[i] == front[i]);
            } else if i < front.len() && is_whitespace(s.last()) {
                assert(words[i] == front[i]);
            }
        }
    }
}

/// Joining after a word was added: the separator, then the word, unless
/// the word is the first.
pub proof fn lemma_joined_push(words: Seq<Seq<char>>, word: Seq<char>, separator: char)
    ensures
        joined(words.push(word), separator) == if words.len() == 0 {
            word
        } else {
            joined(words, separator) + seq![separator] + word
        },
{
    assert(words.push(word).drop_last() == words);
}

/// Joining after the last word grew by a character: the text grows by that
/// character.
pub proof fn lemma_joined_extend_last(words: Seq<Seq<char>>, c: char, separator: char)
    requires
        words.len() > 0,
    ensures
        joined(words.update(words.len() - 1, words.last().push(c)), separator) == joined(
            words,
            separator,
        ).push(c),
{
    let grown = words.update(words.len() - 1, words.last().push(c));
    if words.len() == 1 {
        assert(grown[0] == words[0].push(c));
    } else {
        assert(grown.drop_last() == words.drop_last());
        assert(joined(words.drop_last(), separator) + seq![separator] + words.last().push(c)
            =~= (joined(words.drop_last(), separator) + seq![separator] + words.last()).push(c));
    }
}

/// What reading one more character does to the capitalized words of a text.
pub proof fn lemma_capitalized_words_step(s: Seq<char>, c: char)
    ensures
        split_whitespace(s.push(c)).len() == if is_whitespace(c) || (s.len() > 0 && !is_whitespace(
            s.last(),
        )) {
            split_whitespace(s).len()
        } else {
            split_whitespace(s).len() + 1
        },
        is_whitespace(c) ==> capitalized_words(s.push(c)) == capitalized_words(s),
        !is_whitespace(c) && s.len() > 0 && !is_whitespace(s.last()) ==> capitalized_words(
            s.push(c),
        ) == capitalized_words(s).push(c),
        !is_whitespace(c) && (s.len() == 0 || is_whitespace(s.last())) ==> capitalized_words(
            s.push(c),
        ) == if split_whitespace(s).len() == 0 {
            uppercase(c)
        } else {
            capitalized_words(s) + seq![' '] + uppercase(c)
        },
{
    let t = s.push(c);
    let cap = |word: Seq<char>| capitalized(word);
    assert(t.drop_last() == s);
    assert(t.last() == c);
    let front = split_whitespace(s);
    lemma_words_are_not_empty(s);
    if !is_whitespace(c) {
        if s.len() > 0 && !is_whitespace(s.last()) {
            assert(t[t.len() - 2] == s.last());
            let last = front.last();
            assert(split_whitespace(t) == front.update(front.len() - 1, last.push(c)));
            assert(capitalized(last.push(c)) =~= capitalized(last).push(c)) by {
                assert(last.push(c).skip(1) =~= last.skip(1).push(c));
            }
            assert(split_whitespace(t).map_values(cap) =~= front.map_values(cap).update(
                front.len() - 1,
                front.map_values(cap).last().push(c),
            ));
            lemma_joined_extend_last(front.map_values(cap), c, ' ');
        } else {
            if s.len() > 0 {
                assert(t[t.len() - 2] == s.last());
            }
            assert(split_whitespace(t) == front.push(seq![c]));
            assert(capitalized(seq![c]) =~= uppercase(c));
            assert(split_whitespace(t).map_values(cap) =~= front.map_values(cap).push(
                uppercase(c),
            ));
            lemma_joined_push(front.map_values(cap), uppercase(c), ' ');
        }
    }
}

/// Capitalizes each word of `text` and puts one space between the words.
pub fn capitalize_words(text: &str) -> (pretty: String)
    ensures
        pretty@ == capitalized_words(text@),
{
    let n = text.unicode_len();
    let mut pretty = String::new();
    let mut seen_word = false;
    let mut in_word = false;
    let mut i: usize = 0;
    proof {
        assert(text@.take(0) =~= Seq::<char>::empty());
    }
    while i < n
        invariant
            n == text@.len(),
            i <= n,
            pretty@ == capitalized_words(text@.take(i as int)),
            seen_word == (split_whitespace(text@.take(i as int)).len() > 0),
            in_word == (i > 0 && !is_whitespace(text@[i - 1])),
        decreases n - i,
    {
        let c = text.get_char(i);
        let space = char_is_whitespace(c);
        proof {
            let s = text@.take(i as int);
            assert(text@.take(i + 1) =~= s.push(c));
            if i > 0 {
                assert(s.last() == text@[i - 1]);
            }
            lemma_capitalized_words_step(s, c);
            lemma_words_are_not_empty(s.push(c));
        }
        if space {
            in_word = false;
        } else if in_word {
            push_char(&mut pretty, c);
        } else {
            if seen_word {
                push_char(&mut pretty, ' ');
            }
            let upper = char_to_uppercase(c);
            let ghost base = pretty@;
            let mut k: usize = 0;
            while k < upper.len()
                invariant
                    k <= upper.len(),
                    pretty@ == base + upper@.take(k as int),
                decreases upper.len() - k,
            {
                push_char(&mut pretty, upper[k]);
                proof {
                    assert(upper@.take(k + 1) =~= upper@.take(k as int).push(upper@[k as int]));
                }
                k = k + 1;
            }
            proof {
                assert(upper@.take(k as int) =~= upper@);
            }
            seen_word = true;
            in_word = true;
        }
        i = i + 1;
    }
    proof {
        assert(text@.take(i as int) =~= text@);
    }
    pretty
}

} // verus!
