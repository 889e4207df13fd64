//! Characters and words, for the parts of the crate that read what a user
//! typed into a config file.

use vstd::prelude::*;
use vstd::string::*;

verus! {

/// Whether `c` has Unicode's `White_Space` property, which is what separates
/// words in an action.
pub open spec fn is_whitespace(c: char) -> bool {
    ||| ('\u{9}' <= c && c <= '\u{d}')
    ||| c == ' '
    ||| c == '\u{85}'
    ||| c == '\u{a0}'
    ||| c == '\u{1680}'
    ||| ('\u{2000}' <= c && c <= '\u{200a}')
    ||| c == '\u{2028}'
    ||| c == '\u{2029}'
    ||| c == '\u{202f}'
    ||| c == '\u{205f}'
    ||| c == '\u{3000}'
}

/// The words finished so far, and the one still being read, after `s`.
pub open spec fn split_ws(s: Seq<char>) -> (Seq<Seq<char>>, Seq<char>)
    decreases s.len(),
{
    if s.len() == 0 {
        (Seq::empty(), Seq::empty())
    } else {
        let (done, cur) = split_ws(s.drop_last());
        if is_whitespace(s.last()) {
            if cur.len() > 0 {
                (done.push(cur), Seq::empty())
            } else {
                (done, cur)
            }
        } else {
            (done, cur.push(s.last()))
        }
    }
}

/// The maximal runs of non-whitespace in `s`, in order.
pub open spec fn words(s: Seq<char>) -> Seq<Seq<char>> {
    let (done, cur) = split_ws(s);
    if cur.len() > 0 {
        done.push(cur)
    } else {
        done
    }
}

/// The words held in a vector of character vectors.
pub open spec fn words_of(w: Seq<Vec<char>>) -> Seq<Seq<char>> {
    w.map_values(|v: Vec<char>| v@)
}

/// `String::push`: std documents that it appends the character to the end of
/// the string.
#[verifier::external_body]
pub(crate) fn push_char(s: &mut String, c: char)
    ensures
        final(s)@ == old(s)@.push(c),
{
    s.push(c)
}

/// The characters of `s`, in order.
pub fn chars_of(s: &str) -> (v: Vec<char>)
    ensures
        v@ == s@,
{
    let n = s.unicode_len();
    let mut v: Vec<char> = Vec::new();
    let mut i: usize = 0;
    while i < n
        invariant
            n == s@.len(),
            i <= n,
            v@ == s@.take(i as int),
        decreases n - i,
    {
        v.push(s.get_char(i));
        i = i + 1;
        assert(v@ =~= s@.take(i as int));
    }
    assert(v@ =~= s@);
    v
}

/// A string holding exactly `chars`.
pub fn string_from(chars: &Vec<char>) -> (s: String)
    ensures
        s@ == chars@,
{
    let mut s = String::new();
    let mut i: usize = 0;
    while i < chars.len()
        invariant
            i <= chars.len(),
            s@ == chars@.take(i as int),
        decreases chars.len() - i,
    {
        push_char(&mut s, chars[i]);
        i = i + 1;
        assert(s@ =~= chars@.take(i as int));
    }
    assert(s@ =~= chars@);
    s
}

/// Whether `word` spells exactly `lit`.
pub fn word_is(word: &Vec<char>, lit: &str) -> (b: bool)
    ensures
        b == (word@ == lit@),
{
    let n = lit.unicode_len();
    if word.len() != n {
        return false;
    }
    let mut i: usize = 0;
    while i < n
        invariant
            n == lit@.len(),
            word@.len() == n,
            i <= n,
            forall|j: int| 0 <= j < i ==> word@[j] == lit@[j],
        decreases n - i,
    {
        if word[i] != lit.get_char(i) {
            return false;
        }
        i = i + 1;
    }
    assert(word@ =~= lit@);
    true
}

/// Whether `s` spells exactly `lit`.
pub fn text_is(s: &String, lit: &str) -> (b: bool)
    ensures
        b == (s@ == lit@),
{
    let chars = chars_of(s.as_str());
    word_is(&chars, lit)
}

pub fn is_whitespace_char(c: char) -> (b: bool)
    ensures
        b == is_whitespace(c),
{
    ('\u{9}' <= c && c <= '\u{d}') || c == ' ' || c == '\u{85}' || c == '\u{a0}' || c == '\u{1680}'
        || ('\u{2000}' <= c && c <= '\u{200a}') || c == '\u{2028}' || c == '\u{2029}' || c
        == '\u{202f}' || c == '\u{205f}' || c == '\u{3000}'
}

/// Whether `w` could be one word: non-empty, with no whitespace in it.
pub open spec fn is_word(w: Seq<char>) -> bool {
    w.len() > 0 && forall|k: int| 0 <= k < w.len() ==> !is_whitespace(#[trigger] w[k])
}

/// The words written out again with one space between each.
pub open spec fn join_words(ws: Seq<Seq<char>>) -> Seq<char>
    decreases ws.len(),
{
    if ws.len() == 0 {
        Seq::empty()
    } else if ws.len() == 1 {
        ws[0]
    } else {
        join_words(ws.drop_last()).push(' ') + ws.last()
    }
}

/// Reading on through a run without whitespace only lengthens the word
/// being read.
proof fn lemma_split_run(x: Seq<char>, w: Seq<char>)
    requires
        forall|k: int| 0 <= k < w.len() ==> !is_whitespace(#[trigger] w[k]),
    ensures
        split_ws(x + w) == (split_ws(x).0, split_ws(x).1 + w),
    decreases w.len(),
{
    if w.len() == 0 {
        assert(x + w =~= x);
        assert(split_ws(x).1 + w =~= split_ws(x).1);
    } else {
        let w0 = w.drop_last();
        assert forall|k: int| 0 <= k < w0.len() implies !is_whitespace(#[trigger] w0[k]) by {
            assert(w0[k] == w[k]);
        }
        lemma_split_run(x, w0);
        assert((x + w).drop_last() =~= x + w0);
        assert((x + w).last() == w.last());
        assert(!is_whitespace(w[w.len() - 1]));
        assert(split_ws(x).1 + w0 + seq![w.last()] =~= split_ws(x).1 + w);
        assert((split_ws(x).1 + w0).push(w.last()) =~= split_ws(x).1 + w);
    }
}

/// Every word that splitting finds is a word, and so is any part of one
/// still being read.
proof fn lemma_split_words_are_words(s: Seq<char>)
    ensures
        forall|k: int| 0 <= k < split_ws(s).0.len() ==> is_word(#[trigger] split_ws(s).0[k]),
        forall|k: int| 0 <= k < split_ws(s).1.len() ==> !is_whitespace(#[trigger] split_ws(s).1[k]),
    decreases s.len(),
{
    if s.len() > 0 {
        lemma_split_words_are_words(s.drop_last());
        let (done, cur) = split_ws(s.drop_last());
        if !is_whitespace(s.last()) {
            let c2 = cur.push(s.last());
            assert forall|k: int| 0 <= k < c2.len() implies !is_whitespace(#[trigger] c2[k]) by {
                if k < cur.len() {
                    assert(c2[k] == cur[k]);
                }
            }
        } else if cur.len() > 0 {
            let d2 = done.push(cur);
            assert forall|k: int| 0 <= k < d2.len() implies is_word(#[trigger] d2[k]) by {
                if k < done.len() {
                    assert(d2[k] == done[k]);
                }
            }
        }
    }
}

/// Every word of `s` is a word.
pub proof fn lemma_words_are_words(s: Seq<char>)
    ensures
        forall|k: int| 0 <= k < words(s).len() ==> is_word(#[trigger] words(s)[k]),
{
    lemma_split_words_are_words(s);
    let (done, cur) = split_ws(s);
    if cur.len() > 0 {
        let d2 = done.push(cur);
        assert forall|k: int| 0 <= k < d2.len() implies is_word(#[trigger] d2[k]) by {
            if k < done.len() {
                assert(d2[k] == done[k]);
            }
        }
    }
}

/// Splitting words joined by single spaces: all but the last are finished,
/// and the last is the one still being read.
proof fn lemma_split_joined(ws: Seq<Seq<char>>)
    requires
        ws.len() > 0,
        forall|k: int| 0 <= k < ws.len() ==> is_word(#[trigger] ws[k]),
    ensures
        split_ws(join_words(ws)) == (ws.drop_last(), ws.last()),
    decreases ws.len(),
{
    assert(is_word(ws[ws.len() - 1]));
    if ws.len() == 1 {
        lemma_split_run(Seq::empty(), ws[0]);
        assert(Seq::<char>::empty() + ws[0] =~= ws[0]);
        assert(split_ws(Seq::<char>::empty()) == (Seq::<Seq<char>>::empty(), Seq::<char>::empty()));
        assert(Seq::<char>::empty() + ws[0] =~= ws[0]);
        assert(ws.drop_last() =~= Seq::<Seq<char>>::empty());
    } else {
        let front = ws.drop_last();
        assert forall|k: int| 0 <= k < front.len() implies is_word(#[trigger] front[k]) by {
            assert(front[k] == ws[k]);
        }
        assert(is_word(ws[ws.len() - 2]));
        lemma_split_joined(front);
        let j = join_words(front).push(' ');
        assert(j.drop_last() =~= join_words(front));
        assert(is_whitespace(j.last()));
        assert(front.last() == ws[ws.len() - 2]);
        assert(split_ws(j) == (front.drop_last().push(front.last()), Seq::<char>::empty()));
        assert(front.drop_last().push(front.last()) =~= front);
        lemma_split_run(j, ws.last());
        assert(Seq::<char>::empty() + ws.last() =~= ws.last());
    }
}

/// Writing the words back out with single spaces and splitting again gives
/// the same words: only the words of a string matter, not how they were
/// spaced.
pub proof fn lemma_rejoined_words(s: Seq<char>)
    ensures
        words(join_words(words(s))) == words(s),
{
    let ws = words(s);
    lemma_words_are_words(s);
    if ws.len() == 0 {
        assert(join_words(ws) =~= Seq::<char>::empty());
        assert(split_ws(Seq::<char>::empty()) == (Seq::<Seq<char>>::empty(), Seq::<char>::empty()));
    } else {
        lemma_split_joined(ws);
        assert(is_word(ws[ws.len() - 1]));
        assert(ws.drop_last().push(ws.last()) =~= ws);
    }
}

/// The words of `s`, split on whitespace.
pub fn split_words(s: &Vec<char>) -> (w: Vec<Vec<char>>)
    ensures
        words_of(w@) == words(s@),
{
    let mut done: Vec<Vec<char>> = Vec::new();
    let mut cur: Vec<char> = Vec::new();
    let mut i: usize = 0;
    while i < s.len()
        invariant
            i <= s.len(),
            (words_of(done@), cur@) == split_ws(s@.take(i as int)),
        decreases s.len() - i,
    {
        let c = s[i];
        proof {
            assert(s@.take(i + 1).drop_last() =~= s@.take(i as int));
        }
        if is_whitespace_char(c) {
            if cur.len() > 0 {
                let word = cur;
                done.push(word);
                cur = Vec::new();
                proof {
                    assert(words_of(done@) =~= split_ws(s@.take(i as int)).0.push(word@));
                    assert(cur@ =~= Seq::<char>::empty());
                }
            }
        } else {
            cur.push(c);
        }
        i = i + 1;
    }
    assert(s@.take(s.len() as int) =~= s@);
    if cur.len() > 0 {
        let ghost d = words_of(done@);
        let word = cur;
        done.push(word);
        assert(words_of(done@) =~= d.push(word@));
    }
    done
}

} // verus!
