//! Laws of the operations on text.
use crate::text::{because, contains_double_slash, take_first_word};
use vstd::prelude::*;

verus! {

/// Is `word` all that stands in `s` before the first space?
pub open spec fn is_first_word(word: Seq<char>, s: Seq<char>) -> bool {
    &&& !word.contains(' ')
    &&& word.is_prefix_of(s)
    &&& word.len() < s.len() ==> s[word.len() as int] == ' '
}

/// A text has only one first word.
pub proof fn law_first_word_is_unique(s: Seq<char>, v: Seq<char>, w: Seq<char>)
    requires
        is_first_word(v, s),
        is_first_word(w, s),
    ensures
        v == w,
{
    if v.len() < w.len() {
        assert(w[v.len() as int] == ' ');
    } else if w.len() < v.len() {
        assert(v[w.len() as int] == ' ');
    }
    assert(v =~= w);
}

/// The first word ends where the first space stands.
pub proof fn law_first_word(s: &str, r: &str)
    requires
        call_ensures(take_first_word, (s,), r),
    ensures
        is_first_word(r@, s@),
{
    crate::text::law_first_word_ends_at_a_space(s@);
}

/// Whatever follows the first space does not matter.
pub proof fn law_text_after_a_space_is_dropped(
    s: &str,
    word: Seq<char>,
    rest: Seq<char>,
    r: &str,
)
    requires
        !word.contains(' '),
        s@ == word || s@ == word + seq![' '] + rest,
        call_ensures(take_first_word, (s,), r),
    ensures
        r@ == word,
{
    law_first_word(s, r);
    assert(is_first_word(word, s@));
    law_first_word_is_unique(s@, r@, word);
}

/// A text holds a double slash if and only if it can be parted around one.
pub proof fn law_double_slash(s: &str, r: bool)
    requires
        call_ensures(contains_double_slash, (s,), r),
    ensures
        r <==> exists|before: Seq<char>, after: Seq<char>|
            s@ == #[trigger] (before + "//"@ + after),
{
    let slashes = "//"@;
    if r {
        let i = choose|i: int|
            0 <= i <= s@.len() - slashes.len() && #[trigger] s@.subrange(i, i + slashes.len())
                == slashes;
        let before = s@.take(i);
        let after = s@.skip(i + slashes.len());
        assert(s@ =~= before + s@.subrange(i, i + slashes.len()) + after);
        assert(s@ == before + "//"@ + after);
    }
    if exists|before: Seq<char>, after: Seq<char>| s@ == #[trigger] (before + "//"@ + after) {
        let (before, after) = choose|before: Seq<char>, after: Seq<char>|
            s@ == #[trigger] (before + "//"@ + after);
        let i = before.len() as int;
        assert(s@.subrange(i, i + slashes.len()) =~= slashes);
    }
}

/// A reason is given in full; without one there is no ending at all.
pub proof fn law_reason_is_whole(message: &str, r: String)
    requires
        call_ensures(because, (message,), r),
    ensures
        message@.len() == 0 ==> r@.len() == 0,
        message@.len() > 0 ==> r@ == " because "@ + message@,
{
}

} // verus!
