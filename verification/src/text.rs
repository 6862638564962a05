//! Small operations on text: the first word, a search, and joining pieces.
use vstd::prelude::*;

verus! {

/// The position of the first space of `s`, or its length where it has none.
pub open spec fn first_space(s: Seq<char>) -> int {
    match s.index_of_first(' ') {
        Some(i) => i,
        None => s.len() as int,
    }
}

/// What stands before the first space of `s`; all of `s` where it has none.
pub open spec fn first_word(s: Seq<char>) -> Seq<char> {
    s.take(first_space(s))
}

/// Does `needle` stand somewhere in `s`?
pub open spec fn contains_text(s: Seq<char>, needle: Seq<char>) -> bool {
    exists|i: int|
        0 <= i <= s.len() - needle.len() && #[trigger] s.subrange(i, i + needle.len()) == needle
}

/// The texts that a list of strings stands for.
pub open spec fn texts(list: Seq<String>) -> Seq<Seq<char>> {
    list.map_values(|s: String| s@)
}

/// The text that an optional string stands for.
pub open spec fn text(s: Option<String>) -> Option<Seq<char>> {
    match s {
        Some(s) => Some(s@),
        None => None,
    }
}

/// The ending that gives a reason, where there is one.
pub open spec fn reason(message: Seq<char>) -> Seq<char> {
    if message.len() == 0 {
        Seq::empty()
    } else {
        " because "@ + message
    }
}

/// Returns `s` up to its first space.
pub fn take_first_word<'a>(s: &'a str) -> (r: &'a str)
    ensures
        r@ == first_word(s@),
{
    proof {
        s@.index_of_first_ensures(' ');
    }
    let len: usize = s.unicode_len();
    let mut n: usize = 0;
    for c in it: s.chars()
        invariant
            it.seq() == s@,
            len == s@.len(),
            n == it.index(),
            forall|j: int| 0 <= j < n ==> s@[j] != ' ',
    {
        if c == ' ' {
            proof {
                s@.index_of_first_ensures(' ');
            }
            return s.substring_char(0, n);
        }
        n = n + 1;
    }
    s
}

/// Does `s` hold two slashes in a row, as every web address does?
pub fn contains_double_slash(s: &str) -> (r: bool)
    ensures
        r == contains_text(s@, "//"@),
{
    proof {
        reveal_strlit("//");
    }
    let mut slash: bool = false;
    for c in it: s.chars()
        invariant
            it.seq() == s@,
            "//"@.len() == 2,
            "//"@[0] == '/',
            "//"@[1] == '/',
            slash <==> it.index() > 0 && s@[it.index() - 1] == '/',
            forall|i: int|
                0 <= i && i + 2 <= it.index() ==> #[trigger] s@.subrange(i, i + 2) != "//"@,
    {
        let ghost k = it.index();
        if c == '/' && slash {
            assert(s@.subrange(k - 1, k - 1 + 2) =~= "//"@);
            return true;
        }
        assert forall|i: int| 0 <= i && i + 2 <= k + 1 implies #[trigger] s@.subrange(i, i + 2)
            != "//"@ by {
            if i + 2 == k + 1 {
                assert(s@.subrange(i, i + 2)[0] == s@[i]);
                assert(s@.subrange(i, i + 2)[1] == s@[i + 1]);
            }
        }
        slash = c == '/';
    }
    false
}

/// Returns the ending that gives a reason, where there is one.
pub fn because(message: &str) -> (r: String)
    ensures
        r@ == reason(message@),
{
    if message.is_empty() {
        String::new()
    } else {
        " because ".to_owned().concat(message)
    }
}

/// A first word holds no space, begins the text, and is followed by a space
/// wherever it is not the whole text.
pub proof fn law_first_word_ends_at_a_space(s: Seq<char>)
    ensures
        !first_word(s).contains(' '),
        first_word(s).is_prefix_of(s),
        first_word(s).len() < s.len() ==> s[first_word(s).len() as int] == ' ',
{
    s.index_of_first_ensures(' ');
}

/// The first word of a first word is that word.
pub proof fn law_first_word_is_stable(s: Seq<char>)
    ensures
        first_word(first_word(s)) == first_word(s),
{
    law_first_word_ends_at_a_space(s);
    first_word(s).index_of_first_ensures(' ');
}

} // verus!
