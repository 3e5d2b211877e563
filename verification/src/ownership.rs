//! Passing strings by value and by reference, and finding the first word.
use vstd::prelude::*;
use vstd::string::StrSliceExecFns;
use vstd::string::StringExecFns;

verus! {

/// Hands a freshly made string to the caller.
pub fn gives_ownership() -> (r: String)
    ensures
        r@ == "yours"@,
{
    let some_string = String::from_str("yours");
    some_string
}

/// Takes a string and hands the same one back.
pub fn takes_and_gives_back(a_string: String) -> (r: String)
    ensures
        r == a_string,
{
    a_string
}

/// The length of the string, counted in characters.
pub fn calculate_length(s: &String) -> (length: usize)
    ensures
        length == s@.len(),
{
    let length = s.as_str().unicode_len();
    length
}

/// Appends ", world" to the string in place.
pub fn change(some_string: &mut String)
    ensures
        final(some_string)@ == old(some_string)@ + ", world"@,
{
    some_string.append(", world");
}

/// The position of the first space in the sequence, or its length if
/// no character is a space.
pub open spec fn first_space_index(s: Seq<char>) -> int
    decreases s.len(),
{
    if s.len() == 0 {
        0
    } else if s[0] == ' ' {
        0
    } else {
        1 + first_space_index(s.drop_first())
    }
}

/// A position that carries a space, with none before it, is the first space;
/// and a sequence without a space has its length as the index.
proof fn lemma_first_space_index_at(s: Seq<char>, i: int)
    requires
        0 <= i <= s.len(),
        forall|j: int| 0 <= j < i ==> s[j] != ' ',
        i < s.len() ==> s[i] == ' ',
    ensures
        first_space_index(s) == i,
    decreases s.len(),
{
    if s.len() == 0 {
    } else if s[0] == ' ' {
    } else {
        assert(forall|j: int| 0 <= j < i - 1 ==> s.drop_first()[j] == s[j + 1]);
        lemma_first_space_index_at(s.drop_first(), i - 1);
    }
}

/// The index just past the first word: where the first space stands,
/// or the whole length when there is none.
pub fn first_word(s: &String) -> (r: usize)
    ensures
        r == first_space_index(s@),
{
    let n = s.as_str().unicode_len();
    let mut i: usize = 0;
    while i < n
        invariant
            0 <= i <= n,
            n == s@.len(),
            forall|j: int| 0 <= j < i ==> s@[j] != ' ',
        decreases n - i,
    {
        if s.as_str().get_char(i) == ' ' {
            proof {
                lemma_first_space_index_at(s@, i as int);
            }
            return i;
        }
        i += 1;
    }
    proof {
        lemma_first_space_index_at(s@, n as int);
    }
    n
}

/// The first word of the string: everything before the first space,
/// or the whole string when there is none.
pub fn first_word_slice<'a>(s: &'a str) -> (r: &'a str)
    ensures
        r@ == s@.subrange(0, first_space_index(s@)),
{
    let n = s.unicode_len();
    let mut i: usize = 0;
    while i < n
        invariant
            0 <= i <= n,
            n == s@.len(),
            forall|j: int| 0 <= j < i ==> s@[j] != ' ',
        decreases n - i,
    {
        if s.get_char(i) == ' ' {
            proof {
                lemma_first_space_index_at(s@, i as int);
            }
            return s.substring_char(0, i);
        }
        i += 1;
    }
    proof {
        lemma_first_space_index_at(s@, n as int);
    }
    s.substring_char(0, n)
}

} // verus!
