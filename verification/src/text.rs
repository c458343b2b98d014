//! Small operations on text: comparing, testing a prefix, and splitting at a
//! separator.

use vstd::prelude::*;
use vstd::string::*;

verus! {

/// Where `sep` first stands in `s`, or the length of `s` where it does not
/// occur.
pub open spec fn first_index(s: Seq<char>, sep: char) -> int
    decreases s.len(),
{
    if s.len() == 0 || s[0] == sep {
        0
    } else {
        1 + first_index(s.skip(1), sep)
    }
}

/// The pieces of `s` between the occurrences of `sep`, in order. There is one
/// piece more than there are separators, so at least one; a piece may be empty.
pub open spec fn split_spec(s: Seq<char>, sep: char) -> Seq<Seq<char>>
    decreases s.len(),
{
    let k = first_index(s, sep);
    if 0 <= k < s.len() {
        seq![s.take(k)] + split_spec(s.skip(k + 1), sep)
    } else {
        seq![s]
    }
}

/// Whether `sep` stands nowhere in `s`.
pub open spec fn free_of(s: Seq<char>, sep: char) -> bool {
    forall|i: int| 0 <= i < s.len() ==> #[trigger] s[i] != sep
}

/// What an optional string holds.
pub open spec fn option_text(o: Option<String>) -> Option<Seq<char>> {
    match o {
        Some(s) => Some(s@),
        None => None,
    }
}

/// What each string of `v` holds.
pub open spec fn texts(v: Seq<String>) -> Seq<Seq<char>> {
    Seq::new(v.len(), |i: int| v[i]@)
}

/// [`first_index`] is the one position before which `sep` does not stand and
/// at which it does, or the end.
pub proof fn lemma_first_index(s: Seq<char>, sep: char, k: int)
    requires
        0 <= k <= s.len(),
        free_of(s.take(k), sep),
        k < s.len() ==> s[k] == sep,
    ensures
        first_index(s, sep) == k,
    decreases s.len(),
{
    if k == 0 {
    } else {
        assert(s.take(k)[0] == s[0]);
        let rest = s.skip(1);
        assert forall|i: int| 0 <= i < k - 1 implies #[trigger] rest.take(k - 1)[i] != sep by {
            assert(s.take(k)[i + 1] == rest.take(k - 1)[i]);
        }
        lemma_first_index(rest, sep, k - 1);
    }
}

/// The pieces put together again, with `sep` between each two.
pub open spec fn join_spec(parts: Seq<Seq<char>>, sep: char) -> Seq<char>
    decreases parts.len(),
{
    if parts.len() == 0 {
        Seq::empty()
    } else if parts.len() == 1 {
        parts[0]
    } else {
        parts[0] + seq![sep] + join_spec(parts.skip(1), sep)
    }
}

/// [`first_index`] lies within the text or at its end, `sep` does not stand
/// before it, and within the text `sep` stands at it.
pub proof fn lemma_first_index_found(s: Seq<char>, sep: char)
    ensures
        0 <= first_index(s, sep) <= s.len(),
        free_of(s.take(first_index(s, sep)), sep),
        first_index(s, sep) < s.len() ==> s[first_index(s, sep)] == sep,
    decreases s.len(),
{
    if s.len() == 0 || s[0] == sep {
    } else {
        let rest = s.skip(1);
        lemma_first_index_found(rest, sep);
        let k = first_index(s, sep);
        assert forall|i: int| 0 <= i < k implies #[trigger] s.take(k)[i] != sep by {
            if i > 0 {
                assert(rest.take(k - 1)[i - 1] == s.take(k)[i]);
            }
        }
    }
}

/// Splitting loses nothing and leaves no separator behind: the pieces, put
/// together with the separator between them, are the text, and no piece
/// holds the separator.
pub proof fn lemma_split_join(s: Seq<char>, sep: char)
    ensures
        join_spec(split_spec(s, sep), sep) == s,
        forall|i: int|
            0 <= i < split_spec(s, sep).len() ==> free_of(#[trigger] split_spec(s, sep)[i], sep),
    decreases s.len(),
{
    let k = first_index(s, sep);
    lemma_first_index_found(s, sep);
    if 0 <= k < s.len() {
        let rest = s.skip(k + 1);
        lemma_split_join(rest, sep);
        lemma_split_nonempty(rest, sep);
        let parts = split_spec(s, sep);
        assert(parts.skip(1) =~= split_spec(rest, sep));
        assert(s =~= s.take(k) + seq![sep] + rest);
        assert forall|i: int| 0 <= i < parts.len() implies free_of(#[trigger] parts[i], sep) by {
            if i > 0 {
                assert(parts[i] == split_spec(rest, sep)[i - 1]);
            }
        }
    } else {
        assert(s.take(k) =~= s);
    }
}

/// A text has one piece at least, also the empty text.
pub proof fn lemma_split_nonempty(s: Seq<char>, sep: char)
    ensures
        split_spec(s, sep).len() >= 1,
    decreases s.len(),
{
    let k = first_index(s, sep);
    if 0 <= k < s.len() {
        lemma_split_nonempty(s.skip(k + 1), sep);
    }
}

/// A text without the separator is its own single piece.
pub proof fn lemma_split_whole(s: Seq<char>, sep: char)
    requires
        free_of(s, sep),
    ensures
        split_spec(s, sep) == seq![s],
{
    lemma_first_index(s, sep, s.len() as int);
}

/// Splitting a text at a separator that follows a separator-free head gives
/// the head, then the pieces of what follows the separator.
pub proof fn lemma_split_head(head: Seq<char>, tail: Seq<char>, sep: char)
    requires
        free_of(head, sep),
    ensures
        split_spec(head + seq![sep] + tail, sep) == seq![head] + split_spec(tail, sep),
{
    let s = head + seq![sep] + tail;
    let k = head.len() as int;
    assert(s.take(k) =~= head);
    lemma_first_index(s, sep, k);
    assert(s.skip(k + 1) =~= tail);
}

/// Whether two texts hold the same characters.
pub fn same_text(a: &str, b: &str) -> (r: bool)
    ensures
        r == (a@ == b@),
{
    let n = a.unicode_len();
    if b.unicode_len() != n {
        return false;
    }
    let mut i: usize = 0;
    while i < n
        invariant
            i <= n,
            n == a@.len(),
            n == b@.len(),
            a@.take(i as int) == b@.take(i as int),
        decreases n - i,
    {
        if a.get_char(i) != b.get_char(i) {
            return false;
        }
        i += 1;
    }
    assert(a@.take(n as int) =~= a@);
    assert(b@.take(n as int) =~= b@);
    true
}

/// Whether `s` begins with `prefix`.
pub fn starts_with(s: &str, prefix: &str) -> (r: bool)
    ensures
        r == prefix@.is_prefix_of(s@),
{
    let n = prefix.unicode_len();
    if s.unicode_len() < n {
        return false;
    }
    let mut i: usize = 0;
    while i < n
        invariant
            i <= n,
            n == prefix@.len(),
            n <= s@.len(),
            prefix@.take(i as int) == s@.take(i as int),
        decreases n - i,
    {
        if s.get_char(i) != prefix.get_char(i) {
            return false;
        }
        i += 1;
    }
    true
}

/// Splits `s` at every `sep`.
pub fn split(s: &str, sep: char) -> (parts: Vec<String>)
    ensures
        texts(parts@) == split_spec(s@, sep),
{
    let n = s.unicode_len();
    let mut parts: Vec<String> = Vec::new();
    let mut start: usize = 0;
    let mut i: usize = 0;
    assert(s@.skip(0) =~= s@);
    while i < n
        invariant
            start <= i <= n,
            n == s@.len(),
            free_of(s@.subrange(start as int, i as int), sep),
            split_spec(s@, sep) == texts(parts@) + split_spec(s@.skip(start as int), sep),
        decreases n - i,
    {
        if s.get_char(i) == sep {
            let piece = String::from_str(s.substring_char(start, i));
            proof {
                let rest = s@.skip(start as int);
                let k = i - start;
                assert(rest.take(k) =~= s@.subrange(start as int, i as int));
                lemma_first_index(rest, sep, k);
                assert(rest.skip(k + 1) =~= s@.skip(i + 1));
            }
            parts.push(piece);
            start = i + 1;
        }
        i += 1;
    }
    let piece = String::from_str(s.substring_char(start, n));
    proof {
        lemma_split_whole(s@.skip(start as int), sep);
    }
    parts.push(piece);
    parts
}

} // verus!
