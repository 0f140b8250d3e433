//! Searching and trimming of character sequences, on which the file-name and
//! marker rules of the engine are built.

use vstd::prelude::*;
use vstd::string::*;
use vstd::std_specs::iter::IteratorSpec;

verus! {

/// `pat` stands in `s` at position `at`.
pub open spec fn occurs_at(s: Seq<char>, pat: Seq<char>, at: int) -> bool {
    0 <= at && at + pat.len() <= s.len() && s.subrange(at, at + pat.len()) == pat
}

/// `pat` stands somewhere in `s`.
pub open spec fn contains(s: Seq<char>, pat: Seq<char>) -> bool {
    exists|at: int| occurs_at(s, pat, at)
}

/// `s` begins with `pat`.
pub open spec fn has_prefix(s: Seq<char>, pat: Seq<char>) -> bool {
    occurs_at(s, pat, 0)
}

/// `s` ends with `pat`.
pub open spec fn has_suffix(s: Seq<char>, pat: Seq<char>) -> bool {
    occurs_at(s, pat, s.len() - pat.len())
}

/// `s` without every repetition of `pat` at its end. An empty `pat` removes
/// nothing.
pub open spec fn trim_suffix(s: Seq<char>, pat: Seq<char>) -> Seq<char>
    decreases s.len(),
{
    if pat.len() > 0 && has_suffix(s, pat) {
        trim_suffix(s.subrange(0, s.len() - pat.len()), pat)
    } else {
        s
    }
}

/// What is left after trimming does not end with the pattern.
pub proof fn trim_suffix_is_trimmed(s: Seq<char>, pat: Seq<char>)
    ensures
        trim_suffix(trim_suffix(s, pat), pat) == trim_suffix(s, pat),
        pat.len() > 0 ==> !has_suffix(trim_suffix(s, pat), pat),
    decreases s.len(),
{
    if pat.len() > 0 && has_suffix(s, pat) {
        trim_suffix_is_trimmed(s.subrange(0, s.len() - pat.len()), pat);
    }
}

/// The characters of a string, one by one.
pub fn chars_of(s: &str) -> (r: Vec<char>)
    ensures
        r@ == s@,
{
    broadcast use vstd::string::group_string_axioms;

    let mut out: Vec<char> = Vec::new();
    let mut rest = s.chars();
    let ghost mut taken: int = 0;
    assert(rest.remaining() == s@);
    assert(s@.subrange(0, 0) =~= out@);
    assert(s@.subrange(0, s@.len() as int) =~= s@);
    loop
        invariant
            0 <= taken <= s@.len(),
            out@ == s@.subrange(0, taken),
            rest.remaining() == s@.subrange(taken, s@.len() as int),
            rest.obeys_prophetic_iter_laws(),
            rest.decrease() is Some,
        ensures
            out@ == s@,
        decreases rest.decrease()->0,
    {
        let ghost before = rest;
        match rest.next() {
            Some(c) => {
                out.push(c);
                proof {
                    assert(before.remaining().len() > 0);
                    assert(c == s@[taken]);
                    assert(out@ =~= s@.subrange(0, taken + 1));
                    assert(rest.remaining() =~= s@.subrange(taken + 1, s@.len() as int));
                    taken = taken + 1;
                }
            },
            None => {
                proof {
                    assert(before.remaining().len() == 0);
                    assert(taken == s@.len());
                }
                break ;
            },
        }
    }
    out
}

/// Whether `pat` stands in `s` at position `at`.
pub fn occurs_at_index(s: &Vec<char>, pat: &Vec<char>, at: usize) -> (r: bool)
    ensures
        r == occurs_at(s@, pat@, at as int),
{
    let n: usize = s.len();
    let m: usize = pat.len();
    if at > n || m > n - at {
        return false;
    }
    let mut i: usize = 0;
    while i < m
        invariant
            n == s@.len(),
            m == pat@.len(),
            at + m <= n,
            i <= m,
            forall|j: int| 0 <= j < i ==> s@[at + j] == pat@[j],
        decreases m - i,
    {
        if s[at + i] != pat[i] {
            assert(s@.subrange(at as int, at + m)[i as int] != pat@[i as int]);
            return false;
        }
        i = i + 1;
    }
    assert(s@.subrange(at as int, at + m) =~= pat@);
    true
}

/// Whether `pat` stands somewhere in `s`.
pub fn seq_contains(s: &Vec<char>, pat: &Vec<char>) -> (r: bool)
    ensures
        r == contains(s@, pat@),
{
    let n: usize = s.len();
    let m: usize = pat.len();
    if m > n {
        return false;
    }
    let last: usize = n - m;
    let mut at: usize = 0;
    while at < last
        invariant
            n == s@.len(),
            m == pat@.len(),
            last == n - m,
            at <= last,
            forall|k: int| 0 <= k < at ==> !occurs_at(s@, pat@, k),
        decreases last - at,
    {
        if occurs_at_index(s, pat, at) {
            return true;
        }
        at = at + 1;
    }
    occurs_at_index(s, pat, last)
}

/// Whether `pat` stands somewhere in `s`.
pub fn str_contains(s: &str, pat: &str) -> (r: bool)
    ensures
        r == contains(s@, pat@),
{
    let sv = chars_of(s);
    let pv = chars_of(pat);
    seq_contains(&sv, &pv)
}

/// Whether two strings hold the same characters.
pub fn str_equal(a: &str, b: &str) -> (r: bool)
    ensures
        r == (a@ == b@),
{
    let x = String::from_str(a);
    let y = String::from_str(b);
    x == y
}

/// Whether `s` begins with `pat`.
pub fn str_starts_with(s: &str, pat: &str) -> (r: bool)
    ensures
        r == has_prefix(s@, pat@),
{
    let sv = chars_of(s);
    let pv = chars_of(pat);
    occurs_at_index(&sv, &pv, 0)
}

/// Whether `s` ends with `pat`.
pub fn str_ends_with(s: &str, pat: &str) -> (r: bool)
    ensures
        r == has_suffix(s@, pat@),
{
    let sv = chars_of(s);
    let pv = chars_of(pat);
    if pv.len() > sv.len() {
        return false;
    }
    occurs_at_index(&sv, &pv, sv.len() - pv.len())
}

/// `s` without every repetition of `pat` at its end.
pub fn trim_end_matches(s: &str, pat: &str) -> (r: String)
    ensures
        r@ == trim_suffix(s@, pat@),
{
    let sv = chars_of(s);
    let pv = chars_of(pat);
    let m: usize = pv.len();
    let mut end: usize = sv.len();
    assert(s@.subrange(0, end as int) =~= s@);
    while m > 0 && end >= m && occurs_at_index(&sv, &pv, end - m)
        invariant
            sv@ == s@,
            pv@ == pat@,
            m == pv@.len(),
            end <= sv@.len(),
            trim_suffix(s@, pat@) == trim_suffix(s@.subrange(0, end as int), pat@),
        decreases end,
    {
        proof {
            let cur = s@.subrange(0, end as int);
            assert(cur.subrange(end - m, end as int) =~= s@.subrange(end - m, end as int));
            assert(has_suffix(cur, pat@));
            assert(cur.subrange(0, end - m) =~= s@.subrange(0, end - m));
        }
        end = end - m;
    }
    proof {
        let cur = s@.subrange(0, end as int);
        if m > 0 && end >= m {
            assert(cur.subrange(end - m, end as int) =~= s@.subrange(end - m, end as int));
            assert(!has_suffix(cur, pat@));
        }
        assert(trim_suffix(cur, pat@) == cur);
    }
    String::from_str(s.substring_char(0, end))
}

/// The position of the first `c` in `s` at or after `from`, or the length of
/// `s` where there is none.
pub open spec fn index_of_char(s: Seq<char>, c: char, from: int) -> int
    decreases s.len() - from,
{
    if from < 0 || from >= s.len() || s[from] == c {
        from
    } else {
        index_of_char(s, c, from + 1)
    }
}

/// A position before which `c` does not occur, and at which `s` ends or
/// holds `c`, is the position of the first `c`.
pub proof fn index_of_char_found(s: Seq<char>, c: char, from: int, end: int)
    requires
        0 <= from <= end <= s.len(),
        forall|j: int| from <= j < end ==> s[j] != c,
        end == s.len() || s[end] == c,
    ensures
        index_of_char(s, c, from) == end,
    decreases end - from,
{
    if from < end {
        index_of_char_found(s, c, from + 1, end);
    }
}

/// The position of the first `c` lies between `from` and the length of
/// `s`, and holds `c` where it lies within `s`.
pub proof fn index_of_char_bounds(s: Seq<char>, c: char, from: int)
    requires
        0 <= from <= s.len(),
    ensures
        from <= index_of_char(s, c, from) <= s.len(),
        index_of_char(s, c, from) < s.len() ==> s[index_of_char(s, c, from)] == c,
    decreases s.len() - from,
{
    if from < s.len() && s[from] != c {
        index_of_char_bounds(s, c, from + 1);
    }
}

/// Finds the first `c` in `s` at or after `from`.
pub fn find_char(s: &Vec<char>, c: char, from: usize) -> (end: usize)
    ensures
        end == index_of_char(s@, c, from as int),
        from <= s@.len() ==> from <= end <= s@.len(),
        forall|j: int| from <= j < end ==> s@[j] != c,
        end < s@.len() ==> s@[end as int] == c,
{
    let n: usize = s.len();
    if from >= n {
        return from;
    }
    let mut end: usize = from;
    while end < n && s[end] != c
        invariant
            n == s@.len(),
            from <= end <= n,
            forall|j: int| from <= j < end ==> s@[j] != c,
        decreases n - end,
    {
        end = end + 1;
    }
    proof {
        index_of_char_found(s@, c, from as int, end as int);
    }
    end
}

/// The texts of a sequence of strings.
pub open spec fn texts(strings: Seq<String>) -> Seq<Seq<char>> {
    Seq::new(strings.len(), |i: int| strings[i]@)
}

/// The pieces of `s` between the occurrences of `c`: one more than there
/// are occurrences, some of them possibly empty.
pub open spec fn split_on(s: Seq<char>, c: char) -> Seq<Seq<char>>
    decreases s.len(),
{
    let end = index_of_char(s, c, 0);
    if 0 <= end < s.len() {
        seq![s.subrange(0, end)] + split_on(s.subrange(end + 1, s.len() as int), c)
    } else {
        seq![s]
    }
}

/// Splits a string at every occurrence of `c`.
pub fn split_str(s: &str, c: char) -> (r: Vec<String>)
    ensures
        texts(r@) == split_on(s@, c),
{
    let sv = chars_of(s);
    let n: usize = sv.len();
    let mut out: Vec<String> = Vec::new();
    let mut pos: usize = 0;
    let mut done: bool = false;
    assert(s@.subrange(0, n as int) =~= s@);
    assert(texts(out@) + split_on(s@, c) =~= split_on(s@, c));
    while !done
        invariant
            sv@ == s@,
            n == s@.len(),
            pos <= n,
            !done ==> split_on(s@, c) == texts(out@) + split_on(
                s@.subrange(pos as int, n as int),
                c,
            ),
            done ==> texts(out@) == split_on(s@, c),
        decreases
                (if done {
                    0
                } else {
                    n - pos + 1
                }),
    {
        let end: usize = find_char(&sv, c, pos);
        let ghost tail = s@.subrange(pos as int, n as int);
        let ghost before = out@;
        proof {
            assert forall|j: int| 0 <= j < end - pos implies tail[j] != c by {
                assert(tail[j] == s@[pos + j]);
            }
            index_of_char_found(tail, c, 0, end - pos);
        }
        let piece = String::from_str(s.substring_char(pos, end));
        assert(piece@ =~= tail.subrange(0, end - pos));
        out.push(piece);
        assert(texts(out@) =~= texts(before) + seq![piece@]);
        if end < n {
            proof {
                assert(tail.subrange(end - pos + 1, tail.len() as int) =~= s@.subrange(
                    end + 1,
                    n as int,
                ));
                let rest = split_on(s@.subrange(end + 1, n as int), c);
                assert(split_on(tail, c) == seq![piece@] + rest);
                assert(texts(before) + (seq![piece@] + rest) =~= (texts(before) + seq![piece@])
                    + rest);
            }
            pos = end + 1;
        } else {
            proof {
                assert(tail.subrange(0, end - pos) =~= tail);
                assert(split_on(tail, c) == seq![tail]);
            }
            done = true;
        }
    }
    out
}

/// A text in lower case, as `str::to_lowercase` gives it.
pub uninterp spec fn lowercase(text: Seq<char>) -> Seq<char>;

/// Calls `str::to_lowercase`. The mapping of each character is left to the
/// standard library; the contract only names the result.
#[verifier::external_body]
pub(crate) fn to_lowercase(text: &str) -> (r: String)
    ensures
        r@ == lowercase(text@),
{
    text.to_lowercase()
}

} // verus!
