//! Strings: the characters a name may hold, trimming, and cutting a line into
//! its fields at a separator.
use vstd::prelude::*;
use vstd::string::*;
use crate::seqs::{first_where, lemma_first_where_is};

verus! {

/// `str`'s `==`: two string slices are equal exactly when they hold the same
/// characters.
pub assume_specification[ <str as PartialEq<str>>::eq ](a: &str, b: &str) -> (r: bool)
    ensures
        r == (a@ == b@),
;

/// What `char::is_alphanumeric` answers for `c`: the character is alphabetic
/// or numeric in the sense of Unicode.
pub uninterp spec fn alphanumeric(c: char) -> bool;

/// Whether `c` has the Unicode property `White_Space`, by which `str::trim`
/// decides what to cut: the blank, the controls from tab to carriage return,
/// next line, and the spaces and line separators beyond ASCII.
pub open spec fn white_space(c: char) -> bool {
    let n = c as u32;
    ||| n == 0x20
    ||| 0x09 <= n <= 0x0d
    ||| n == 0x85
    ||| n == 0xa0
    ||| n == 0x1680
    ||| 0x2000 <= n <= 0x200a
    ||| n == 0x2028
    ||| n == 0x2029
    ||| n == 0x202f
    ||| n == 0x205f
    ||| n == 0x3000
}

/// `char::is_alphanumeric`. Beyond naming the answer, the contract records two
/// facts of Unicode that the context line depends on: the colon is
/// punctuation, and no white space is alphabetic or numeric.
pub assume_specification[ char::is_alphanumeric ](c: char) -> (b: bool)
    ensures
        b == alphanumeric(c),
        b ==> c != ':' && !white_space(c),
;

/// `s` without its leading white space.
pub open spec fn trim_start(s: Seq<char>) -> Seq<char>
    decreases s.len(),
{
    if s.len() > 0 && white_space(s[0]) {
        trim_start(s.drop_first())
    } else {
        s
    }
}

/// `s` without its trailing white space.
pub open spec fn trim_end(s: Seq<char>) -> Seq<char>
    decreases s.len(),
{
    if s.len() > 0 && white_space(s.last()) {
        trim_end(s.drop_last())
    } else {
        s
    }
}

/// `s` without leading and trailing white space.
pub open spec fn trimmed(s: Seq<char>) -> Seq<char> {
    trim_end(trim_start(s))
}

/// `str::trim`: the slice that is left when leading and trailing white space,
/// as Unicode defines it, is removed.
pub assume_specification[ str::trim ](s: &str) -> (t: &str)
    ensures
        t@ == trimmed(s@),
;

/// A text that neither starts nor ends with white space is its own trimming.
pub proof fn lemma_trimmed_is_identity(s: Seq<char>)
    requires
        s.len() > 0 ==> !white_space(s[0]) && !white_space(s.last()),
    ensures
        trimmed(s) == s,
{
}

/// The position of the first `sep` in `s`, or the length of `s` where it
/// holds none.
pub open spec fn first_sep(s: Seq<char>, sep: char) -> int {
    first_where(s, is_char(sep))
}

/// The property of being the character `sep`.
pub open spec fn is_char(sep: char) -> spec_fn(char) -> bool {
    |c: char| c == sep
}

/// The first two fields of `s` when it is cut at every `sep`; `None` where
/// `s` holds no `sep`, and so has one field only.
pub open spec fn two_fields(s: Seq<char>, sep: char) -> Option<(Seq<char>, Seq<char>)> {
    let i = first_sep(s, sep);
    if i >= s.len() {
        None
    } else {
        let rest = s.subrange(i + 1, s.len() as int);
        Some((s.subrange(0, i), rest.subrange(0, first_sep(rest, sep))))
    }
}

/// The position of the first `sep` at or after `from`, or the length of `s`.
fn find_sep(s: &str, from: usize, sep: char) -> (i: usize)
    requires
        from <= s@.len(),
    ensures
        i == from + first_sep(s@.subrange(from as int, s@.len() as int), sep),
        from <= i <= s@.len(),
{
    let n = s.unicode_len();
    let mut i: usize = from;
    while i < n && s.get_char(i) != sep
        invariant
            n == s@.len(),
            from <= i <= n,
            forall|j: int| from <= j < i ==> s@[j] != sep,
        decreases n - i,
    {
        i = i + 1;
    }
    proof {
        let tail = s@.subrange(from as int, s@.len() as int);
        assert forall|j: int| 0 <= j < i - from implies tail[j] != sep by {
            assert(tail[j] == s@[from + j]);
        }
        lemma_first_where_is(tail, is_char(sep), i - from);
    }
    i
}

/// Cuts `s` at `sep` and hands back its first two fields.
pub fn split_two(s: &str, sep: char) -> (r: Option<(String, String)>)
    ensures
        r.deep_view() == two_fields(s@, sep),
{
    let n = s.unicode_len();
    let i = find_sep(s, 0, sep);
    assert(s@.subrange(0, s@.len() as int) == s@);
    if i >= n {
        return None;
    }
    let j = find_sep(s, i + 1, sep);
    let left = s.substring_char(0, i).to_string();
    let right = s.substring_char(i + 1, j).to_string();
    proof {
        let rest = s@.subrange(i + 1, s@.len() as int);
        assert(rest.subrange(0, j - (i + 1)) == s@.subrange(i + 1, j as int));
    }
    Some((left, right))
}

/// `a`, then `b`.
pub fn concat2(a: &str, b: &str) -> (r: String)
    ensures
        r@ == a@ + b@,
{
    let mut r = a.to_string();
    r.append(b);
    r
}

/// `a`, then `b`, then `c`.
pub fn concat3(a: &str, b: &str, c: &str) -> (r: String)
    ensures
        r@ == a@ + b@ + c@,
{
    let mut r = a.to_string();
    r.append(b);
    r.append(c);
    r
}

/// The path of the entry `name` inside the directory `dir`.
pub open spec fn path_join(dir: Seq<char>, name: Seq<char>) -> Seq<char> {
    dir + "/"@ + name
}

/// The path of the entry `name` inside the directory `dir`.
pub fn join_path(dir: &str, name: &str) -> (r: String)
    ensures
        r@ == path_join(dir@, name@),
{
    concat3(dir, "/", name)
}

/// The directory of the workspace `ctf` below `workdir`.
pub open spec fn ctf_dir(workdir: Seq<char>, ctf: Seq<char>) -> Seq<char> {
    path_join(workdir, ctf)
}

/// The directory of a category inside a workspace.
pub open spec fn category_dir(workdir: Seq<char>, ctf: Seq<char>, category: Seq<char>) -> Seq<
    char,
> {
    path_join(ctf_dir(workdir, ctf), category)
}

/// The directory of a challenge inside its category.
pub open spec fn chall_dir(
    workdir: Seq<char>,
    ctf: Seq<char>,
    category: Seq<char>,
    chall: Seq<char>,
) -> Seq<char> {
    path_join(category_dir(workdir, ctf, category), chall)
}

/// The directory of a category inside a workspace.
pub fn category_path(workdir: &str, ctf: &str, category: &str) -> (r: String)
    ensures
        r@ == category_dir(workdir@, ctf@, category@),
{
    let dir = join_path(workdir, ctf);
    join_path(dir.as_str(), category)
}

/// The directory of a challenge inside its category.
pub fn chall_path(workdir: &str, ctf: &str, category: &str, chall: &str) -> (r: String)
    ensures
        r@ == chall_dir(workdir@, ctf@, category@, chall@),
{
    let dir = category_path(workdir, ctf, category);
    join_path(dir.as_str(), chall)
}

/// Whether `c` may stand in the name of a workspace or of a challenge: a
/// letter, a digit or an underscore. That a letter or digit is neither a
/// colon nor white space holds of every one of them; it is spelled out here so
/// that proofs can use it.
pub open spec fn accepted_char(c: char) -> bool {
    c == '_' || (alphanumeric(c) && c != ':' && !white_space(c))
}

/// Whether every character of `s` may stand in a name. The empty text passes.
pub open spec fn valid_name(s: Seq<char>) -> bool {
    forall|i: int| 0 <= i < s.len() ==> accepted_char(#[trigger] s[i])
}

/// Whether a character may stand in a name, given whether it is a letter or
/// a digit: such a character may, and so may the underscore.
pub fn accepts(c: char, letter_or_digit: bool) -> (b: bool)
    ensures
        b == (letter_or_digit || c == '_'),
{
    letter_or_digit || c == '_'
}

/// Decides whether `s` can be used as a name.
pub fn is_valid_name(s: &str) -> (b: bool)
    ensures
        b == valid_name(s@),
{
    let n = s.unicode_len();
    let mut i: usize = 0;
    while i < n
        invariant
            n == s@.len(),
            i <= n,
            forall|j: int| 0 <= j < i ==> accepted_char(#[trigger] s@[j]),
        decreases n - i,
    {
        let c = s.get_char(i);
        if !accepts(c, c.is_alphanumeric()) {
            return false;
        }
        i = i + 1;
    }
    true
}

} // verus!
