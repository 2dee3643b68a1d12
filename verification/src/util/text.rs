//! Small string helpers: comparison, prefix tests, trimming, decimal
//! rendering and fixed-width padding, each stated over `Seq<char>`.
use vstd::prelude::*;

verus! {

/// Calls `String::push`, which appends `c` to the end of `s`.
#[verifier::external_body]
pub(crate) fn push_char(s: &mut String, c: char)
    ensures
        final(s)@ == old(s)@.push(c),
{
    s.push(c);
}

/// Append every character of `t` to `s`.
pub fn push_str(s: &mut String, t: &str)
    ensures
        final(s)@ == old(s)@ + t@,
{
    s.append(t);
}

/// Whether `name` is one plain path component on every platform: not
/// empty, and without a slash, a backslash or a colon.
pub open spec fn plain_file_name(name: Seq<char>) -> bool {
    &&& name.len() > 0
    &&& forall|i: int| 0 <= i < name.len() ==> name[i] != '/' && name[i] != '\\' && name[i] != ':'
}

/// Whether `joined` is `dir` followed by `name`, with at most one
/// separator (a slash or a backslash) between them.
pub open spec fn joined_under(dir: Seq<char>, name: Seq<char>, joined: Seq<char>) -> bool {
    ||| joined == dir + name
    ||| joined == dir + seq!['/'] + name
    ||| joined == dir + seq!['\\'] + name
}

/// Index of the last `c` in `s`, or -1 when there is none.
pub open spec fn last_index_of(s: Seq<char>, c: char) -> int
    decreases s.len(),
{
    if s.len() == 0 {
        -1
    } else if s.last() == c {
        s.len() - 1
    } else {
        last_index_of(s.drop_last(), c)
    }
}

/// The text of `path` after its last slash (all of it when there is none).
pub open spec fn path_tail(path: Seq<char>) -> Seq<char> {
    path.subrange(last_index_of(path, '/') + 1, path.len() as int)
}

/// The text of `path` up to and including its last slash (empty when there
/// is none).
pub open spec fn path_dir_part(path: Seq<char>) -> Seq<char> {
    path.subrange(0, last_index_of(path, '/') + 1)
}

/// Whether `c` separates path components on some platform.
pub open spec fn is_separator(c: char) -> bool {
    c == '/' || c == '\\'
}

/// Whether every platform reads the last component of `path` as the plain
/// file name `path_tail(path)`: the path does not start with a backslash
/// (Windows verbatim paths split only at backslashes) nor with two
/// separators (which Windows may read as a network share prefix), and the
/// tail is a plain component other than `.` and `..`.
pub open spec fn has_plain_tail(path: Seq<char>) -> bool {
    let t = path_tail(path);
    &&& !(path.len() > 0 && path[0] == '\\')
    &&& !(path.len() > 1 && is_separator(path[0]) && is_separator(path[1]))
    &&& plain_file_name(t)
    &&& t != seq!['.']
    &&& t != seq!['.', '.']
}

/// The stem of the file name `name`: the part before its last dot, or the
/// whole name when it has no dot or only a leading one.
pub open spec fn name_stem(name: Seq<char>) -> Seq<char> {
    let i = last_index_of(name, '.');
    if i <= 0 {
        name
    } else {
        name.subrange(0, i)
    }
}

/// The extension of the file name `name`: the part after its last dot;
/// none when it has no dot or only a leading one.
pub open spec fn name_extension(name: Seq<char>) -> Option<Seq<char>> {
    let i = last_index_of(name, '.');
    if i <= 0 {
        None
    } else {
        Some(name.subrange(i + 1, name.len() as int))
    }
}

/// Calls `std::path::Path::join` and renders the path as text. For a plain
/// component `file`, `PathBuf::push` appends it after `dir`, adding the
/// platform's separator unless `dir` is empty or already ends in one; the
/// claim leaves out a `dir` that starts with a backslash, where Windows rebuilds
/// verbatim paths (dropping `.` and `..` components).
#[verifier::external_body]
pub(crate) fn path_join(dir: &str, file: &str) -> (r: String)
    ensures
        plain_file_name(file@) && !(dir@.len() > 0 && dir@[0] == '\\') ==> joined_under(dir@, file@, r@),
{
    std::path::Path::new(dir).join(file).to_string_lossy().to_string()
}

/// The text of `path` after its last slash or backslash.
pub open spec fn any_platform_tail(path: Seq<char>) -> Seq<char> {
    let s = last_index_of(path, '/');
    let b = last_index_of(path, '\\');
    path.subrange((if s > b { s } else { b }) + 1, path.len() as int)
}

/// Whether `path` ends in a plain file name with a dot after its first
/// character, after its last slash or backslash, and does not start with two
/// separators. Every platform then cuts the path at that last dot to find
/// the stem, whether it splits at backslashes or not.
pub open spec fn has_dotted_name(path: Seq<char>) -> bool {
    let t = any_platform_tail(path);
    &&& !(path.len() > 1 && is_separator(path[0]) && is_separator(path[1]))
    &&& plain_file_name(t)
    &&& last_index_of(t, '.') > 0
}

/// Calls `std::path::Path::with_extension` and renders the path as text:
/// the path cut right after the file stem, then a dot and `ext`. Where every
/// platform reads the last component of `path` as the same plain file name,
/// that is the part up to the last slash, the stem of the name, a dot and
/// `ext`; where the name has a dot after its first character (with slash or
/// backslash separators), it is the path up to its last dot, a dot and
/// `ext`. `ext` holds no separator, on which the call would panic.
#[verifier::external_body]
pub(crate) fn path_with_extension(path: &str, ext: &str) -> (r: String)
    requires
        plain_file_name(ext@),
    ensures
        has_plain_tail(path@) ==> r@ == path_dir_part(path@) + name_stem(path_tail(path@)) + seq!['.'] + ext@,
        has_dotted_name(path@) ==> r@ == path@.subrange(0, last_index_of(path@, '.')) + seq!['.'] + ext@,
{
    std::path::Path::new(path).with_extension(ext).to_string_lossy().to_string()
}

/// Whether `c` occurs in `s`.
pub open spec fn has_char(s: Seq<char>, c: char) -> bool {
    exists|i: int| 0 <= i < s.len() && s[i] == c
}

/// Whether `c` occurs in `s`.
pub fn str_has_char(s: &str, c: char) -> (r: bool)
    ensures
        r == has_char(s@, c),
{
    let n = s.unicode_len();
    let mut i: usize = 0;
    while i < n
        invariant
            n == s@.len(),
            i <= n,
            forall|k: int| 0 <= k < i ==> s@[k] != c,
        decreases n - i,
    {
        if s.get_char(i) == c {
            return true;
        }
        i = i + 1;
    }
    false
}

/// `str::to_lowercase` of `s`.
pub uninterp spec fn lowercase(s: Seq<char>) -> Seq<char>;

/// Calls `str::to_lowercase`: the Unicode lowercase mapping of `s`.
#[verifier::external_body]
pub(crate) fn to_lowercase(s: &str) -> (r: String)
    ensures
        r@ == lowercase(s@),
{
    s.to_lowercase()
}

/// `true` when the two strings hold the same characters.
pub fn str_eq(a: &str, b: &str) -> (r: bool)
    ensures
        r == (a@ == b@),
{
    let n = a.unicode_len();
    if n != b.unicode_len() {
        return false;
    }
    let mut i: usize = 0;
    while i < n
        invariant
            n == a@.len(),
            n == b@.len(),
            i <= n,
            forall|k: int| 0 <= k < i ==> a@[k] == b@[k],
        decreases n - i,
    {
        if a.get_char(i) != b.get_char(i) {
            return false;
        }
        i = i + 1;
    }
    assert(a@ =~= b@);
    true
}

/// `s` begins with the characters of `p`.
pub open spec fn starts_with(s: Seq<char>, p: Seq<char>) -> bool {
    p.len() <= s.len() && s.subrange(0, p.len() as int) == p
}

/// `true` when `s` begins with `p`.
pub fn str_starts_with(s: &str, p: &str) -> (r: bool)
    ensures
        r == starts_with(s@, p@),
{
    let n = s.unicode_len();
    let m = p.unicode_len();
    if m > n {
        return false;
    }
    let mut i: usize = 0;
    while i < m
        invariant
            n == s@.len(),
            m == p@.len(),
            m <= n,
            i <= m,
            forall|k: int| 0 <= k < i ==> s@[k] == p@[k],
        decreases m - i,
    {
        if s.get_char(i) != p.get_char(i) {
            assert(s@.subrange(0, m as int)[i as int] != p@[i as int]);
            return false;
        }
        i = i + 1;
    }
    assert(s@.subrange(0, m as int) =~= p@);
    true
}

/// Unicode `White_Space`, the set that `char::is_whitespace` tests.
pub open spec fn is_space(c: char) -> bool {
    let u = c as u32;
    (0x09 <= u <= 0x0D) || u == 0x20 || u == 0x85 || u == 0xA0 || u == 0x1680 || (0x2000 <= u
        <= 0x200A) || u == 0x2028 || u == 0x2029 || u == 0x202F || u == 0x205F || u == 0x3000
}

/// `s` without its leading white space.
pub open spec fn trim_start(s: Seq<char>) -> Seq<char>
    decreases s.len(),
{
    if s.len() > 0 && is_space(s[0]) {
        trim_start(s.drop_first())
    } else {
        s
    }
}

/// `s` without its trailing white space.
pub open spec fn trim_end(s: Seq<char>) -> Seq<char>
    decreases s.len(),
{
    if s.len() > 0 && is_space(s.last()) {
        trim_end(s.drop_last())
    } else {
        s
    }
}

/// `s` without leading and trailing white space, as `str::trim` gives it.
pub open spec fn trim(s: Seq<char>) -> Seq<char> {
    trim_end(trim_start(s))
}

/// Whether `c` is Unicode white space.
pub fn char_is_space(c: char) -> (r: bool)
    ensures
        r == is_space(c),
{
    let u = c as u32;
    (0x09 <= u && u <= 0x0D) || u == 0x20 || u == 0x85 || u == 0xA0 || u == 0x1680 || (0x2000 <= u
        && u <= 0x200A) || u == 0x2028 || u == 0x2029 || u == 0x202F || u == 0x205F || u == 0x3000
}

/// A copy of `s` with leading and trailing white space removed.
pub fn trim_string(s: &str) -> (r: String)
    ensures
        r@ == trim(s@),
{
    let n = s.unicode_len();
    let mut i: usize = 0;
    assert(s@.subrange(0, n as int) =~= s@);
    while i < n && char_is_space(s.get_char(i))
        invariant
            n == s@.len(),
            i <= n,
            trim_start(s@) == trim_start(s@.subrange(i as int, n as int)),
        decreases n - i,
    {
        assert(s@.subrange(i as int, n as int).drop_first() =~= s@.subrange(i + 1, n as int));
        i = i + 1;
    }
    assert(trim_start(s@) == s@.subrange(i as int, n as int));
    let mut j: usize = n;
    while j > i && char_is_space(s.get_char(j - 1))
        invariant
            n == s@.len(),
            i <= j <= n,
            trim(s@) == trim_end(s@.subrange(i as int, j as int)),
        decreases j - i,
    {
        assert(s@.subrange(i as int, j as int).drop_last() =~= s@.subrange(i as int, j - 1));
        j = j - 1;
    }
    let t = s.substring_char(i, j);
    String::from_str(t)
}

/// The characters of `s` from index `from` to the end.
pub fn suffix_from(s: &str, from: usize) -> (r: String)
    requires
        from <= s@.len(),
    ensures
        r@ == s@.subrange(from as int, s@.len() as int),
{
    let n = s.unicode_len();
    String::from_str(s.substring_char(from, n))
}

/// The decimal digits of `n`, most significant first.
pub open spec fn decimal(n: nat) -> Seq<char>
    decreases n,
{
    if n < 10 {
        seq![digit_char(n)]
    } else {
        decimal(n / 10).push(digit_char(n % 10))
    }
}

/// The ASCII digit for `d` (0..=9).
pub open spec fn digit_char(d: nat) -> char {
    (('0' as u32) + d) as char
}

/// Render `n` in decimal.
pub fn u64_decimal(n: u64) -> (r: String)
    ensures
        r@ == decimal(n as nat),
    decreases n,
{
    if n < 10 {
        let mut s = String::new();
        push_char(&mut s, ((48 + n) as u8) as char);
        proof {
            assert(((48 + n) as u8) as char == digit_char(n as nat));
            assert(s@ =~= decimal(n as nat));
        }
        s
    } else {
        let mut s = u64_decimal(n / 10);
        let d = n % 10;
        push_char(&mut s, ((48 + d) as u8) as char);
        proof {
            assert(((48 + d) as u8) as char == digit_char(d as nat));
        }
        s
    }
}

/// `s` followed by spaces up to `width` characters; never shortened.
pub open spec fn pad_right(s: Seq<char>, width: nat) -> Seq<char> {
    if s.len() >= width {
        s
    } else {
        s + Seq::new((width - s.len()) as nat, |_i: int| ' ')
    }
}

/// `n` copies of `c`.
pub fn repeat_char(c: char, n: usize) -> (r: String)
    ensures
        r@ == Seq::new(n as nat, |_i: int| c),
{
    let mut s = String::new();
    let mut i: usize = 0;
    while i < n
        invariant
            i <= n,
            s@ == Seq::new(i as nat, |_i: int| c),
        decreases n - i,
    {
        push_char(&mut s, c);
        i = i + 1;
        assert(s@ =~= Seq::new(i as nat, |_i: int| c));
    }
    s
}

/// Left-align `s` in a field of `width` characters (`{:<width}`).
pub fn pad_right_string(s: &str, width: usize) -> (r: String)
    ensures
        r@ == pad_right(s@, width as nat),
{
    let n = s.unicode_len();
    let mut r = String::from_str(s);
    if n < width {
        let pad = repeat_char(' ', width - n);
        r.append(pad.as_str());
    }
    r
}

} // verus!
