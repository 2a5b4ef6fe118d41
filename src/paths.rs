use vstd::prelude::*;
use crate::text::{chars_of, string_of, has_prefix, starts_with, push_all, push_range, find_last, find_first, last_index, first_index, lemma_last_index_bounds, lemma_first_index_at};

verus! {

/// Characters that common filesystems refuse in a file name.
pub open spec fn is_forbidden(c: char) -> bool {
    c == '<' || c == '>' || c == ':' || c == '"' || c == '/' || c == '\\' || c == '|' || c == '?'
        || c == '*'
}

pub open spec fn clean_char(c: char) -> char {
    if is_forbidden(c) {
        '_'
    } else {
        c
    }
}

/// Longest file name kept, in characters.
pub const MAX_NAME_CHARS: usize = 128;

/// `s` with each forbidden character replaced by `_`, cut to its first
/// `MAX_NAME_CHARS` characters.
pub open spec fn sanitized(s: Seq<char>) -> Seq<char> {
    let n = if s.len() <= MAX_NAME_CHARS {
        s.len() as int
    } else {
        MAX_NAME_CHARS as int
    };
    s.take(n).map_values(|c: char| clean_char(c))
}

/// Replaces the characters that filesystems refuse (`< > : " / \ | ? *`) with
/// `_` and keeps at most 128 characters (code points, not bytes).
pub fn sanitize_filename(input: &str) -> (r: String)
    ensures
        r@ == sanitized(input@),
        r@.len() <= MAX_NAME_CHARS,
        forall|i: int| 0 <= i < r@.len() ==> !is_forbidden(#[trigger] r@[i]),
{
    let v = chars_of(input);
    let n: usize = if v.len() <= MAX_NAME_CHARS {
        v.len()
    } else {
        MAX_NAME_CHARS
    };
    let mut out: Vec<char> = Vec::new();
    let mut i: usize = 0;
    while i < n
        invariant
            n <= v@.len(),
            n <= MAX_NAME_CHARS,
            i <= n,
            out@ == v@.take(i as int).map_values(|c: char| clean_char(c)),
        decreases n - i,
    {
        let c = v[i];
        let d = if c == '<' || c == '>' || c == ':' || c == '"' || c == '/' || c == '\\' || c
            == '|' || c == '?' || c == '*' {
            '_'
        } else {
            c
        };
        out.push(d);
        assert(v@.take(i + 1) == v@.take(i as int).push(c));
        i = i + 1;
    }
    assert(v@ == input@);
    string_of(&out)
}

pub open spec fn has_parent_step(s: Seq<char>) -> bool {
    exists|i: int| 0 <= i && i + 1 < s.len() && #[trigger] s[i] == '.' && s[i + 1] == '.'
}

pub open spec fn has_tilde(s: Seq<char>) -> bool {
    exists|i: int| 0 <= i < s.len() && #[trigger] s[i] == '~'
}

pub open spec fn etc_dir() -> Seq<char> {
    seq!['/', 'e', 't', 'c']
}

pub open spec fn bin_dir() -> Seq<char> {
    seq!['/', 'b', 'i', 'n']
}

pub open spec fn sbin_dir() -> Seq<char> {
    seq!['/', 's', 'b', 'i', 'n']
}

pub open spec fn usr_bin_dir() -> Seq<char> {
    seq!['/', 'u', 's', 'r', '/', 'b', 'i', 'n']
}

pub open spec fn usr_sbin_dir() -> Seq<char> {
    seq!['/', 'u', 's', 'r', '/', 's', 'b', 'i', 'n']
}

/// The path text is the directory `d` itself, or `d` followed by `/` and more.
pub open spec fn under_dir(s: Seq<char>, d: Seq<char>) -> bool {
    starts_with(s, d) && (s.len() == d.len() || s[d.len() as int] == '/')
}

/// The path lies in one of the POSIX system directories that downloads must
/// not go to.
pub open spec fn in_system_dir(s: Seq<char>) -> bool {
    under_dir(s, etc_dir()) || under_dir(s, bin_dir()) || under_dir(s, sbin_dir()) || under_dir(
        s,
        usr_bin_dir(),
    ) || under_dir(s, usr_sbin_dir())
}

/// `c` equals the lowercase ASCII letter or other character `n`, ignoring
/// ASCII case.
pub open spec fn same_ignoring_case(c: char, n: char) -> bool {
    c == n || ('a' <= n && n <= 'z' && c as int == n as int - 32)
}

/// `s` holds `n` from index `i` on, ignoring ASCII case.
pub open spec fn matches_at(s: Seq<char>, n: Seq<char>, i: int) -> bool {
    0 <= i && i + n.len() <= s.len() && forall|j: int|
        0 <= j < n.len() ==> same_ignoring_case(#[trigger] s[i + j], n[j])
}

/// `s` holds `n` somewhere, ignoring ASCII case.
pub open spec fn contains_ignoring_case(s: Seq<char>, n: Seq<char>) -> bool {
    exists|i: int| #[trigger] matches_at(s, n, i)
}

pub open spec fn windows_word() -> Seq<char> {
    seq!['w', 'i', 'n', 'd', 'o', 'w', 's']
}

pub open spec fn system32_word() -> Seq<char> {
    seq!['s', 'y', 's', 't', 'e', 'm', '3', '2']
}

/// The path names the Windows installation or its `system32` directory, in any
/// letter case.
pub open spec fn names_windows_dir(s: Seq<char>) -> bool {
    contains_ignoring_case(s, windows_word()) || contains_ignoring_case(s, system32_word())
}

/// A path separator: `/`, and on Windows also `\`.
pub open spec fn is_separator(c: char, windows: bool) -> bool {
    c == '/' || (windows && c == '\\')
}

pub open spec fn is_ascii_letter(c: char) -> bool {
    ('a' <= c && c <= 'z') || ('A' <= c && c <= 'Z')
}

/// An absolute path: on POSIX one that starts at the root; on Windows a drive
/// letter, a colon and a separator, or two leading separators (a UNC or device
/// path).
pub open spec fn is_absolute(s: Seq<char>, windows: bool) -> bool {
    if windows {
        (s.len() >= 3 && is_ascii_letter(s[0]) && s[1] == ':' && is_separator(s[2], true)) || (
        s.len() >= 2 && is_separator(s[0], true) && is_separator(s[1], true))
    } else {
        s.len() > 0 && s[0] == '/'
    }
}

/// A destination that downloads may go to on the given platform.
pub open spec fn safe_path(s: Seq<char>, windows: bool) -> bool {
    &&& is_absolute(s, windows)
    &&& !has_parent_step(s)
    &&& !has_tilde(s)
    &&& if windows {
        !names_windows_dir(s)
    } else {
        !in_system_dir(s)
    }
}

fn char_same_ignoring_case(c: char, n: char) -> (r: bool)
    ensures
        r == same_ignoring_case(c, n),
{
    c == n || ('a' <= n && n <= 'z' && (c as u32) + 32 == n as u32)
}

fn holds_ignoring_case(v: &Vec<char>, n: &Vec<char>) -> (r: bool)
    ensures
        r == contains_ignoring_case(v@, n@),
{
    if n.len() > v.len() {
        assert forall|k: int| !#[trigger] matches_at(v@, n@, k) by {}
        return false;
    }
    if n.len() == 0 {
        assert(matches_at(v@, n@, 0));
        return true;
    }
    let vl = v.len();
    assert(vl == v@.len());
    let last = v.len() - n.len();
    let mut i: usize = 0;
    while i <= last
        invariant
            last == v@.len() - n@.len(),
            last < v@.len(),
            v@.len() <= usize::MAX,
            i <= last + 1,
            forall|k: int| 0 <= k < i ==> !#[trigger] matches_at(v@, n@, k),
        decreases last + 1 - i,
    {
        let mut j: usize = 0;
        let mut all = true;
        while j < n.len()
            invariant
                i <= last,
                last == v@.len() - n@.len(),
                n@.len() <= v@.len(),
                v@.len() <= usize::MAX,
                j <= n@.len(),
                all == (forall|t: int| 0 <= t < j ==> same_ignoring_case(#[trigger] v@[i + t], n@[t])),
            decreases n@.len() - j,
        {
            if !char_same_ignoring_case(v[i + j], n[j]) {
                all = false;
            }
            j = j + 1;
        }
        if all {
            assert(matches_at(v@, n@, i as int));
            return true;
        }
        i = i + 1;
    }
    assert forall|k: int| !#[trigger] matches_at(v@, n@, k) by {
        if 0 <= k && k + n@.len() <= v@.len() {
            assert(k < i);
        }
    }
    false
}

fn is_under(v: &Vec<char>, d: &Vec<char>) -> (r: bool)
    ensures
        r == under_dir(v@, d@),
{
    has_prefix(v, d) && (v.len() == d.len() || v[d.len()] == '/')
}

/// Tells whether `path` may receive a download. It must be absolute, hold no
/// `..` and no `~`, and, on POSIX, lie outside `/etc`, `/bin`, `/sbin`,
/// `/usr/bin` and `/usr/sbin`; on Windows it must not mention `windows` or
/// `system32` in any letter case.
pub fn is_safe_path(path: &str, windows: bool) -> (r: bool)
    ensures
        r == safe_path(path@, windows),
{
    let v = chars_of(path);
    let n = v.len();
    let absolute = if windows {
        (n >= 3 && (('a' <= v[0] && v[0] <= 'z') || ('A' <= v[0] && v[0] <= 'Z')) && v[1] == ':'
            && (v[2] == '/' || v[2] == '\\')) || (n >= 2 && (v[0] == '/' || v[0] == '\\') && (v[1]
            == '/' || v[1] == '\\'))
    } else {
        n > 0 && v[0] == '/'
    };
    if !absolute {
        return false;
    }
    let mut i: usize = 0;
    while i < v.len()
        invariant
            i <= v@.len(),
            v@ == path@,
            forall|j: int| 0 <= j < i ==> v@[j] != '~',
            forall|j: int|
                0 <= j < i && j + 1 < v@.len() ==> !(#[trigger] v@[j] == '.' && v@[j + 1] == '.'),
        decreases v@.len() - i,
    {
        if v[i] == '~' {
            assert(v@[i as int] == '~');
            assert(has_tilde(path@));
            return false;
        }
        if i + 1 < v.len() && v[i] == '.' && v[i + 1] == '.' {
            assert(v@[i as int] == '.');
            assert(has_parent_step(path@));
            return false;
        }
        i = i + 1;
    }
    assert(!has_tilde(v@));
    assert(!has_parent_step(v@)) by {
        if has_parent_step(v@) {
            let j = choose|j: int|
                0 <= j && j + 1 < v@.len() && #[trigger] v@[j] == '.' && v@[j + 1] == '.';
            assert(v@[j] == '.');
        }
    }
    if windows {
        let w = vec!['w', 'i', 'n', 'd', 'o', 'w', 's'];
        let s32 = vec!['s', 'y', 's', 't', 'e', 'm', '3', '2'];
        assert(w@ == windows_word());
        assert(s32@ == system32_word());
        return !(holds_ignoring_case(&v, &w) || holds_ignoring_case(&v, &s32));
    }
    let etc = vec!['/', 'e', 't', 'c'];
    let bin = vec!['/', 'b', 'i', 'n'];
    let sbin = vec!['/', 's', 'b', 'i', 'n'];
    let usr_bin = vec!['/', 'u', 's', 'r', '/', 'b', 'i', 'n'];
    let usr_sbin = vec!['/', 'u', 's', 'r', '/', 's', 'b', 'i', 'n'];
    assert(etc@ == etc_dir());
    assert(bin@ == bin_dir());
    assert(sbin@ == sbin_dir());
    assert(usr_bin@ == usr_bin_dir());
    assert(usr_sbin@ == usr_sbin_dir());
    !(is_under(&v, &etc) || is_under(&v, &bin) || is_under(&v, &sbin) || is_under(&v, &usr_bin)
        || is_under(&v, &usr_sbin))
}

/// A bare drive such as `C:`, to which Windows appends a relative name with no
/// separator.
pub open spec fn bare_drive(s: Seq<char>) -> bool {
    s.len() == 2 && is_ascii_letter(s[0]) && s[1] == ':'
}

/// The platform's main separator.
pub open spec fn main_separator(windows: bool) -> char {
    if windows {
        '\\'
    } else {
        '/'
    }
}

/// `name` appended to the directory `dir` as a path: an absolute name stands
/// alone; the platform's separator goes between the two unless `dir` is empty,
/// already ends with a separator, or is a bare Windows drive.
pub open spec fn joined(dir: Seq<char>, name: Seq<char>, windows: bool) -> Seq<char> {
    if is_absolute(name, windows) {
        name
    } else if dir.len() == 0 || is_separator(dir.last(), windows) || (windows && bare_drive(dir)) {
        dir + name
    } else {
        dir + seq![main_separator(windows)] + name
    }
}

/// The path of `name` inside the directory `dir`, on the given platform.
pub fn join_path(dir: &str, name: &str, windows: bool) -> (r: String)
    ensures
        r@ == joined(dir@, name@, windows),
{
    let d = chars_of(dir);
    let n = chars_of(name);
    let nl = n.len();
    let name_absolute = if windows {
        (nl >= 3 && (('a' <= n[0] && n[0] <= 'z') || ('A' <= n[0] && n[0] <= 'Z')) && n[1] == ':'
            && (n[2] == '/' || n[2] == '\\')) || (nl >= 2 && (n[0] == '/' || n[0] == '\\') && (n[1]
            == '/' || n[1] == '\\'))
    } else {
        nl > 0 && n[0] == '/'
    };
    if name_absolute {
        return string_of(&n);
    }
    let mut out: Vec<char> = Vec::new();
    push_all(&mut out, &d);
    let dl = d.len();
    let no_sep = dl == 0 || d[dl - 1] == '/' || (windows && d[dl - 1] == '\\') || (windows && dl
        == 2 && (('a' <= d[0] && d[0] <= 'z') || ('A' <= d[0] && d[0] <= 'Z')) && d[1] == ':');
    if !no_sep {
        if windows {
            out.push('\\');
        } else {
            out.push('/');
        }
    }
    push_all(&mut out, &n);
    assert(out@ =~= joined(dir@, name@, windows));
    string_of(&out)
}

/// The extension of a download: `mp3` for audio, else the preferred container
/// or `mp4`.
pub open spec fn media_extension(audio_only: bool, preferred_format: Option<String>) -> Seq<char> {
    if audio_only {
        "mp3"@
    } else {
        match preferred_format {
            Some(f) => f@,
            None => "mp4"@,
        }
    }
}

pub fn extension_for(audio_only: bool, preferred_format: &Option<String>) -> (r: String)
    ensures
        r@ == media_extension(audio_only, *preferred_format),
{
    if audio_only {
        String::from_str("mp3")
    } else {
        match preferred_format {
            Some(f) => f.clone(),
            None => String::from_str("mp4"),
        }
    }
}

/// `base`, a dot, then `ext`.
pub fn file_name_with_extension(base: &str, ext: &str) -> (r: String)
    ensures
        r@ == base@ + seq!['.'] + ext@,
{
    let mut out = chars_of(base);
    out.push('.');
    let e = chars_of(ext);
    push_all(&mut out, &e);
    string_of(&out)
}

/// Index of the last separator in `p`, or -1.
pub open spec fn last_separator(p: Seq<char>, windows: bool) -> int {
    if windows && last_index(p, '\\') > last_index(p, '/') {
        last_index(p, '\\')
    } else {
        last_index(p, '/')
    }
}

/// The path `p` renamed so as not to collide with an existing file: `_` and
/// `token` go between the stem of its last component and that component's
/// extension. None where the last component has no extension (no dot, or only
/// a leading one).
pub open spec fn renamed_path(p: Seq<char>, token: Seq<char>, windows: bool) -> Option<Seq<char>> {
    let s = last_separator(p, windows) + 1;
    let name = p.skip(s);
    let d = last_index(name, '.');
    if d <= 0 {
        None
    } else {
        Some(p.take(s) + name.take(d) + seq!['_'] + token + name.skip(d))
    }
}

proof fn lemma_last_separator_bounds(p: Seq<char>, windows: bool)
    ensures
        -1 <= last_separator(p, windows) < p.len(),
        last_separator(p, windows) >= 0 ==> is_separator(p[last_separator(p, windows)], windows),
{
    lemma_last_index_bounds(p, '/');
    lemma_last_index_bounds(p, '\\');
}

/// Inserts `_` and `token` before the extension of the file that `path`
/// names, keeping its directory, its stem and its extension.
pub fn renamed_for_collision(path: &str, token: &str, windows: bool) -> (r: Option<String>)
    ensures
        match r {
            Some(q) => renamed_path(path@, token@, windows) == Some(q@),
            None => renamed_path(path@, token@, windows) is None,
        },
{
    let v = chars_of(path);
    let vl = v.len();
    assert(vl == v@.len());
    let slash: usize = match find_last(&v, '/') {
        Some(k) => k + 1,
        None => 0,
    };
    let back: usize = match find_last(&v, '\\') {
        Some(k) => k + 1,
        None => 0,
    };
    let s: usize = if windows && back > slash {
        back
    } else {
        slash
    };
    let mut name: Vec<char> = Vec::new();
    push_range(&mut name, &v, s, v.len());
    assert(name@ =~= v@.skip(s as int));
    let d: usize = match find_last(&name, '.') {
        Some(k) => k,
        None => 0,
    };
    if d == 0 {
        return None;
    }
    let mut out: Vec<char> = Vec::new();
    push_range(&mut out, &v, 0, s);
    push_range(&mut out, &name, 0, d);
    out.push('_');
    let t = chars_of(token);
    push_all(&mut out, &t);
    push_range(&mut out, &name, d, name.len());
    assert(v@.subrange(0, s as int) =~= v@.take(s as int));
    assert(name@.subrange(0, d as int) =~= name@.take(d as int));
    assert(name@.subrange(d as int, name@.len() as int) =~= name@.skip(d as int));
    Some(string_of(&out))
}

/// A renamed path differs from the path it replaces, keeps its extension, and
/// keeps the directory and stem as a prefix.
pub proof fn lemma_collision_rename_keeps_parts(p: Seq<char>, token: Seq<char>, windows: bool)
    requires
        renamed_path(p, token, windows) is Some,
    ensures
        ({
            let q = renamed_path(p, token, windows)->0;
            let s = last_separator(p, windows) + 1;
            let d = last_index(p.skip(s), '.');
            &&& q != p
            &&& q.len() == p.len() + token.len() + 1
            &&& 0 < d
            &&& s + d < p.len()
            &&& p[s + d] == '.'
            &&& q.take(s + d) == p.take(s + d)
            &&& q.skip(q.len() - (p.len() - (s + d))) == p.skip(s + d)
        }),
{
    let s = last_separator(p, windows) + 1;
    let name = p.skip(s);
    let d = last_index(name, '.');
    lemma_last_separator_bounds(p, windows);
    lemma_last_index_bounds(name, '.');
    let q = renamed_path(p, token, windows)->0;
    assert(q.len() == p.len() + token.len() + 1);
    assert(q.take(s + d) =~= p.take(s + d));
    assert(q.skip(q.len() - (p.len() - (s + d))) =~= p.skip(s + d));
}

/// Whether `c` is a lowercase hexadecimal digit.
pub open spec fn is_lower_hex(c: char) -> bool {
    ('0' <= c && c <= '9') || ('a' <= c && c <= 'f')
}

/// Relies on uuid::Uuid::new_v4 and the crate's `Display` for `Uuid`: a random
/// version-4 UUID written in hyphenated lowercase form, 36 characters with `-`
/// at indices 8, 13, 18 and 23 and lowercase hex digits elsewhere.
#[verifier::external_body]
fn random_uuid_text() -> (r: String)
    ensures
        r@.len() == 36,
        r@[8] == '-' && r@[13] == '-' && r@[18] == '-' && r@[23] == '-',
        forall|i: int|
            0 <= i < 36 && i != 8 && i != 13 && i != 18 && i != 23 ==> is_lower_hex(
                #[trigger] r@[i],
            ),
{
    uuid::Uuid::new_v4().to_string()
}

/// The text of `s` before its first `-` (all of `s` where it has none).
pub fn first_segment(s: &str) -> (r: String)
    ensures
        r@ == s@.take(first_index(s@, '-')),
{
    let v = chars_of(s);
    let k = find_first(&v, '-');
    let mut out: Vec<char> = Vec::new();
    push_range(&mut out, &v, 0, k);
    assert(out@ =~= v@.take(k as int));
    string_of(&out)
}

/// A short random token for renaming: the first group of a fresh random UUID,
/// eight lowercase hex digits.
pub fn unique_token() -> (r: String)
    ensures
        r@.len() == 8,
        forall|i: int| 0 <= i < 8 ==> is_lower_hex(#[trigger] r@[i]),
{
    let u = random_uuid_text();
    proof {
        assert forall|j: int| 0 <= j < 8 implies u@[j] != '-' by {
            assert(is_lower_hex(u@[j]));
        }
        lemma_first_index_at(u@, '-', 8);
    }
    let r = first_segment(&u);
    proof {
        assert forall|i: int| 0 <= i < 8 implies is_lower_hex(#[trigger] r@[i]) by {
            assert(r@[i] == u@[i]);
        }
    }
    r
}

} // verus!
