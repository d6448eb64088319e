//! Character-level helpers on strings and paths.
use vstd::prelude::*;

verus! {

/// Index of the last occurrence of `c` in `s`, or -1 when it does not occur.
pub open spec fn last_index_of(s: Seq<char>, c: char) -> int
    decreases s.len(),
{
    if s.len() == 0 {
        -1
    } else if s.last() == c {
        s.len() - 1
    } else {
        last_index_of(s.drop_last(), c)
    }
}

pub proof fn lemma_last_index_of(s: Seq<char>, c: char)
    ensures
        -1 <= last_index_of(s, c) < s.len(),
        last_index_of(s, c) >= 0 ==> s[last_index_of(s, c)] == c,
        forall|j: int| last_index_of(s, c) < j < s.len() ==> s[j] != c,
    decreases s.len(),
{
    if s.len() > 0 && s.last() != c {
        let t = s.drop_last();
        lemma_last_index_of(t, c);
        assert forall|j: int| last_index_of(s, c) < j < s.len() implies s[j] != c by {
            if j < t.len() {
                assert(s[j] == t[j]);
            }
        }
    }
}

/// Whether `s` begins with `prefix`.
pub open spec fn has_prefix(s: Seq<char>, prefix: Seq<char>) -> bool {
    prefix.len() <= s.len() && s.subrange(0, prefix.len() as int) == prefix
}

/// Finds the last position of `c` in `s`.
pub fn rfind_char(s: &str, c: char) -> (r: Option<usize>)
    ensures
        match r {
            Some(i) => i as int == last_index_of(s@, c),
            None => last_index_of(s@, c) == -1,
        },
{
    let n = s.unicode_len();
    let mut i: usize = n;
    proof {
        lemma_last_index_of(s@, c);
    }
    while i > 0
        invariant
            i <= n == s@.len(),
            -1 <= last_index_of(s@, c) < s@.len(),
            last_index_of(s@, c) >= 0 ==> s@[last_index_of(s@, c)] == c,
            forall|j: int| last_index_of(s@, c) < j < s@.len() ==> s@[j] != c,
            forall|j: int| i <= j < n ==> s@[j] != c,
        decreases i,
    {
        let ch = s.get_char(i - 1);
        if ch == c {
            return Some(i - 1);
        }
        i = i - 1;
    }
    None
}

/// Whether `s` begins with `prefix`, character by character.
pub fn starts_with_text(s: &str, prefix: &str) -> (r: bool)
    ensures
        r == has_prefix(s@, prefix@),
{
    let n = s.unicode_len();
    let m = prefix.unicode_len();
    if m > n {
        return false;
    }
    let mut i: usize = 0;
    while i < m
        invariant
            m <= n,
            n == s@.len(),
            m == prefix@.len(),
            i <= m,
            forall|j: int| 0 <= j < i ==> s@[j] == prefix@[j],
        decreases m - i,
    {
        if s.get_char(i) != prefix.get_char(i) {
            assert(s@.subrange(0, m as int)[i as int] != prefix@[i as int]);
            return false;
        }
        i = i + 1;
    }
    assert(s@.subrange(0, m as int) =~= prefix@);
    true
}

/// Whether two strings hold the same characters.
pub fn same_text(a: &str, b: &str) -> (r: bool)
    ensures
        r == (a@ == b@),
{
    if a.unicode_len() != b.unicode_len() {
        return false;
    }
    let r = starts_with_text(a, b);
    assert(a@ =~= a@.subrange(0, b@.len() as int));
    r
}

/// Separator put between two joined path parts. These path rules are the
/// library's own and the same on every platform, so that a path is a plain
/// function of its text: joins always use `/`, which Windows accepts as a
/// separator too (where `std::path` would put `\`).
pub open spec fn separator() -> char {
    '/'
}

/// `rel` appended to `base`, with a separator between them unless `base` is
/// empty or already ends in one.
pub open spec fn path_join(base: Seq<char>, rel: Seq<char>) -> Seq<char> {
    if base.len() == 0 || base.last() == separator() {
        base + rel
    } else {
        base.push(separator()) + rel
    }
}

/// Joins a relative path onto a base path.
pub fn join_path(base: &str, rel: &str) -> (r: String)
    ensures
        r@ == path_join(base@, rel@),
{
    let n = base.unicode_len();
    let mut out = String::from_str(base);
    if n > 0 && base.get_char(n - 1) != '/' {
        out.append("/");
        proof {
            reveal_strlit("/");
        }
        assert(out@ =~= base@.push(separator()));
    }
    out.append(rel);
    out
}

/// The last component of a path: what follows its last `/` or `\`. Both
/// count as separators on every platform (unlike `std::path` on Unix, where a
/// `\` belongs to the name), so a Windows path is read the same everywhere.
pub open spec fn file_name_of(p: Seq<char>) -> Seq<char> {
    let cut = if last_index_of(p, '/') >= last_index_of(p, '\\') {
        last_index_of(p, '/')
    } else {
        last_index_of(p, '\\')
    };
    p.subrange(cut + 1, p.len() as int)
}

/// The extension of a path: the text after the last `.` of its file name,
/// where that `.` is not the name's first character. The names `.` and `..`
/// have none. A path ending in `/` or `/.` has an empty last component and
/// so no extension (`std::path` would look at the component before it): a
/// song source names a file, never a directory.
pub open spec fn extension_of(p: Seq<char>) -> Option<Seq<char>> {
    let name = file_name_of(p);
    let dot = last_index_of(name, '.');
    if dot <= 0 || name == seq!['.', '.'] {
        None
    } else {
        Some(name.subrange(dot + 1, name.len() as int))
    }
}

/// Extracts a path's extension.
pub fn path_extension(p: &str) -> (r: Option<String>)
    ensures
        match r {
            Some(e) => extension_of(p@) == Some(e@),
            None => extension_of(p@) is None,
        },
{
    proof {
        lemma_last_index_of(p@, '/');
        lemma_last_index_of(p@, '\\');
    }
    let n = p.unicode_len();
    let slash = rfind_char(p, '/');
    let back = rfind_char(p, '\\');
    let start: usize = match (slash, back) {
        (Some(a), Some(b)) => if a >= b { a + 1 } else { b + 1 },
        (Some(a), None) => a + 1,
        (None, Some(b)) => b + 1,
        (None, None) => 0,
    };
    let name = p.substring_char(start, n);
    assert(name@ == file_name_of(p@));
    let m = name.unicode_len();
    proof {
        lemma_last_index_of(name@, '.');
    }
    match rfind_char(name, '.') {
        None => None,
        Some(dot) => {
            if dot == 0 {
                return None;
            }
            if m == 2 && name.get_char(0) == '.' {
                assert(name@ =~= seq!['.', '.']);
                return None;
            }
            assert(name@ != seq!['.', '.']) by {
                if name@ == seq!['.', '.'] {
                    assert(name@[0] == '.');
                }
            }
            let ext = name.substring_char(dot + 1, m);
            Some(String::from_str(ext))
        },
    }
}

} // verus!
