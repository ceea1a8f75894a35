//! Which directory entries count as image files.
//!
//! The caller lists the working directory and hands in each entry's file
//! name together with whether it is a regular file; the library decides
//! which entries are image files. An entry counts when it is a regular file
//! and its name has an extension — the part after the last dot, provided
//! that dot is not the name's first character — that matches one of the
//! recognized image formats, ignoring ASCII case.

use vstd::prelude::*;
use vstd::string::*;

verus! {

/// `u` with an ASCII upper-case letter mapped to its lower-case form.
pub open spec fn lower_u32(u: u32) -> u32 {
    if 65 <= u && u <= 90 {
        (u + 32) as u32
    } else {
        u
    }
}

/// Character sequences equal up to ASCII case.
pub open spec fn chars_ieq(a: Seq<char>, b: Seq<char>) -> bool {
    a.len() == b.len() && forall|k: int|
        0 <= k < a.len() ==> lower_u32(a[k] as u32) == lower_u32(b[k] as u32)
}

/// Compares two strings for equality, ignoring ASCII case.
pub fn eq_ignore_ascii(a: &str, b: &str) -> (r: bool)
    ensures
        r == chars_ieq(a@, b@),
{
    let na: usize = a.unicode_len();
    let nb: usize = b.unicode_len();
    if na != nb {
        return false;
    }
    let mut i: usize = 0;
    while i < na
        invariant
            0 <= i <= na,
            na == a@.len(),
            na == b@.len(),
            forall|k: int| 0 <= k < i ==> lower_u32(a@[k] as u32) == lower_u32(b@[k] as u32),
        decreases na - i,
    {
        let ca: u32 = a.get_char(i) as u32;
        let cb: u32 = b.get_char(i) as u32;
        let la: u32 = if 65 <= ca && ca <= 90 {
            ca + 32
        } else {
            ca
        };
        let lb: u32 = if 65 <= cb && cb <= 90 {
            cb + 32
        } else {
            cb
        };
        if la != lb {
            return false;
        }
        i = i + 1;
    }
    true
}

/// The recognized image extensions, ignoring ASCII case.
pub open spec fn is_image_ext_spec(e: Seq<char>) -> bool {
    chars_ieq(e, "png"@) || chars_ieq(e, "jpg"@) || chars_ieq(e, "jpeg"@) || chars_ieq(
        e,
        "gif"@,
    ) || chars_ieq(e, "webp"@) || chars_ieq(e, "bmp"@)
}

/// Decides whether `ext` is a recognized image extension, ignoring ASCII
/// case.
pub fn is_image_ext(ext: &str) -> (r: bool)
    ensures
        r == is_image_ext_spec(ext@),
{
    eq_ignore_ascii(ext, "png") || eq_ignore_ascii(ext, "jpg") || eq_ignore_ascii(ext, "jpeg")
        || eq_ignore_ascii(ext, "gif") || eq_ignore_ascii(ext, "webp") || eq_ignore_ascii(
        ext,
        "bmp",
    )
}

/// The index of the last `.` in `s`, or `-1` when `s` has none.
pub open spec fn last_dot_index(s: Seq<char>) -> int
    decreases s.len(),
{
    if s.len() == 0 {
        -1
    } else if s[s.len() - 1] == '.' {
        s.len() - 1
    } else {
        last_dot_index(s.drop_last())
    }
}

/// The extension of a file name: what follows the last dot, provided that
/// dot exists and is not the first character.
pub open spec fn extension_of(name: Seq<char>) -> Option<Seq<char>> {
    let d = last_dot_index(name);
    if d > 0 {
        Option::Some(name.subrange(d + 1, name.len() as int))
    } else {
        Option::None
    }
}

/// A file name that names an image: it has an extension and that extension
/// is recognized.
pub open spec fn name_is_image(name: Seq<char>) -> bool {
    match extension_of(name) {
        Option::Some(e) => is_image_ext_spec(e),
        Option::None => false,
    }
}

proof fn lemma_last_dot_found(s: Seq<char>, d: int)
    requires
        0 <= d < s.len(),
        s[d] == '.',
        forall|k: int| d < k < s.len() ==> s[k] != '.',
    ensures
        last_dot_index(s) == d,
    decreases s.len(),
{
    if d < s.len() - 1 {
        let t = s.drop_last();
        assert(forall|k: int| d < k < t.len() ==> t[k] != '.');
        lemma_last_dot_found(t, d);
    }
}

proof fn lemma_last_dot_none(s: Seq<char>)
    requires
        forall|k: int| 0 <= k < s.len() ==> s[k] != '.',
    ensures
        last_dot_index(s) == -1,
    decreases s.len(),
{
    if s.len() > 0 {
        let t = s.drop_last();
        assert(forall|k: int| 0 <= k < t.len() ==> t[k] != '.');
        lemma_last_dot_none(t);
    }
}

/// Decides whether a file name names an image.
pub fn name_matches(name: &str) -> (r: bool)
    ensures
        r == name_is_image(name@),
{
    let n: usize = name.unicode_len();
    let mut j: usize = n;
    while j > 0 && name.get_char(j - 1) != '.'
        invariant
            0 <= j <= n,
            n == name@.len(),
            forall|k: int| j <= k < n ==> name@[k] != '.',
        decreases j,
    {
        j = j - 1;
    }
    if j == 0 {
        proof {
            lemma_last_dot_none(name@);
        }
        return false;
    }
    proof {
        lemma_last_dot_found(name@, j - 1);
    }
    if j == 1 {
        return false;
    }
    let ext = name.substring_char(j, n);
    is_image_ext(ext)
}

/// The image-file names among a sequence of directory entries, each given
/// as its name and whether it is a regular file, in the order listed.
pub open spec fn image_names(es: Seq<(String, bool)>) -> Seq<Seq<char>>
    decreases es.len(),
{
    if es.len() == 0 {
        Seq::empty()
    } else {
        let prefix = image_names(es.drop_last());
        let e = es.last();
        if e.1 && name_is_image(e.0@) {
            prefix.push(e.0@)
        } else {
            prefix
        }
    }
}

/// Filters a directory listing down to the image files: exactly those
/// entries that are regular files with a recognized image extension, their
/// names kept in the order listed.
pub fn scan_image_names(entries: &Vec<(String, bool)>) -> (r: Vec<String>)
    ensures
        r@.map_values(|s: String| s@) == image_names(entries@),
{
    let mut r: Vec<String> = Vec::new();
    let mut idx: usize = 0;
    while idx < entries.len()
        invariant
            0 <= idx <= entries@.len(),
            r@.map_values(|s: String| s@) == image_names(entries@.take(idx as int)),
        decreases entries@.len() - idx,
    {
        let is_file = entries[idx].1;
        if is_file && name_matches(entries[idx].0.as_str()) {
            r.push(entries[idx].0.clone());
        }
        proof {
            assert(entries@.take(idx + 1).drop_last() =~= entries@.take(idx as int));
            assert(entries@.take(idx + 1).last() == entries@[idx as int]);
            assert(r@.map_values(|s: String| s@) =~= image_names(entries@.take(idx + 1)));
        }
        idx = idx + 1;
    }
    proof {
        assert(entries@.take(entries@.len() as int) =~= entries@);
    }
    r
}

} // verus!
