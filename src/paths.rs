//! Path text as the venv manager reads it: joining segments and naming the final one.
use vstd::prelude::*;
use vstd::string::StrSliceExecFns;
use vstd::string::StringExecFns;

verus! {

/// The family of platform that decides separators and the venv layout.
#[derive(Clone, Copy, Debug, PartialEq, Eq, Structural)]
pub enum Platform {
    Windows,
    Unix,
}

pub open spec fn is_sep(c: char, platform: Platform) -> bool {
    c == '/' || (platform == Platform::Windows && c == '\\')
}

pub open spec fn main_sep(platform: Platform) -> char {
    if platform == Platform::Windows {
        '\\'
    } else {
        '/'
    }
}

/// `base` followed by the relative segment `seg`, with one separator between them
/// unless `base` is empty or already ends in one.
pub open spec fn joined(base: Seq<char>, seg: Seq<char>, platform: Platform) -> Seq<char> {
    if base.len() == 0 || is_sep(base.last(), platform) {
        base + seg
    } else {
        base.push(main_sep(platform)) + seg
    }
}

/// A letter that can name a drive on Windows.
pub open spec fn is_drive_letter(c: char) -> bool {
    ('a' <= c && c <= 'z') || ('A' <= c && c <= 'Z')
}

/// Whether `s` ends in a `.` segment: a `.` right after a separator.
pub open spec fn trails_cur_dir(s: Seq<char>, platform: Platform) -> bool {
    s.len() >= 2 && s.last() == '.' && is_sep(s[s.len() - 2], platform)
}

/// Whether `s` is a drive prefix such as `C:`, which ends where a name may begin.
pub open spec fn is_drive_prefix(s: Seq<char>, platform: Platform) -> bool {
    platform == Platform::Windows && s.len() == 2 && is_drive_letter(s[0]) && s[1] == ':'
}

/// Whether the last character of `s` is dropped before its name is read: a trailing
/// separator, or the `.` of a trailing `.` segment.
pub open spec fn drops_last_char(s: Seq<char>, platform: Platform) -> bool {
    s.len() > 0 && (is_sep(s.last(), platform) || trails_cur_dir(s, platform))
}

/// Length of `s` once trailing separators and trailing `.` segments are dropped.
pub open spec fn name_end(s: Seq<char>, platform: Platform) -> nat
    decreases s.len(),
{
    if drops_last_char(s, platform) {
        name_end(s.drop_last(), platform)
    } else {
        s.len()
    }
}

/// Whether a name may begin right after `s`: at the start, after a separator, or
/// after a drive prefix.
pub open spec fn begins_name(s: Seq<char>, platform: Platform) -> bool {
    s.len() == 0 || is_sep(s.last(), platform) || is_drive_prefix(s, platform)
}

/// Index at which the last name of `s` begins.
pub open spec fn name_start(s: Seq<char>, platform: Platform) -> nat
    decreases s.len(),
{
    if begins_name(s, platform) {
        s.len()
    } else {
        name_start(s.drop_last(), platform)
    }
}

/// The final segment of a path: its last name, once trailing separators and `.`
/// segments are dropped. A path that is only a root, a drive, `.` or that ends in `..`
/// has an empty or dotted final segment, never a plain name.
pub open spec fn final_segment(s: Seq<char>, platform: Platform) -> Seq<char> {
    let t = s.subrange(0, name_end(s, platform) as int);
    t.subrange(name_start(t, platform) as int, t.len() as int)
}

/// Whether `c` separates path segments on `platform`.
pub fn is_separator(c: char, platform: Platform) -> (r: bool)
    ensures
        r == is_sep(c, platform),
{
    c == '/' || (platform == Platform::Windows && c == '\\')
}

/// Appends the relative segment `seg` to `base`, as a path buffer's `push` does.
pub fn join_path(base: &str, seg: &str, platform: Platform) -> (r: String)
    ensures
        r@ == joined(base@, seg@, platform),
{
    let n = base.unicode_len();
    let mut r = String::from_str(base);
    let ends_in_sep = n > 0 && is_separator(base.get_char(n - 1), platform);
    proof {
        if n > 0 {
            assert(base@.last() == base@[n - 1]);
        }
    }
    if n == 0 || ends_in_sep {
    } else {
        if platform == Platform::Windows {
            proof {
                reveal_strlit("\\");
            }
            r.append("\\");
        } else {
            proof {
                reveal_strlit("/");
            }
            r.append("/");
        }
        proof {
            assert(r@ =~= base@.push(main_sep(platform)));
        }
    }
    r.append(seg);
    r
}

/// Whether the first `e` characters of `path` end in a character dropped before the
/// name is read.
fn drops_last_at(path: &str, e: usize, platform: Platform) -> (r: bool)
    requires
        e <= path@.len(),
    ensures
        r == drops_last_char(path@.subrange(0, e as int), platform),
{
    if e == 0 {
        return false;
    }
    let last = path.get_char(e - 1);
    if is_separator(last, platform) {
        return true;
    }
    e >= 2 && last == '.' && is_separator(path.get_char(e - 2), platform)
}

/// Whether a name may begin after the first `k` characters of `path`.
fn begins_name_at(path: &str, k: usize, platform: Platform) -> (r: bool)
    requires
        k <= path@.len(),
    ensures
        r == begins_name(path@.subrange(0, k as int), platform),
{
    if k == 0 || is_separator(path.get_char(k - 1), platform) {
        return true;
    }
    if platform == Platform::Windows && k == 2 {
        let c = path.get_char(0);
        (('a' <= c && c <= 'z') || ('A' <= c && c <= 'Z')) && path.get_char(1) == ':'
    } else {
        false
    }
}

/// The final segment of `path`.
pub fn final_segment_of(path: &str, platform: Platform) -> (r: String)
    ensures
        r@ == final_segment(path@, platform),
{
    let n = path.unicode_len();
    let mut e: usize = n;
    proof {
        assert(path@.subrange(0, n as int) =~= path@);
    }
    while drops_last_at(path, e, platform)
        invariant
            e <= n,
            n == path@.len(),
            name_end(path@, platform) == name_end(path@.subrange(0, e as int), platform),
        decreases e,
    {
        proof {
            assert(path@.subrange(0, e as int).drop_last() =~= path@.subrange(0, e - 1));
        }
        e = e - 1;
    }
    let ghost t = path@.subrange(0, e as int);
    proof {
        assert(name_end(path@, platform) == e);
    }
    let mut k: usize = e;
    while !begins_name_at(path, k, platform)
        invariant
            k <= e <= n,
            n == path@.len(),
            t == path@.subrange(0, e as int),
            name_start(t, platform) == name_start(path@.subrange(0, k as int), platform),
        decreases k,
    {
        proof {
            assert(path@.subrange(0, k as int).drop_last() =~= path@.subrange(0, k - 1));
        }
        k = k - 1;
    }
    proof {
        assert(name_start(t, platform) == k);
        assert(path@.subrange(k as int, e as int) =~= t.subrange(k as int, t.len() as int));
    }
    String::from_str(path.substring_char(k, e))
}

} // verus!
