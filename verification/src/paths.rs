//! PathResolver: pure path arithmetic on `/`-separated path strings.
//! Computes, for one input file, where its compressed output goes: the
//! file name gains an optional suffix (and, on format conversion, a new
//! extension), and the input's directory structure below the base
//! directory can be mirrored under the output root.
//!
//! Paths are taken as the caller hands them, already in canonical absolute
//! form; nothing here touches the filesystem.

use vstd::prelude::*;
use crate::options::OutputFormat;

verus! {

/// The file-name extension each target format writes; keeping the original
/// format keeps the original extension.
pub open spec fn spec_format_extension(f: OutputFormat) -> Seq<char> {
    match f {
        OutputFormat::Jpeg => seq!['j', 'p', 'g'],
        OutputFormat::Png => seq!['p', 'n', 'g'],
        OutputFormat::Webp => seq!['w', 'e', 'b', 'p'],
        OutputFormat::Tiff => seq!['t', 'i', 'f', 'f'],
        OutputFormat::Original => Seq::empty(),
    }
}

/// The extension the target format dictates.
pub fn format_extension(f: OutputFormat) -> (r: &'static str)
    ensures
        r@ == spec_format_extension(f),
{
    match f {
        OutputFormat::Jpeg => {
            let s = "jpg";
            proof {
                reveal_strlit("jpg");
                assert(s@ =~= seq!['j', 'p', 'g']);
            }
            s
        },
        OutputFormat::Png => {
            let s = "png";
            proof {
                reveal_strlit("png");
                assert(s@ =~= seq!['p', 'n', 'g']);
            }
            s
        },
        OutputFormat::Webp => {
            let s = "webp";
            proof {
                reveal_strlit("webp");
                assert(s@ =~= seq!['w', 'e', 'b', 'p']);
            }
            s
        },
        OutputFormat::Tiff => {
            let s = "tiff";
            proof {
                reveal_strlit("tiff");
                assert(s@ =~= seq!['t', 'i', 'f', 'f']);
            }
            s
        },
        OutputFormat::Original => {
            let s = "";
            proof {
                reveal_strlit("");
                assert(s@ =~= Seq::<char>::empty());
            }
            s
        },
    }
}

/// Index of the last occurrence of `c` in `s`, or -1 when absent.
pub open spec fn last_index_of(s: Seq<char>, c: char) -> int
    decreases s.len(),
{
    if s.len() == 0 {
        -1
    } else if s[s.len() - 1] == c {
        s.len() - 1
    } else {
        last_index_of(s.drop_last(), c)
    }
}

pub proof fn lemma_last_index_of_bounds(s: Seq<char>, c: char)
    ensures
        -1 <= last_index_of(s, c) < s.len(),
    decreases s.len(),
{
    if s.len() > 0 && s[s.len() - 1] != c {
        lemma_last_index_of_bounds(s.drop_last(), c);
    }
}

/// Shortening a prefix by one steps `last_index_of` exactly as the
/// recursive definition does on the full string.
proof fn lemma_last_index_of_take_step(s: Seq<char>, c: char, i: int)
    requires
        0 < i <= s.len(),
    ensures
        last_index_of(s.take(i), c) == (if s[i - 1] == c {
            i - 1
        } else {
            last_index_of(s.take(i - 1), c)
        }),
{
    let t = s.take(i);
    assert(t.len() == i);
    assert(t[i - 1] == s[i - 1]);
    assert(t.drop_last() =~= s.take(i - 1));
}

/// The view of an optional owned string.
pub open spec fn opt_str_view(o: Option<String>) -> Option<Seq<char>> {
    match o {
        Option::Some(s) => Option::Some(s@),
        Option::None => Option::None,
    }
}

/// Parent directory of a path: everything before the last separator, the
/// root `/` when the last separator is the leading one, and nothing for a
/// separator-free path.
pub open spec fn spec_parent(s: Seq<char>) -> Option<Seq<char>> {
    let i = last_index_of(s, '/');
    if i < 0 {
        Option::None
    } else if i == 0 {
        Option::Some(seq!['/'])
    } else {
        Option::Some(s.subrange(0, i))
    }
}

/// File-name component of a path: everything after the last separator.
pub open spec fn spec_file_name(s: Seq<char>) -> Seq<char> {
    s.subrange(last_index_of(s, '/') + 1, s.len() as int)
}

/// Stem of a file name: the part before the last dot, except that a name
/// whose only dot leads (a hidden file) or that has no dot is all stem.
pub open spec fn spec_stem(name: Seq<char>) -> Seq<char> {
    let j = last_index_of(name, '.');
    if j <= 0 {
        name
    } else {
        name.subrange(0, j)
    }
}

/// Extension of a file name: the part after the last dot, empty when the
/// name has no dot or only a leading one.
pub open spec fn spec_extension(name: Seq<char>) -> Seq<char> {
    let j = last_index_of(name, '.');
    if j <= 0 {
        Seq::empty()
    } else {
        name.subrange(j + 1, name.len() as int)
    }
}

/// Output file name: stem, then suffix, then the original extension when
/// there is one.
pub open spec fn spec_output_name(name: Seq<char>, suffix: Seq<char>) -> Seq<char> {
    if spec_extension(name).len() == 0 {
        spec_stem(name) + suffix
    } else {
        spec_stem(name) + suffix + seq!['.'] + spec_extension(name)
    }
}

/// Join a directory and a name with a single separator.
pub open spec fn spec_join(dir: Seq<char>, name: Seq<char>) -> Seq<char> {
    if dir.len() == 0 {
        name
    } else if dir[dir.len() - 1] == '/' {
        dir + name
    } else {
        dir + seq!['/'] + name
    }
}

/// Strip `base` from the front of `parent`: empty when they are equal; the
/// remainder after it when `base` already ends in the separator (the root
/// `/` included); the remainder after the separator when `base` is a
/// proper directory prefix; and nothing otherwise.
pub open spec fn spec_strip_base(parent: Seq<char>, base: Seq<char>) -> Option<Seq<char>> {
    if parent == base {
        Option::Some(Seq::empty())
    } else if base.len() > 0 && base[base.len() - 1] == '/' && parent.len() > base.len()
        && parent.subrange(0, base.len() as int) == base {
        Option::Some(parent.subrange(base.len() as int, parent.len() as int))
    } else if parent.len() > base.len() && parent.subrange(0, base.len() as int) == base
        && parent[base.len() as int] == '/' {
        Option::Some(parent.subrange(base.len() as int + 1, parent.len() as int))
    } else {
        Option::None
    }
}

/// The whole PathResolver rule. Fails when the input has no parent
/// directory, or, with structure preservation, when the parent does not lie
/// under the base directory.
pub open spec fn spec_resolve(
    out_root: Seq<char>,
    input: Seq<char>,
    base: Seq<char>,
    keep_structure: bool,
    suffix: Seq<char>,
) -> Option<Seq<char>> {
    match spec_parent(input) {
        Option::None => Option::None,
        Option::Some(parent) => {
            let name = spec_output_name(spec_file_name(input), suffix);
            if keep_structure {
                match spec_strip_base(parent, base) {
                    Option::None => Option::None,
                    Option::Some(rel) => Option::Some(
                        if rel.len() == 0 {
                            spec_join(out_root, name)
                        } else {
                            spec_join(spec_join(out_root, rel), name)
                        },
                    ),
                }
            } else {
                Option::Some(spec_join(out_root, name))
            }
        },
    }
}

/// The path with its file name's extension replaced by `ext`.
pub open spec fn spec_with_extension(path: Seq<char>, ext: Seq<char>) -> Seq<char> {
    let i = last_index_of(path, '/');
    path.subrange(0, i + 1) + spec_stem(spec_file_name(path)) + seq!['.'] + ext
}

/// Index of the last occurrence of `c`, scanning from the end.
fn find_last(s: &str, c: char) -> (r: Option<usize>)
    ensures
        (r matches Option::Some(i) ==> i < s@.len() && last_index_of(s@, c) == i),
        r is None ==> last_index_of(s@, c) == -1,
{
    let n = s.unicode_len();
    let mut i: usize = n;
    proof {
        assert(s@.take(n as int) =~= s@);
    }
    while i > 0
        invariant
            i <= n,
            n == s@.len(),
            last_index_of(s@, c) == last_index_of(s@.take(i as int), c),
        decreases i,
    {
        let ch = s.get_char(i - 1);
        proof {
            lemma_last_index_of_take_step(s@, c, i as int);
        }
        if ch == c {
            return Option::Some(i - 1);
        }
        i = i - 1;
    }
    proof {
        assert(s@.take(0) =~= Seq::<char>::empty());
    }
    Option::None
}

/// Characters of two strings laid end to end, as one owned string.
fn concat_str(a: &str, b: &str) -> (r: String)
    ensures
        r@ == a@ + b@,
{
    let mut out = String::from_str(a);
    out.append(b);
    out
}

/// Parent directory of a path, or nothing for a separator-free path.
pub fn parent_of(path: &str) -> (r: Option<String>)
    ensures
        opt_str_view(r) == spec_parent(path@),
{
    match find_last(path, '/') {
        Option::None => Option::None,
        Option::Some(i) => {
            if i == 0 {
                let root = String::from_str("/");
                proof {
                    reveal_strlit("/");
                    assert(root@ =~= seq!['/']);
                }
                Option::Some(root)
            } else {
                Option::Some(String::from_str(path.substring_char(0, i)))
            }
        },
    }
}

/// Output file name for one input: the input's file name with `suffix`
/// inserted between stem and extension.
fn output_file_name(input: &str, suffix: &str) -> (r: String)
    ensures
        r@ == spec_output_name(spec_file_name(input@), suffix@),
{
    let n = input.unicode_len();
    proof {
        lemma_last_index_of_bounds(input@, '/');
    }
    let name_start: usize = match find_last(input, '/') {
        Option::None => 0,
        Option::Some(i) => i + 1,
    };
    let name = input.substring_char(name_start, n);
    assert(name@ == spec_file_name(input@));
    let m = name.unicode_len();
    proof {
        lemma_last_index_of_bounds(name@, '.');
    }
    match find_last(name, '.') {
        Option::None => concat_str(name, suffix),
        Option::Some(0) => concat_str(name, suffix),
        Option::Some(j) => {
            let stem = name.substring_char(0, j);
            if j + 1 == m {
                // A trailing dot leaves an empty extension, which is dropped.
                return concat_str(stem, suffix);
            }
            let ext = name.substring_char(j + 1, m);
            let mut out = concat_str(stem, suffix);
            out.append(".");
            proof {
                reveal_strlit(".");
                assert((".")@ =~= seq!['.']);
            }
            out.append(ext);
            proof {
                assert(out@ =~= spec_output_name(name@, suffix@));
            }
            out
        },
    }
}

/// Join a directory and a file name with a single separator.
pub fn join_path(dir: &str, name: &str) -> (r: String)
    ensures
        r@ == spec_join(dir@, name@),
{
    let n = dir.unicode_len();
    if n == 0 {
        return String::from_str(name);
    }
    if dir.get_char(n - 1) == '/' {
        concat_str(dir, name)
    } else {
        let mut out = String::from_str(dir);
        out.append("/");
        proof {
            reveal_strlit("/");
            assert(("/")@ =~= seq!['/']);
        }
        out.append(name);
        proof {
            assert(out@ =~= spec_join(dir@, name@));
        }
        out
    }
}

/// Whether the character sequences of two strings are equal.
fn str_eq(a: &str, b: &str) -> (r: bool)
    ensures
        r == (a@ == b@),
{
    let na = a.unicode_len();
    let nb = b.unicode_len();
    if na != nb {
        proof {
            assert(a@ != b@);
        }
        return false;
    }
    let mut i: usize = 0;
    while i < na
        invariant
            i <= na,
            na == a@.len(),
            nb == b@.len(),
            na == nb,
            forall|j: int| 0 <= j < i ==> a@[j] == b@[j],
        decreases na - i,
    {
        if a.get_char(i) != b.get_char(i) {
            proof {
                assert(a@[i as int] != b@[i as int]);
            }
            return false;
        }
        i = i + 1;
    }
    proof {
        assert(a@ =~= b@);
    }
    true
}

/// Strip `base` from the front of `parent`, giving the relative
/// subdirectory, or nothing when `parent` does not lie under `base`.
fn strip_base(parent: &str, base: &str) -> (r: Option<String>)
    ensures
        opt_str_view(r) == spec_strip_base(parent@, base@),
{
    let np = parent.unicode_len();
    let nb = base.unicode_len();
    if str_eq(parent, base) {
        let empty = String::new();
        proof {
            assert(empty@ =~= Seq::<char>::empty());
        }
        return Option::Some(empty);
    }
    if np > nb {
        let head = parent.substring_char(0, nb);
        if str_eq(head, base) {
            if nb > 0 && base.get_char(nb - 1) == '/' {
                return Option::Some(String::from_str(parent.substring_char(nb, np)));
            }
            if parent.get_char(nb) == '/' {
                return Option::Some(String::from_str(parent.substring_char(nb + 1, np)));
            }
        }
    }
    Option::None
}

/// PathResolver: compute the output path for one input file.
///
/// The output file name is the input's stem, then `suffix`, then the
/// original extension when there is one. Without structure preservation the
/// name goes directly under `out_root`; with it, the input parent's
/// location relative to `base` is mirrored under `out_root`. Fails exactly
/// when the input has no parent directory or, with structure preservation,
/// when its parent does not lie under `base`.
pub fn resolve_output_path(
    out_root: &str,
    input: &str,
    base: &str,
    keep_structure: bool,
    suffix: &str,
) -> (r: Option<String>)
    ensures
        opt_str_view(r) == spec_resolve(out_root@, input@, base@, keep_structure, suffix@),
{
    let parent = match parent_of(input) {
        Option::None => {
            return Option::None;
        },
        Option::Some(p) => p,
    };
    let name = output_file_name(input, suffix);
    if keep_structure {
        match strip_base(parent.as_str(), base) {
            Option::None => Option::None,
            Option::Some(rel) => {
                if rel.as_str().unicode_len() == 0 {
                    Option::Some(join_path(out_root, name.as_str()))
                } else {
                    let dir = join_path(out_root, rel.as_str());
                    Option::Some(join_path(dir.as_str(), name.as_str()))
                }
            },
        }
    } else {
        Option::Some(join_path(out_root, name.as_str()))
    }
}

/// The path with its file name's extension replaced by `ext`.
pub fn with_extension(path: &str, ext: &str) -> (r: String)
    ensures
        r@ == spec_with_extension(path@, ext@),
{
    let n = path.unicode_len();
    proof {
        lemma_last_index_of_bounds(path@, '/');
    }
    let name_start: usize = match find_last(path, '/') {
        Option::None => 0,
        Option::Some(i) => i + 1,
    };
    let prefix = path.substring_char(0, name_start);
    let name = path.substring_char(name_start, n);
    assert(name@ == spec_file_name(path@));
    proof {
        lemma_last_index_of_bounds(name@, '.');
    }
    let stem = match find_last(name, '.') {
        Option::None => name,
        Option::Some(0) => name,
        Option::Some(j) => name.substring_char(0, j),
    };
    assert(stem@ == spec_stem(name@));
    let mut out = concat_str(prefix, stem);
    out.append(".");
    proof {
        reveal_strlit(".");
        assert((".")@ =~= seq!['.']);
    }
    out.append(ext);
    proof {
        assert(out@ =~= spec_with_extension(path@, ext@));
    }
    out
}

} // verus!
