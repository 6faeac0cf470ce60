//! Link directives for cargo build scripts.
use vstd::prelude::*;
use crate::paths::{file_name, file_name_of, file_stem, file_stem_of, popped, popped_of, with_extension, with_extension_of, with_file_name, with_file_name_of};
use crate::invocation::opt_str_view;
use crate::text::views;

verus! {

/// Whether `s` begins with `p`.
pub open spec fn starts(s: Seq<char>, p: Seq<char>) -> bool {
    p.len() <= s.len() && s.subrange(0, p.len() as int) == p
}

/// Whether `s` ends with `p`.
pub open spec fn ends(s: Seq<char>, p: Seq<char>) -> bool {
    p.len() <= s.len() && s.subrange(s.len() - p.len(), s.len() as int) == p
}

/// The library name in a file stem: a leading `lib` goes, and so does a
/// trailing `.a`, `.so` or `.dylib` (the first of these that the stem ends
/// with).
pub open spec fn library_name(stem: Seq<char>) -> Seq<char> {
    let t = if starts(stem, "lib"@) {
        stem.subrange(3, stem.len() as int)
    } else {
        stem
    };
    if ends(stem, ".a"@) {
        t.subrange(0, t.len() - 2)
    } else if ends(stem, ".so"@) {
        t.subrange(0, t.len() - 3)
    } else if ends(stem, ".dylib"@) {
        t.subrange(0, t.len() - 6)
    } else {
        t
    }
}

/// The lines that tell cargo to search `path` (when given) and to link the
/// library `name`.
pub open spec fn link_lines(path: Option<Seq<char>>, name: Seq<char>) -> Seq<Seq<char>> {
    match path {
        Some(p) => seq!["cargo:rustc-link-search=native="@ + p, "cargo:rustc-link-lib="@ + name],
        None => seq!["cargo:rustc-link-lib="@ + name],
    }
}

/// Whether `s` begins with `p`.
fn has_prefix(s: &str, p: &str) -> (r: bool)
    ensures
        r == starts(s@, p@),
{
    let n = s.unicode_len();
    let k = p.unicode_len();
    if k > n {
        return false;
    }
    let head = s.substring_char(0, k).to_owned();
    let q = p.to_owned();
    head == q
}

/// Whether `s` ends with `p`.
fn has_suffix(s: &str, p: &str) -> (r: bool)
    ensures
        r == ends(s@, p@),
{
    let n = s.unicode_len();
    let k = p.unicode_len();
    if k > n {
        return false;
    }
    let tail = s.substring_char(n - k, n).to_owned();
    let q = p.to_owned();
    tail == q
}

/// Reads the library name out of a file stem, as `library_name` says.
pub fn library_name_of(stem: &str) -> (r: String)
    ensures
        r@ == library_name(stem@),
{
    proof {
        reveal_strlit("lib");
        reveal_strlit(".a");
        reveal_strlit(".so");
        reveal_strlit(".dylib");
        assert("lib"@ =~= seq!['l', 'i', 'b']);
        assert(".a"@ =~= seq!['.', 'a']);
        assert(".so"@ =~= seq!['.', 's', 'o']);
        assert(".dylib"@ =~= seq!['.', 'd', 'y', 'l', 'i', 'b']);
    }
    let n = stem.unicode_len();
    let lib = has_prefix(stem, "lib");
    let start: usize = if lib { 3 } else { 0 };
    let cut: usize = if has_suffix(stem, ".a") {
        2
    } else if has_suffix(stem, ".so") {
        3
    } else if has_suffix(stem, ".dylib") {
        6
    } else {
        0
    };
    proof {
        if lib && cut > 0 {
            assert(stem@.subrange(0, 3)[2] == 'b');
            assert(stem@.subrange(n - cut, n as int)[0] == '.');
            assert(n >= start + cut);
        }
    }
    let r = stem.substring_char(start, n - cut).to_owned();
    assert(r@ =~= library_name(stem@));
    r
}

/// The cargo directives that link the library `name`, searching `path`
/// first when one is given. A build script prints each line to stdout, in
/// order, for cargo to read.
pub fn link_lib(path: Option<&str>, name: &str) -> (r: Vec<String>)
    ensures
        views(r@) == link_lines(opt_str_view(path), name@),
{
    let mut r: Vec<String> = Vec::new();
    match path {
        Some(p) => {
            let mut line = "cargo:rustc-link-search=native=".to_owned();
            line.append(p);
            r.push(line);
        },
        None => {},
    }
    let mut line = "cargo:rustc-link-lib=".to_owned();
    line.append(name);
    r.push(line);
    proof {
        assert(views(r@) =~= link_lines(opt_str_view(path), name@));
    }
    r
}

/// The cargo directives that link the library file `filename`: its
/// directory goes on the search path, and its stem names the library.
/// `None` when the path has no file name. A build script prints each line
/// to stdout, in order, for cargo to read.
pub fn link(filename: &str) -> (r: Option<Vec<String>>)
    ensures
        match file_stem_of(filename@) {
            None => r is None,
            Some(stem) => r is Some && views(r->Some_0@) == link_lines(
                Some(popped_of(filename@)),
                library_name(stem),
            ),
        },
{
    match file_stem(filename) {
        None => None,
        Some(stem) => {
            let name = library_name_of(stem.as_str());
            let dir = popped(filename);
            Some(link_lib(Some(dir.as_str()), name.as_str()))
        },
    }
}

/// The shared library that `-shared` builds from `path`: `lib` put before
/// the file name, and the extension replaced by `so`.
pub open spec fn shared_library(path: Seq<char>, name: Seq<char>) -> Seq<char> {
    with_extension_of(with_file_name_of(path, "lib"@ + name), "so"@)
}

/// Names the shared library built from `path`; `None` when the path has no
/// file name.
pub fn shared_library_path(path: &str) -> (r: Option<String>)
    ensures
        match file_name_of(path@) {
            None => r is None,
            Some(name) => r is Some && r->Some_0@ == shared_library(path@, name),
        },
{
    match file_name(path) {
        None => None,
        Some(name) => {
            let mut lib_name = "lib".to_owned();
            lib_name.append(name.as_str());
            let renamed = with_file_name(path, lib_name.as_str());
            proof {
                reveal_strlit("so");
                assert("so"@ =~= seq!['s', 'o']);
            }
            Some(with_extension(renamed.as_str(), "so"))
        },
    }
}

} // verus!
