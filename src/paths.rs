//! Unix path text: joining components, and the parts of a path that
//! `std::path` picks out.
use vstd::prelude::*;

verus! {

/// The path that `base` joined with `part` names: an absolute `part`
/// replaces `base`; otherwise a `/` is put between them unless `base` is
/// empty or already ends in one.
pub open spec fn joined(base: Seq<char>, part: Seq<char>) -> Seq<char> {
    if part.len() > 0 && part[0] == '/' {
        part
    } else if base.len() == 0 || base.last() == '/' {
        base + part
    } else {
        base + seq!['/'] + part
    }
}

/// Joins `part` onto `base`, as a path is extended by one component.
pub fn join_path(base: &str, part: &str) -> (r: String)
    ensures
        r@ == joined(base@, part@),
{
    let part_len = part.unicode_len();
    if part_len > 0 && part.get_char(0) == '/' {
        return part.to_owned();
    }
    let base_len = base.unicode_len();
    let mut r = base.to_owned();
    if base_len == 0 || base.get_char(base_len - 1) == '/' {
        r.append(part);
        assert(r@ =~= joined(base@, part@));
    } else {
        proof {
            reveal_strlit("/");
            assert("/"@ =~= seq!['/']);
        }
        r.append("/");
        r.append(part);
        assert(r@ =~= joined(base@, part@));
    }
    r
}

/// The stem of the last component of `p`, as `Path::file_stem` reads it.
pub uninterp spec fn file_stem_of(p: Seq<char>) -> Option<Seq<char>>;

/// The last component of `p`, as `Path::file_name` reads it.
pub uninterp spec fn file_name_of(p: Seq<char>) -> Option<Seq<char>>;

/// `p` after `PathBuf::pop`: its parent, or `p` itself when it has none.
pub uninterp spec fn popped_of(p: Seq<char>) -> Seq<char>;

/// `p` with its last component replaced, as `Path::with_file_name` does.
pub uninterp spec fn with_file_name_of(p: Seq<char>, name: Seq<char>) -> Seq<char>;

/// `p` with its extension replaced, as `Path::with_extension` does.
pub uninterp spec fn with_extension_of(p: Seq<char>, ext: Seq<char>) -> Seq<char>;

/// Relies on `Path::file_stem`: the stem of the file name, `None` when the
/// path has no file name. A path made from a `&str` is valid UTF-8, so the
/// lossy conversion keeps every character.
#[verifier::external_body]
pub(crate) fn file_stem(p: &str) -> (r: Option<String>)
    ensures
        match r {
            Some(s) => file_stem_of(p@) == Some(s@),
            None => file_stem_of(p@) is None,
        },
{
    std::path::Path::new(p).file_stem().map(|s| s.to_string_lossy().into_owned())
}

/// Relies on `Path::file_name`: the last component, `None` when the path
/// ends in `..`, is empty or is only a root.
#[verifier::external_body]
pub(crate) fn file_name(p: &str) -> (r: Option<String>)
    ensures
        match r {
            Some(s) => file_name_of(p@) == Some(s@),
            None => file_name_of(p@) is None,
        },
{
    std::path::Path::new(p).file_name().map(|s| s.to_string_lossy().into_owned())
}

/// Relies on `PathBuf::pop`: truncates the path to its parent.
#[verifier::external_body]
pub(crate) fn popped(p: &str) -> (r: String)
    ensures
        r@ == popped_of(p@),
{
    let mut b = std::path::PathBuf::from(p);
    b.pop();
    b.to_string_lossy().into_owned()
}

/// Relies on `Path::with_file_name`: the path with its file name replaced.
#[verifier::external_body]
pub(crate) fn with_file_name(p: &str, name: &str) -> (r: String)
    ensures
        r@ == with_file_name_of(p@, name@),
{
    std::path::Path::new(p).with_file_name(name).to_string_lossy().into_owned()
}

/// Relies on `Path::with_extension`: the path with its extension replaced.
/// It panics on an extension that holds a path separator, so none is passed.
#[verifier::external_body]
pub(crate) fn with_extension(p: &str, ext: &str) -> (r: String)
    requires
        forall|i: int| 0 <= i < ext@.len() ==> ext@[i] != '/',
    ensures
        r@ == with_extension_of(p@, ext@),
{
    std::path::Path::new(p).with_extension(ext).to_string_lossy().into_owned()
}

} // verus!
