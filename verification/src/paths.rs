//! Remote keys and local target paths.

use vstd::prelude::*;
use vstd::string::*;
use crate::text::{contains, lemma_replaced_absent, replace, replaced};

verus! {

/// The final component of a path, as `std::path::Path::file_name` gives it,
/// where it has one that is valid Unicode.
pub uninterp spec fn path_file_name(path: Seq<char>) -> Option<Seq<char>>;

/// `base` with `name` adjoined, as `std::path::Path::join` gives it, where the
/// result is valid Unicode.
pub uninterp spec fn path_join(base: Seq<char>, name: Seq<char>) -> Option<Seq<char>>;

/// Calls `std::path::Path::file_name` on `path`. Nothing is claimed of the
/// result but that it is the one named by [`path_file_name`]: the same path
/// always has the same final component.
#[verifier::external_body]
pub(crate) fn file_name(path: &str) -> (r: Option<String>)
    ensures
        crate::model::opt_text(r) == path_file_name(path@),
{
    std::path::Path::new(path).file_name().and_then(|f| f.to_str()).map(|f| f.to_string())
}

/// Calls `std::path::Path::join` on `base` with `name`. Nothing is claimed of
/// the result but that it is the one named by [`path_join`].
#[verifier::external_body]
pub(crate) fn join(base: &str, name: &str) -> (r: Option<String>)
    ensures
        crate::model::opt_text(r) == path_join(base@, name@),
{
    std::path::Path::new(base).join(name).to_str().map(|p| p.to_string())
}

/// `s` with each `//` replaced by `/`, from the left and without overlap.
pub open spec fn collapsed(s: Seq<char>) -> Seq<char> {
    replaced(s, seq!['/', '/'], seq!['/'])
}

/// The remote key of a file called `filename` under `prefix`.
pub open spec fn key_under(prefix: Seq<char>, filename: Seq<char>) -> Seq<char> {
    collapsed(prefix + seq!['/'] + filename)
}

/// The local path that the object at `key` is written to under `output_path`:
/// the key's file name alone, adjoined to the directory.
pub open spec fn target_in(output_path: Seq<char>, key: Seq<char>) -> Option<Seq<char>> {
    match path_file_name(key) {
        Some(name) => match path_join(output_path, name) {
            Some(joined) => Some(collapsed(joined)),
            None => None,
        },
        None => None,
    }
}

/// Where the prefix, a slash and the file name hold no double slash between
/// them, the key is just these three.
pub proof fn lemma_key_is_joined(prefix: Seq<char>, filename: Seq<char>)
    requires
        !contains(prefix + seq!['/'] + filename, seq!['/', '/']),
    ensures
        key_under(prefix, filename) == prefix + seq!['/'] + filename,
{
    lemma_replaced_absent(prefix + seq!['/'] + filename, seq!['/', '/'], seq!['/']);
}

/// Replaces each double slash in `s` by a single one.
pub fn collapse_slashes(s: &str) -> (r: String)
    ensures
        r@ == collapsed(s@),
{
    proof {
        reveal_strlit("//");
        reveal_strlit("/");
        assert("//"@ =~= seq!['/', '/']);
        assert("/"@ =~= seq!['/']);
    }
    replace(s, "//", "/")
}

/// Builds the remote key of a file called `filename` under `prefix`.
pub fn upload_key(prefix: &str, filename: &str) -> (r: String)
    ensures
        r@ == key_under(prefix@, filename@),
{
    proof {
        reveal_strlit("/");
        assert("/"@ =~= seq!['/']);
    }
    let joined = String::from_str(prefix).concat("/").concat(filename);
    collapse_slashes(joined.as_str())
}

/// Computes where the object at `key` is written to under `output_path`, or
/// `None` where the key has no file name.
pub fn download_target(output_path: &str, key: &str) -> (r: Option<String>)
    ensures
        crate::model::opt_text(r) == target_in(output_path@, key@),
{
    match file_name(key) {
        Some(name) => match join(output_path, name.as_str()) {
            Some(joined) => Some(collapse_slashes(joined.as_str())),
            None => None,
        },
        None => None,
    }
}

} // verus!
