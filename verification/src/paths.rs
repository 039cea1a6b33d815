//! File names and extensions of paths given as text.
use vstd::prelude::*;

verus! {

/// The final component of a path (`Path::file_name`), when there is one and
/// it is valid text.
pub uninterp spec fn path_file_name(path: Seq<char>) -> Option<Seq<char>>;

/// The extension of a path (`Path::extension`), when there is one and it is
/// valid text.
pub uninterp spec fn path_extension(path: Seq<char>) -> Option<Seq<char>>;

/// `Path::file_name` of a path written as text. The contract names the
/// result (`path_file_name`) and says nothing more of how std splits a path
/// into components.
#[verifier::external_body]
pub(crate) fn file_name_of(path: &str) -> (r: Option<String>)
    ensures
        match r {
            Some(s) => path_file_name(path@) == Some(s@),
            None => path_file_name(path@) is None,
        },
{
    std::path::Path::new(path).file_name().and_then(|name| name.to_str()).map(|name| name.to_string())
}

/// `Path::extension` of a path written as text. The contract names the
/// result (`path_extension`) and says nothing more of how std finds it.
#[verifier::external_body]
pub(crate) fn extension_of(path: &str) -> (r: Option<String>)
    ensures
        match r {
            Some(s) => path_extension(path@) == Some(s@),
            None => path_extension(path@) is None,
        },
{
    std::path::Path::new(path).extension().and_then(|ext| ext.to_str()).map(|ext| ext.to_string())
}

} // verus!
