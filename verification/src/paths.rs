use vstd::prelude::*;

verus! {

/// The path that `std::path::Path::join` builds from a base path and a path to append, on the
/// platform the library is built for.
pub uninterp spec fn joined(base: Seq<char>, rel: Seq<char>) -> Seq<char>;

/// The extension that `std::path::Path::extension` finds in a path, if it finds one.
pub uninterp spec fn extension_of(path: Seq<char>) -> Option<Seq<char>>;

/// The file stem that `std::path::Path::file_stem` finds in a path, if it finds one.
pub uninterp spec fn stem_of(path: Seq<char>) -> Option<Seq<char>>;

/// Calls `std::path::Path::join`. Trusted: the result is the joined path, which depends on
/// the two paths alone.
#[verifier::external_body]
pub(crate) fn path_join(base: &str, rel: &str) -> (r: String)
    ensures
        r@ == joined(base@, rel@),
{
    std::path::Path::new(base).join(rel).to_string_lossy().into_owned()
}

/// Calls `std::path::Path::extension`. Trusted: the result is the extension of the path's
/// last component, which depends on the path alone.
#[verifier::external_body]
pub(crate) fn path_extension(path: &str) -> (r: Option<String>)
    ensures
        r.is_some() == extension_of(path@).is_some(),
        r matches Some(e) ==> Some(e@) == extension_of(path@),
{
    std::path::Path::new(path).extension().map(|e| e.to_string_lossy().into_owned())
}

/// Calls `std::path::Path::file_stem`. Trusted: the result is the stem of the path's last
/// component, which depends on the path alone.
#[verifier::external_body]
pub(crate) fn path_file_stem(path: &str) -> (r: Option<String>)
    ensures
        r.is_some() == stem_of(path@).is_some(),
        r matches Some(e) ==> Some(e@) == stem_of(path@),
{
    std::path::Path::new(path).file_stem().map(|e| e.to_string_lossy().into_owned())
}

} // verus!
