//! Mapping the path of a request onto a file below the web root.
use vstd::prelude::*;

verus! {

/// Why a request path names no file below the web root.
#[derive(Debug, Clone, Copy, PartialEq, Eq, Structural)]
pub enum PathError {
    /// The percent-decoded path is not UTF-8.
    NotUtf8,
    /// The cleaned path climbs out of the web root.
    Escapes,
}

/// What percent-decoding `s` gives as UTF-8, `None` where it is not UTF-8.
pub uninterp spec fn percent_decoded(s: Seq<char>) -> Option<Seq<char>>;

/// The lexically cleaned form of a path.
pub uninterp spec fn lexically_cleaned(s: Seq<char>) -> Seq<char>;

/// `s` without its leading slashes.
pub open spec fn without_leading_slashes(s: Seq<char>) -> Seq<char>
    decreases s.len(),
{
    if s.len() > 0 && s[0] == '/' {
        without_leading_slashes(s.drop_first())
    } else {
        s
    }
}

/// Whether `s` begins with `prefix`.
pub open spec fn has_prefix(s: Seq<char>, prefix: Seq<char>) -> bool {
    s.len() >= prefix.len() && s.subrange(0, prefix.len() as int) == prefix
}

/// The relative file path that `path` names, or why it names none.
pub open spec fn file_path_of(path: Seq<char>) -> Result<Seq<char>, PathError> {
    match percent_decoded(path) {
        None => Err(PathError::NotUtf8),
        Some(decoded) => {
            let cleaned = lexically_cleaned(without_leading_slashes(decoded));
            if has_prefix(cleaned, seq!['.', '.', '/']) {
                Err(PathError::Escapes)
            } else {
                Ok(cleaned)
            }
        },
    }
}

/// Relies on `percent_encoding::percent_decode_str` and `PercentDecode::decode_utf8`:
/// the decoded path, or `None` where the decoded bytes are not UTF-8.
#[verifier::external_body]
fn percent_decode(path: &str) -> (r: Option<String>)
    ensures
        r matches Some(d) ==> percent_decoded(path@) == Some(d@),
        r is None ==> percent_decoded(path@) is None,
{
    match percent_encoding::percent_decode_str(path).decode_utf8() {
        Ok(decoded) => Some(decoded.into_owned()),
        Err(_) => None,
    }
}

/// Relies on `path_clean::clean`: the lexically cleaned path.
#[verifier::external_body]
fn clean(path: &str) -> (r: String)
    ensures
        r@ == lexically_cleaned(path@),
{
    path_clean::clean(path)
}

/// Relies on `str::trim_start_matches` with `'/'`: the path without its leading slashes.
#[verifier::external_body]
fn trim_leading_slashes(path: &str) -> (r: &str)
    ensures
        r@ == without_leading_slashes(path@),
{
    path.trim_start_matches('/')
}

/// Relies on `str::starts_with` with `"../"`.
#[verifier::external_body]
fn starts_with_parent(path: &str) -> (r: bool)
    ensures
        r == has_prefix(path@, seq!['.', '.', '/']),
{
    path.starts_with("../")
}

/// The file, relative to the web root, that the path of a request names:
/// percent-decoded, without leading slashes, lexically cleaned, and refused
/// where it climbs out of the root.
pub fn relative_file_path(path: &str) -> (r: Result<String, PathError>)
    ensures
        match file_path_of(path@) {
            Ok(p) => r matches Ok(s) && s@ == p,
            Err(e) => r == Err::<String, PathError>(e),
        },
{
    let decoded = match percent_decode(path) {
        Some(d) => d,
        None => return Err(PathError::NotUtf8),
    };
    let stripped = trim_leading_slashes(decoded.as_str());
    let cleaned = clean(stripped);
    if starts_with_parent(cleaned.as_str()) {
        return Err(PathError::Escapes);
    }
    Ok(cleaned)
}

} // verus!
