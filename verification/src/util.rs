//! Output paths: the defaults taken from the algorithm's name and the
//! extension added to a path that has none.

use crate::text::{join_text, optional_text};
use vstd::prelude::*;

verus! {

/// Extension of a public key file.
pub const PUBLIC_EXTENSION: &'static str = ".pub";

/// Extension of a secret key file.
pub const SECRET_EXTENSION: &'static str = ".sk";

/// The path of a key file: the given path, with `extension` added where it
/// has none of its own, or the algorithm's name with `extension` where no
/// path was given.
pub open spec fn resolved_path(
    given: Option<Seq<char>>,
    has_extension: bool,
    algorithm: Seq<char>,
    extension: Seq<char>,
) -> Seq<char> {
    match given {
        Some(path) => if has_extension {
            path
        } else {
            path + extension
        },
        None => algorithm + extension,
    }
}

/// `std::path::Path::extension`, asked whether it finds an extension.
/// Trusted: a path without any `.` has none. Where the path holds a `.`, the
/// answer follows the platform's rules for path components and nothing is
/// claimed of it.
#[verifier::external_body]
fn has_extension(path: &str) -> (found: bool)
    ensures
        found ==> path@.contains('.'),
{
    match std::path::Path::new(path).extension() {
        Some(_) => true,
        None => false,
    }
}

/// The path of a key file, given whether the path that the caller named has
/// an extension of its own.
pub fn resolve_path(
    given: &Option<String>,
    has_extension: bool,
    algorithm: &str,
    extension: &str,
) -> (path: String)
    ensures
        path@ == resolved_path(optional_text(*given), has_extension, algorithm@, extension@),
{
    match given {
        Some(p) => if has_extension {
            p.clone()
        } else {
            join_text(p.as_str(), extension)
        },
        None => join_text(algorithm, extension),
    }
}

/// The paths of the two key files.
///
/// A path that was not given is the algorithm's name with `.pub` or `.sk`. A
/// given path is kept as it is where it has an extension, and gets `.pub` or
/// `.sk` where it has none, as every path without a `.` does.
pub fn finalize_paths(pk_opt: &Option<String>, sk_opt: &Option<String>, algorithm: &str) -> (paths:
    (String, String))
    ensures
        exists|kept: bool|
            paths.0@ == #[trigger] resolved_path(
                optional_text(*pk_opt),
                kept,
                algorithm@,
                PUBLIC_EXTENSION@,
            ),
        exists|kept: bool|
            paths.1@ == #[trigger] resolved_path(
                optional_text(*sk_opt),
                kept,
                algorithm@,
                SECRET_EXTENSION@,
            ),
        pk_opt matches Some(p) ==> (!p@.contains('.') ==> paths.0@ == p@ + PUBLIC_EXTENSION@),
        sk_opt matches Some(p) ==> (!p@.contains('.') ==> paths.1@ == p@ + SECRET_EXTENSION@),
{
    let pk_kept = match pk_opt {
        Some(p) => has_extension(p.as_str()),
        None => false,
    };
    let sk_kept = match sk_opt {
        Some(p) => has_extension(p.as_str()),
        None => false,
    };
    let pk_path = resolve_path(pk_opt, pk_kept, algorithm, PUBLIC_EXTENSION);
    let sk_path = resolve_path(sk_opt, sk_kept, algorithm, SECRET_EXTENSION);
    (pk_path, sk_path)
}

} // verus!
