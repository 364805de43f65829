use vstd::prelude::*;
use crate::text::has_prefix;

verus! {

/// How the running binary was invoked, judged by its file-name stem.
#[derive(Clone, Copy, Debug, PartialEq, Eq, Structural)]
pub enum InvocationIdentity {
    /// The stem begins with the installer prefix: the binary installs itself.
    InstallerMode,
    /// Any other stem: the binary acts as the command-line tool.
    NormalMode,
}

/// The executable's path had no usable file-name stem.
#[derive(Clone, Copy, Debug, PartialEq, Eq, Structural)]
pub enum IdentityError {
    MissingFileName,
}

/// The stem prefix that marks the self-installer.
pub open spec fn installer_prefix() -> Seq<char> {
    "wasm-pack-init"@
}

/// The identity that a file-name stem stands for.
pub open spec fn identity_of(stem: Seq<char>) -> InvocationIdentity {
    if installer_prefix().is_prefix_of(stem) {
        InvocationIdentity::InstallerMode
    } else {
        InvocationIdentity::NormalMode
    }
}

/// Classifies a file-name stem: installer mode exactly when it begins with
/// the installer prefix.
pub fn classify_stem(stem: &str) -> (r: InvocationIdentity)
    ensures
        r == identity_of(stem@),
{
    if has_prefix(stem, "wasm-pack-init") {
        InvocationIdentity::InstallerMode
    } else {
        InvocationIdentity::NormalMode
    }
}

/// Classifies the executable by its file-name stem, failing when there is none.
pub fn classify(stem: Option<&str>) -> (r: Result<InvocationIdentity, IdentityError>)
    ensures
        stem is None ==> r == Err::<InvocationIdentity, IdentityError>(
            IdentityError::MissingFileName,
        ),
        stem is Some ==> r == Ok::<InvocationIdentity, IdentityError>(
            identity_of(stem->0@),
        ),
{
    match stem {
        None => Err(IdentityError::MissingFileName),
        Some(s) => Ok(classify_stem(s)),
    }
}

} // verus!
