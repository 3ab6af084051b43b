use vstd::prelude::*;

verus! {

/// std's path buffer, carried through opaquely.
#[verifier::external_type_specification]
#[verifier::external_body]
pub struct ExPathBuf(std::path::PathBuf);

/// The info required to initialize the greeter.
pub struct GreeterInit {
    pub config_path: std::path::PathBuf,
    pub css_path: std::path::PathBuf,
    pub demo: bool,
}

} // verus!
