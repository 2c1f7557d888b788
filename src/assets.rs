//! Assets: values that an application loads from files.
use vstd::prelude::*;

verus! {

#[verifier::external_type_specification]
#[verifier::external_body]
pub struct ExIoError(std::io::Error);

/// A kind of asset that can be loaded from the file at a path.
pub trait Format: core::fmt::Debug + Clone + Send + Sync + Sized {
    fn load_file(url: &str) -> Result<Self, std::io::Error>;
}

} // verus!
