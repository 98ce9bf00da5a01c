//! Types of other crates that the library's values carry without looking
//! inside them.
use vstd::prelude::*;

verus! {

/// A file system path (`std::path::PathBuf`).
#[verifier::external_type_specification]
#[verifier::external_body]
pub struct ExPathBuf(std::path::PathBuf);

/// The sending half of a channel (`crossbeam::channel::Sender`).
#[verifier::external_type_specification]
#[verifier::external_body]
#[verifier::reject_recursive_types(T)]
pub struct ExSender<T>(crossbeam::channel::Sender<T>);

} // verus!
