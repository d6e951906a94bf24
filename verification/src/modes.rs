//! The modes an application around this library runs in, as marker types:
//! a pass driven by a template file, or one fed from the standard input.
use vstd::prelude::*;

verus! {

/// A mode the application can run in.
pub trait ApplicationState {

}

/// The pass is driven by a template file.
pub struct FileMode;

impl ApplicationState for FileMode {

}

/// The template body arrives on the standard input.
pub struct StdinMode;

impl ApplicationState for StdinMode {

}

} // verus!
