use vstd::prelude::*;

verus! {

/// The operating system the viewer is built for. The platform-dependent
/// choices (executable name, key labels) are taken from this value.
#[derive(Clone, Copy, Debug, PartialEq, Eq)]
pub enum TargetOs {
    MacOs,
    Windows,
    Other,
}

} // verus!
