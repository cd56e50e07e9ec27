use vstd::prelude::*;

verus! {

/// The family of operating system the process work runs on. Legacy code-page
/// decoding and the detached terminal exist only on `Windows`.
#[derive(Clone, Copy, Debug, PartialEq, Eq, Structural)]
pub enum Platform {
    Windows,
    Unix,
}

} // verus!
