//! The error of the tunnel's connection handler.
use vstd::prelude::*;
use core::convert::Infallible;

verus! {

/// The error of the tunnel's connection handler. It has no value: its only
/// variant holds a value that cannot exist, as the handler never fails.
#[derive(Debug)]
pub enum Error {
    Never(Infallible),
}

} // verus!
