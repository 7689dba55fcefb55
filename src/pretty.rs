//! Multi-line rendering of structured data for log lines.
use vstd::prelude::*;

verus! {

/// Relies on the standard library's alternate `Debug` formatting (`{:#?}`):
/// a multi-line, indented rendering of `data` as its `Debug` impl writes it.
/// That impl belongs to the caller's type, so nothing is stated of the text.
#[verifier::external_body]
pub fn pretty<T: core::fmt::Debug + ?Sized>(data: &T) -> String {
    format!("{:#?}", data)
}

} // verus!
