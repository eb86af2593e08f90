//! The parts of `std` that texts come from or go to: formatters, and the ids of
//! types.
use vstd::prelude::*;

verus! {

/// `core::fmt::Formatter`. What was written to one is not visible.
#[verifier::external_type_specification]
#[verifier::external_body]
pub struct ExFormatter<'a>(core::fmt::Formatter<'a>);

/// `core::fmt::Error`.
#[verifier::external_type_specification]
#[verifier::external_body]
pub struct ExFormatError(core::fmt::Error);

/// `core::fmt::Formatter::write_str` passes a text on to wherever the formatter
/// writes. Whether that goes well is up to the place it writes to, so nothing is
/// claimed of the result.
pub assume_specification<'a>[ core::fmt::Formatter::<'a>::write_str ](
    f: &mut core::fmt::Formatter<'a>,
    data: &str,
) -> (done: Result<(), core::fmt::Error>);

/// `std::any::TypeId::of`, as its `Debug` writes it. The id of a type differs
/// from one compilation to another, and how it is written is not documented, so
/// nothing is claimed of the text.
#[verifier::external_body]
pub(crate) fn type_id_text<T: 'static>() -> (text: String) {
    format!("{:?}", std::any::TypeId::of::<T>())
}

} // verus!
