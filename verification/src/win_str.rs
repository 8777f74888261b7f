//! Text of a code page into a string: what to do around the two calls of the system's
//! converter, which first says how much room it needs and then fills it.

use vstd::prelude::*;
use vstd::slice::slice_subrange;

verus! {

/// What decoding UTF-16 gives when every unit that belongs to no valid pair is replaced
/// by U+FFFD.
pub uninterp spec fn utf16_lossy(units: Seq<u16>) -> Seq<char>;

/// `String::from_utf16_lossy` of the standard library: the string that `units` encode
/// in UTF-16, with the replacement character in place of invalid data. The result
/// depends on `units` alone.
#[verifier::external_body]
fn decode_utf16_lossy(units: &[u16]) -> (s: String)
    ensures
        s@ == utf16_lossy(units@),
{
    String::from_utf16_lossy(units)
}

/// The message of a conversion that failed.
pub open spec fn convert_failed() -> Seq<char> {
    "convert failed"@
}

/// What comes next in a conversion.
#[derive(Clone, Debug, PartialEq, Eq)]
pub enum ConvertStep {
    /// There was nothing to convert: the result is the empty string.
    Empty,
    /// Ask the converter, without a buffer, how many units the text needs.
    Measure,
    /// Call the converter with a buffer of `units` units.
    Fill { units: usize },
    /// The conversion failed.
    Failed,
}

/// The first step for a text of `len` bytes: an empty text needs no converter.
pub fn begin_conversion(len: usize) -> (step: ConvertStep)
    ensures
        step == if len == 0 {
            ConvertStep::Empty
        } else {
            ConvertStep::Measure
        },
{
    if len == 0 {
        ConvertStep::Empty
    } else {
        ConvertStep::Measure
    }
}

/// The step after the converter said that the text needs `units` units: a buffer of
/// that size is filled, unless the number is not positive, which is a failure.
pub fn after_measure(units: i32) -> (step: ConvertStep)
    ensures
        step == if units > 0 {
            ConvertStep::Fill { units: units as usize }
        } else {
            ConvertStep::Failed
        },
{
    if units > 0 {
        ConvertStep::Fill { units: units as usize }
    } else {
        ConvertStep::Failed
    }
}

/// The result once the converter has filled `buffer` and said that it wrote `written`
/// units: the string that those units encode. A number that is not positive, or that
/// is larger than the buffer, is a failure.
pub fn after_fill(written: i32, buffer: &[u16]) -> (result: Result<String, String>)
    ensures
        match result {
            Ok(s) => 0 < written <= buffer@.len() && s@ == utf16_lossy(
                buffer@.subrange(0, written as int),
            ),
            Err(e) => !(0 < written <= buffer@.len()) && e@ == convert_failed(),
        },
{
    if written > 0 && written as usize <= buffer.len() {
        let units = slice_subrange(buffer, 0, written as usize);
        Ok(decode_utf16_lossy(units))
    } else {
        Err(failure_text())
    }
}

/// The message of a conversion that failed.
pub fn failure_text() -> (s: String)
    ensures
        s@ == convert_failed(),
{
    String::from_str("convert failed")
}

} // verus!
