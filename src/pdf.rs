use vstd::prelude::*;

verus! {

/// A string as `{:?}` renders it: between double quotes, with quotes,
/// backslashes and control characters escaped.
pub uninterp spec fn debug_rendering_of(s: Seq<char>) -> Seq<char>;

/// Relies on `<str as Debug>::fmt`: the rendering depends on the characters alone.
#[verifier::external_body]
fn debug_rendering(s: &str) -> (r: String)
    ensures
        r@ == debug_rendering_of(s@),
{
    format!("{:?}", s)
}

/// The report given once the text has been written to a path rendered as `rendered`.
pub open spec fn saved_message_of(rendered: Seq<char>) -> Seq<char> {
    "Text saved to "@ + rendered
}

/// The report for an output path already rendered as `{:?}` renders it.
pub fn saved_message_from(rendered: &str) -> (r: String)
    ensures
        r@ == saved_message_of(rendered@),
{
    String::from_str("Text saved to ").concat(rendered)
}

/// The report given once the text has been written to `output_path`:
/// `Text saved to ` followed by the path as `{:?}` renders it.
pub fn saved_message(output_path: &str) -> (r: String)
    ensures
        r@ == saved_message_of(debug_rendering_of(output_path@)),
{
    let rendered = debug_rendering(output_path);
    saved_message_from(rendered.as_str())
}

} // verus!
