use vstd::prelude::*;

verus! {

#[verifier::external_type_specification]
#[verifier::external_body]
#[verifier::reject_recursive_types(F)]
pub struct ExMarkdownParser<'input, F>(pulldown_cmark::Parser<'input, F>);

#[verifier::external_type_specification]
#[verifier::external_body]
pub struct ExDefaultBrokenLinkCallback(pulldown_cmark::DefaultBrokenLinkCallback);

#[verifier::external_type_specification]
#[verifier::external_body]
pub struct ExMarkdownOptions(pulldown_cmark::Options);

/// A Markdown event iterator over a borrowed document.
pub type MarkdownParser<'a> = pulldown_cmark::Parser<'a>;

/// `pulldown_cmark::Options::all`: the set of every optional Markdown extension. Nothing is
/// stated of the flags it holds.
pub assume_specification[ pulldown_cmark::Options::all ]() -> pulldown_cmark::Options;

/// Calls `pulldown_cmark::Parser::new_ext` on the document and the options. The parser is opaque
/// here: nothing is stated of the events it yields.
#[verifier::external_body]
fn parser_new_ext<'a>(document: &'a str, options: pulldown_cmark::Options) -> (parser: MarkdownParser<'a>) {
    pulldown_cmark::Parser::new_ext(document, options)
}

/// A parser over `document` with every Markdown extension enabled.
pub fn markdown_parser_new<'a>(document: &'a str) -> (parser: MarkdownParser<'a>) {
    parser_new_ext(document, pulldown_cmark::Options::all())
}

} // verus!
