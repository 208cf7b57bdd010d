//! Parsing a file's contents: Luau source through full_moon. What went wrong
//! becomes the outcome that the tool reports; a model that was decoded, or
//! the error of its decoder, becomes the file to transform or that outcome.
use vstd::prelude::*;
use crate::driver::{FileOutcome, TransformFile};
use crate::roblox::Dom;

verus! {

/// full_moon's syntax tree, carried through unread.
#[verifier::external_type_specification]
#[verifier::external_body]
pub struct ExAst(full_moon::ast::Ast);

/// What `full_moon::parse` gives for `source`: its syntax tree, or the text
/// of its error. The parser is deterministic: the same text gives the same
/// tree or the same error.
pub uninterp spec fn lua_parse(source: Seq<char>) -> Result<full_moon::ast::Ast, Seq<char>>;

/// `full_moon::parse`: the syntax tree of `source`, or the text of the error
/// that it reports; both are what `lua_parse` names for `source`. The tree
/// is opaque here. An input nested deeply enough to exhaust the parser's
/// stack is not left out: nothing here states that depth.
#[verifier::external_body]
fn parse_lua(source: &str) -> (r: Result<full_moon::ast::Ast, String>)
    ensures
        match r {
            Ok(ast) => lua_parse(source@) == Ok::<full_moon::ast::Ast, Seq<char>>(ast),
            Err(e) => lua_parse(source@) == Err::<full_moon::ast::Ast, Seq<char>>(e@),
        },
{
    match full_moon::parse(source) {
        Ok(ast) => Ok(ast),
        Err(err) => Err(err.to_string()),
    }
}

/// Parses the Luau source `source`: the parser's tree, or `ParseFailed` with
/// the parser's error, exactly as full_moon reports it.
pub fn parse_lua_file(source: &str) -> (r: Result<full_moon::ast::Ast, FileOutcome>)
    ensures
        match lua_parse(source@) {
            Ok(ast) => r == Ok::<full_moon::ast::Ast, FileOutcome>(ast),
            Err(e) => r matches Err(FileOutcome::ParseFailed(m)) && m@ == e,
        },
{
    match parse_lua(source) {
        Ok(ast) => Ok(ast),
        Err(e) => Err(FileOutcome::ParseFailed(e)),
    }
}

/// The file that a decoded model gives: the model itself, or `ParseFailed`
/// with the text of the decoder's error.
pub fn model_file(decoded: Result<Dom, String>) -> (r: Result<TransformFile, FileOutcome>)
    ensures
        match decoded {
            Ok(dom) => r == Ok::<TransformFile, FileOutcome>(TransformFile::Model(dom)),
            Err(e) => r matches Err(FileOutcome::ParseFailed(m)) && m@ == e@,
        },
{
    match decoded {
        Ok(dom) => Ok(TransformFile::Model(dom)),
        Err(e) => Err(FileOutcome::ParseFailed(e)),
    }
}

} // verus!
