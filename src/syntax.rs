use vstd::prelude::*;
use crate::scanner::{Invocation, ParsedArgument};

verus! {

#[verifier::external_type_specification]
#[verifier::external_body]
pub struct ExMacro(syn::Macro);

#[verifier::external_type_specification]
#[verifier::external_body]
pub struct ExFile(syn::File);

#[verifier::external_type_specification]
#[verifier::external_body]
pub struct ExError(syn::Error);

/// Whether syn can parse the text as a whole source file.
pub uninterp spec fn parses_as_file(text: Seq<char>) -> bool;

/// The message of the error that syn gives for text that does not parse as a
/// source file.
pub uninterp spec fn file_error_text(text: Seq<char>) -> Seq<char>;

/// The message that a syn error displays.
pub uninterp spec fn error_text_of(e: syn::Error) -> Seq<char>;

/// The name of a macro invocation, when its path is a single identifier.
pub uninterp spec fn name_of_macro(m: syn::Macro) -> Option<Seq<char>>;

/// The text of a macro invocation's argument tokens.
pub uninterp spec fn tokens_of_macro(m: syn::Macro) -> Seq<char>;

/// Whether a macro invocation's argument tokens parse as one expression.
pub uninterp spec fn body_parses(m: syn::Macro) -> bool;

/// The decoded value, when a macro invocation's argument tokens parse as one
/// string-literal expression.
pub uninterp spec fn literal_of_macro(m: syn::Macro) -> Option<Seq<char>>;

/// The message of the error that syn gives for argument tokens that do not
/// parse as one expression.
pub uninterp spec fn body_error_text(m: syn::Macro) -> Seq<char>;

/// Relies on syn::parse_file: parses the text of a source file; whether it
/// succeeds, and the message of its error, depend on the text alone.
#[verifier::external_body]
fn parse_file(text: &str) -> (r: Result<syn::File, syn::Error>)
    ensures
        r is Ok <==> parses_as_file(text@),
        r matches Err(e) ==> error_text_of(e) == file_error_text(text@),
{
    syn::parse_file(text)
}

/// Relies on the Display impl of syn::Error: its message.
#[verifier::external_body]
fn error_message(e: &syn::Error) -> (r: String)
    ensures
        r@ == error_text_of(*e),
{
    e.to_string()
}

/// Relies on syn::Path::get_ident: the macro's name when its path is one
/// identifier.
#[verifier::external_body]
fn macro_name(i: &syn::Macro) -> (r: Option<String>)
    ensures
        r is None <==> name_of_macro(*i) is None,
        r matches Some(s) ==> name_of_macro(*i) == Some(s@),
{
    match i.path.get_ident() {
        Some(id) => Some(id.to_string()),
        None => None,
    }
}

/// Relies on the Display impl of the macro's token stream: the raw argument
/// text.
#[verifier::external_body]
fn macro_tokens(i: &syn::Macro) -> (r: String)
    ensures
        r@ == tokens_of_macro(*i),
{
    i.tokens.to_string()
}

/// Relies on syn::Macro::parse_body with syn::Expr: the argument tokens parsed
/// as one expression, and, through syn::LitStr::value, the decoded value when
/// that expression is a string literal.
#[verifier::external_body]
fn macro_argument(i: &syn::Macro) -> (r: Result<Option<String>, syn::Error>)
    ensures
        r is Ok <==> body_parses(*i),
        r matches Ok(Some(v)) ==> literal_of_macro(*i) == Some(v@),
        r matches Ok(None) ==> literal_of_macro(*i) is None,
        r matches Err(e) ==> error_text_of(e) == body_error_text(*i),
{
    match i.parse_body::<syn::Expr>() {
        Ok(syn::Expr::Lit(syn::ExprLit { lit: syn::Lit::Str(s), .. })) => Ok(Some(s.value())),
        Ok(_) => Ok(None),
        Err(e) => Err(e),
    }
}

/// A source file that could not be parsed, with the parser's message.
#[derive(Debug)]
pub struct SourceError {
    pub message: String,
}

/// Parses the text of a source file into a syntax tree.
pub fn parse_source(text: &str) -> (r: Result<syn::File, SourceError>)
    ensures
        r is Ok <==> parses_as_file(text@),
        r matches Err(e) ==> e.message@ == file_error_text(text@),
{
    match parse_file(text) {
        Ok(f) => Ok(f),
        Err(e) => Err(SourceError { message: error_message(&e) }),
    }
}

impl Invocation {
    /// Reads a macro invocation of a syntax tree: its name, its raw argument
    /// tokens, and those tokens parsed as one expression.
    pub fn from_macro(i: &syn::Macro) -> (r: Invocation)
        ensures
            r.name is None <==> name_of_macro(*i) is None,
            r.name matches Some(s) ==> name_of_macro(*i) == Some(s@),
            r.tokens@ == tokens_of_macro(*i),
            r.argument is Unparsable <==> !body_parses(*i),
            r.argument matches ParsedArgument::Unparsable(m) ==> m@ == body_error_text(*i),
            r.argument matches ParsedArgument::StringLiteral(v) ==> literal_of_macro(*i) == Some(v@),
            r.argument is OtherExpression <==> (body_parses(*i) && literal_of_macro(*i) is None),
    {
        let argument = match macro_argument(i) {
            Ok(Some(value)) => ParsedArgument::StringLiteral(value),
            Ok(None) => ParsedArgument::OtherExpression,
            Err(e) => ParsedArgument::Unparsable(error_message(&e)),
        };
        Invocation { name: macro_name(i), tokens: macro_tokens(i), argument }
    }
}

} // verus!
