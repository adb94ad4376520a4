//! The calls into `rust_code_analysis`.
//!
//! Nothing in this module is proved. Each function makes one call and states
//! what the rest of the crate may assume of it; each `uninterp` function names
//! the value that such a call computes from its arguments.

use crate::function::{FunctionSpan, FunctionSpanView};
use crate::language::{extension_decides, Language};
use crate::metrics::{Space, SpaceView};
use rust_code_analysis::{
    action, function, get_function_spaces, guess_language, rm_comments, AstCallback, AstCfg,
    AstResponse, Callback, ParserTrait, LANG,
};
use std::path::Path;
use vstd::prelude::*;
use vstd::utf8::valid_utf8;

verus! {

/// What `rust_code_analysis::guess_language` returns for a buffer and a file
/// name: the language, if it knows one, and the name it reports it under.
pub uninterp spec fn identified(code: Seq<u8>, file_name: Seq<char>) -> (
    Option<Language>,
    Seq<char>,
);

/// Calls `rust_code_analysis::guess_language`.
///
/// The result depends on the buffer and the file name alone. The function
/// looks the lower-cased extension up in its table before it reads the buffer,
/// and a language found there is the one it returns: for a name made of a
/// plain stem, a dot and an extension of the table the language is known
/// whatever the buffer holds.
#[verifier::external_body]
pub(crate) fn guess(code: &[u8], file_name: &str) -> (r: (Option<Language>, String))
    ensures
        r.0 == identified(code@, file_name@).0,
        r.1@ == identified(code@, file_name@).1,
        extension_decides(file_name@, r.0),
{
    let (lang, name) = guess_language(code, file_name);
    let lang = lang.map(|l| match l {
        LANG::Mozjs => Language::Mozjs,
        LANG::Javascript => Language::Javascript,
        LANG::Java => Language::Java,
        LANG::Rust => Language::Rust,
        LANG::Cpp => Language::Cpp,
        LANG::Python => Language::Python,
        LANG::Tsx => Language::Tsx,
        LANG::Typescript => Language::Typescript,
        LANG::Ccomment => Language::Ccomment,
        LANG::Preproc => Language::Preproc,
    });
    (lang, name)
}

/// `rust_code_analysis::AstResponse`: an identifier and a syntax tree. Its
/// fields are private, so it is carried through and never read.
#[verifier::external_type_specification]
#[verifier::external_body]
pub struct ExAstResponse(rust_code_analysis::AstResponse);

/// `rust_code_analysis::FuncSpace`: a space with its metrics and the spaces
/// inside it. The child spaces of a root are carried through as this type.
#[verifier::external_type_specification]
#[verifier::external_body]
pub struct ExFuncSpace(rust_code_analysis::FuncSpace);

/// `rust_code_analysis::CodeMetrics`: what was measured over one space, in
/// floating point. Carried through and never read.
#[verifier::external_type_specification]
#[verifier::external_body]
pub struct ExCodeMetrics(rust_code_analysis::CodeMetrics);

/// `rust_code_analysis::SpaceKind`: whether a space is a unit, a function, a
/// class and so on. Carried through and never read.
#[verifier::external_type_specification]
#[verifier::external_body]
pub struct ExSpaceKind(rust_code_analysis::SpaceKind);

/// The answer that `rust_code_analysis::action` gives with `AstCallback` for a
/// buffer read as `lang`, under a configuration of `id`, `comment` and `span`.
pub uninterp spec fn parsed_ast(
    lang: Language,
    code: Seq<u8>,
    id: Seq<char>,
    comment: bool,
    span: bool,
) -> AstResponse;

/// The identifier that an answer of `AstCallback` carries.
pub uninterp spec fn ast_id(response: AstResponse) -> Seq<char>;

/// Calls `rust_code_analysis::action` with `AstCallback`, an empty path and no
/// preprocessor data.
///
/// The answer depends on the arguments alone and carries the identifier it
/// was given. The engine turns the bytes of each leaf into a string and
/// panics where they are not UTF-8, so the buffer has to be.
#[verifier::external_body]
pub(crate) fn parse_ast(
    lang: Language,
    code: Vec<u8>,
    id: String,
    comment: bool,
    span: bool,
) -> (r: AstResponse)
    requires
        valid_utf8(code@),
    ensures
        r == parsed_ast(lang, code@, id@, comment, span),
        ast_id(r) == id@,
{
    let lang = match lang {
        Language::Mozjs => LANG::Mozjs,
        Language::Javascript => LANG::Javascript,
        Language::Java => LANG::Java,
        Language::Rust => LANG::Rust,
        Language::Cpp => LANG::Cpp,
        Language::Python => LANG::Python,
        Language::Tsx => LANG::Tsx,
        Language::Typescript => LANG::Typescript,
        Language::Ccomment => LANG::Ccomment,
        Language::Preproc => LANG::Preproc,
    };
    action::<AstCallback>(&lang, code, Path::new(""), None, AstCfg { id, comment, span })
}

/// What `rust_code_analysis::rm_comments` returns for a buffer read as `lang`:
/// the buffer without its comments, or `None` where it has none.
pub uninterp spec fn stripped(lang: Language, code: Seq<u8>) -> Option<Seq<u8>>;

/// Handed to `rust_code_analysis::action` to have the comments taken out.
struct CommentPass;

impl Callback for CommentPass {
    type Res = Option<Vec<u8>>;

    type Cfg = ();

    /// Calls `rust_code_analysis::rm_comments` on the parser that `action`
    /// built.
    #[verifier::external_body]
    fn call<T: ParserTrait>(_cfg: (), parser: &T) -> Option<Vec<u8>> {
        rm_comments(parser)
    }
}

/// Calls `rust_code_analysis::action` with [`CommentPass`], an empty path and
/// no preprocessor data.
///
/// The result depends on the language and the buffer alone.
#[verifier::external_body]
pub(crate) fn strip_comments(lang: Language, code: Vec<u8>) -> (r: Option<Vec<u8>>)
    ensures
        match r {
            Some(rest) => stripped(lang, code@) == Some(rest@),
            None => stripped(lang, code@) is None,
        },
{
    let lang = match lang {
        Language::Mozjs => LANG::Mozjs,
        Language::Javascript => LANG::Javascript,
        Language::Java => LANG::Java,
        Language::Rust => LANG::Rust,
        Language::Cpp => LANG::Cpp,
        Language::Python => LANG::Python,
        Language::Tsx => LANG::Tsx,
        Language::Typescript => LANG::Typescript,
        Language::Ccomment => LANG::Ccomment,
        Language::Preproc => LANG::Preproc,
    };
    action::<CommentPass>(&lang, code, Path::new(""), None, ())
}

/// What `rust_code_analysis::function` returns for a buffer read as `lang`:
/// one entry for each function.
pub uninterp spec fn listed_functions(lang: Language, code: Seq<u8>) -> Seq<FunctionSpanView>;

/// Handed to `rust_code_analysis::action` to have the functions listed.
struct FunctionPass;

impl Callback for FunctionPass {
    type Res = Vec<FunctionSpan>;

    type Cfg = ();

    /// Calls `rust_code_analysis::function` on the parser that `action` built
    /// and hands each entry on, field by field.
    #[verifier::external_body]
    fn call<T: ParserTrait>(_cfg: (), parser: &T) -> Vec<FunctionSpan> {
        let spans = function(parser).into_iter();
        spans.map(|s| FunctionSpan {
            name: s.name,
            start_line: s.start_line,
            end_line: s.end_line,
            error: s.error,
        }).collect()
    }
}

/// Calls `rust_code_analysis::action` with [`FunctionPass`], an empty path and
/// no preprocessor data.
///
/// The result depends on the language and the buffer alone.
#[verifier::external_body]
pub(crate) fn list_functions(lang: Language, code: Vec<u8>) -> (r: Vec<FunctionSpan>)
    ensures
        r.deep_view() == listed_functions(lang, code@),
{
    let lang = match lang {
        Language::Mozjs => LANG::Mozjs,
        Language::Javascript => LANG::Javascript,
        Language::Java => LANG::Java,
        Language::Rust => LANG::Rust,
        Language::Cpp => LANG::Cpp,
        Language::Python => LANG::Python,
        Language::Tsx => LANG::Tsx,
        Language::Typescript => LANG::Typescript,
        Language::Ccomment => LANG::Ccomment,
        Language::Preproc => LANG::Preproc,
    };
    action::<FunctionPass>(&lang, code, Path::new(""), None, ())
}

/// What `rust_code_analysis::get_function_spaces` returns for a buffer read
/// as `lang` and the name of its file: the root space, or `None` where it
/// measured nothing.
pub uninterp spec fn measured(lang: Language, code: Seq<u8>, file_name: Seq<char>) -> Option<
    SpaceView,
>;

/// Calls `rust_code_analysis::get_function_spaces` with the file name as the
/// path and no preprocessor data, and hands the root space on, field by field.
///
/// The result depends on the language, the buffer and the file name alone.
#[verifier::external_body]
pub(crate) fn measure(lang: Language, code: Vec<u8>, file_name: &str) -> (r: Option<Space>)
    ensures
        r.deep_view() == measured(lang, code@, file_name@),
{
    let lang = match lang {
        Language::Mozjs => LANG::Mozjs,
        Language::Javascript => LANG::Javascript,
        Language::Java => LANG::Java,
        Language::Rust => LANG::Rust,
        Language::Cpp => LANG::Cpp,
        Language::Python => LANG::Python,
        Language::Tsx => LANG::Tsx,
        Language::Typescript => LANG::Typescript,
        Language::Ccomment => LANG::Ccomment,
        Language::Preproc => LANG::Preproc,
    };
    let s = get_function_spaces(&lang, code, Path::new(file_name), None)?;
    let (name, kind, spaces, metrics) = (s.name, s.kind, s.spaces, s.metrics);
    Some(Space { name, start_line: s.start_line, end_line: s.end_line, kind, spaces, metrics })
}

} // verus!
