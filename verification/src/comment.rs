//! A copy of a source buffer without its comments.

use crate::capability::Capability;
use crate::engine::{strip_comments, stripped};
use crate::language::Language;
use crate::response::Response;
use vstd::prelude::*;

verus! {

/// A structured request to take the comments out.
#[derive(Debug, PartialEq, Eq)]
pub struct WebCommentPayload {
    /// The identifier of the request.
    pub id: String,
    /// The name of the file that the code comes from.
    pub file_name: String,
    /// The code.
    pub code: String,
}

/// The structured answer: the code without its comments.
#[derive(Debug, PartialEq, Eq)]
pub struct WebCommentResponse {
    /// The identifier of the request.
    pub id: String,
    /// The code without its comments; `None` where it held no comment, which
    /// is not the same as code that held nothing else.
    pub code: Option<Vec<u8>>,
}

/// What a raw request says beside its body.
#[derive(Debug, PartialEq, Eq)]
pub struct WebCommentInfo {
    /// The name of the file that the code comes from.
    pub file_name: String,
}

/// How the comments are to be taken out.
#[derive(Debug, PartialEq, Eq)]
pub struct WebCommentCfg {
    /// The identifier of the request.
    pub id: String,
}

/// The analysis that takes the comments out.
pub struct WebCommentCallback;

/// The grammar with which the comments of `lang` are found.
pub open spec fn spec_comment_dialect(lang: Language) -> Language {
    if lang == Language::Cpp {
        Language::Ccomment
    } else {
        lang
    }
}

/// The grammar with which the comments of `lang` are found.
///
/// C and C++ share their comments with every dialect of the family, and the
/// engine has a grammar for just those. No other language is remapped.
#[verifier::when_used_as_spec(spec_comment_dialect)]
pub fn comment_dialect(lang: Language) -> (r: Language)
    ensures
        r == spec_comment_dialect(lang),
{
    match lang {
        Language::Cpp => Language::Ccomment,
        _ => lang,
    }
}

/// The grammar with which the comments are found in code whose language was
/// found to be `language`, where it is known.
pub open spec fn spec_comment_dialect_of(language: Option<Language>) -> Option<Language> {
    match language {
        Some(lang) => Some(spec_comment_dialect(lang)),
        None => None,
    }
}

/// The grammar with which the comments are found in code whose language was
/// found to be `language`, where it is known.
#[verifier::when_used_as_spec(spec_comment_dialect_of)]
pub fn comment_dialect_of(language: Option<Language>) -> (r: Option<Language>)
    ensures
        r == spec_comment_dialect_of(language),
{
    match language {
        Some(lang) => Some(comment_dialect(lang)),
        None => None,
    }
}

impl WebCommentResponse {
    /// The code of the answer as a value.
    pub open spec fn code_view(&self) -> Option<Seq<u8>> {
        match self.code {
            Some(code) => Some(code@),
            None => None,
        }
    }

    /// The answer to request `id` whose comments were taken out with result
    /// `code`.
    pub fn new(cfg: WebCommentCfg, code: Option<Vec<u8>>) -> (r: Self)
        ensures
            r.id@ == cfg.id@,
            r.code == code,
    {
        WebCommentResponse { id: cfg.id, code }
    }

    /// The answer as a raw request gets it: the code alone where comments
    /// were taken out, and nothing where there were none.
    pub fn into_plain(self) -> (r: Response<WebCommentResponse>)
        ensures
            match self.code {
                Some(code) => r.is_bytes(code@),
                None => r.is_no_content(),
            },
    {
        match self.code {
            Some(code) => Response::bytes(code),
            None => Response::no_content(),
        }
    }
}

impl Capability for WebCommentCallback {
    type Cfg = WebCommentCfg;

    type Res = WebCommentResponse;

    open spec fn id(cfg: WebCommentCfg) -> Seq<char> {
        cfg.id@
    }

    open spec fn echo(res: WebCommentResponse) -> Seq<char> {
        res.id@
    }

    /// Comments are found in any bytes, text or not.
    open spec fn accepts(code: Seq<u8>) -> bool {
        true
    }

    open spec fn yields(
        lang: Language,
        code: Seq<u8>,
        cfg: WebCommentCfg,
        res: WebCommentResponse,
    ) -> bool {
        &&& res.id@ == cfg.id@
        &&& res.code_view() == stripped(lang, code)
    }

    fn identifier(cfg: WebCommentCfg) -> (id: String) {
        cfg.id
    }

    fn run(lang: Language, code: Vec<u8>, cfg: WebCommentCfg) -> (res: WebCommentResponse) {
        let stripped = strip_comments(lang, code);
        WebCommentResponse::new(cfg, stripped)
    }
}

} // verus!
