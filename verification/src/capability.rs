//! What an analysis is, the one way to run one, and the one way to answer
//! with its result.
//!
//! An analysis is chosen by type. Its type fixes what configuration it takes
//! and what it returns, so a call site cannot pair one analysis's
//! configuration with another's result. Whatever the analysis, its
//! configuration carries the identifier of the request and its result carries
//! it back.

use crate::language::Language;
use crate::response::Response;
use vstd::prelude::*;

verus! {

/// An analysis of a source buffer.
pub trait Capability {
    /// What the adapter settles before the analysis runs.
    type Cfg;

    /// What the analysis returns.
    type Res;

    /// The identifier of the request, as the configuration holds it.
    spec fn id(cfg: Self::Cfg) -> Seq<char>;

    /// The identifier that a result carries.
    spec fn echo(res: Self::Res) -> Seq<char>;

    /// The buffers that the analysis can be run on.
    spec fn accepts(code: Seq<u8>) -> bool;

    /// `res` is what the analysis returns for `code`, read as `lang`, under
    /// `cfg`. Nothing else enters into the result.
    spec fn yields(lang: Language, code: Seq<u8>, cfg: Self::Cfg, res: Self::Res) -> bool;

    /// Takes the identifier out of a configuration that will not be run.
    fn identifier(cfg: Self::Cfg) -> (id: String)
        ensures
            id@ == Self::id(cfg),
    ;

    /// Parses `code` as `lang` and analyses it.
    fn run(lang: Language, code: Vec<u8>, cfg: Self::Cfg) -> (res: Self::Res)
        requires
            Self::accepts(code@),
        ensures
            Self::yields(lang, code@, cfg, res),
            Self::echo(res) == Self::id(cfg),
    ;
}

/// Runs the analysis `C` on `code`, read as `lang`.
///
/// The dispatcher neither chooses the language nor shapes the answer: the
/// adapter does the first before the call and the second after it.
pub fn dispatch<C: Capability>(lang: &Language, code: Vec<u8>, cfg: C::Cfg) -> (res: C::Res)
    requires
        C::accepts(code@),
    ensures
        C::yields(*lang, code@, cfg, res),
        C::echo(res) == C::id(cfg),
{
    C::run(*lang, code, cfg)
}

/// `r` answers a structured request for the analysis `C` of `code`, whose
/// language was found to be `language`: with what the analysis yields, or,
/// where the language is not known, with a refusal. Either carries the
/// identifier of the request.
pub open spec fn is_answer<C: Capability>(
    language: Option<Language>,
    code: Seq<u8>,
    cfg: C::Cfg,
    r: Response<C::Res>,
) -> bool {
    match language {
        Some(lang) => {
            &&& r.is_structured()
            &&& C::yields(lang, code, cfg, r.body->Json_0)
            &&& C::echo(r.body->Json_0) == C::id(cfg)
        },
        None => r.is_unknown_language(C::id(cfg)),
    }
}

/// `r` answers a raw request for the analysis `C` of `code`, whose language
/// was found to be `language`: with what the analysis yields, or, where the
/// language is not known, with a line of text.
pub open spec fn is_plain_answer<C: Capability>(
    language: Option<Language>,
    code: Seq<u8>,
    cfg: C::Cfg,
    r: Response<C::Res>,
) -> bool {
    match language {
        Some(lang) => {
            &&& r.is_structured()
            &&& C::yields(lang, code, cfg, r.body->Json_0)
            &&& C::echo(r.body->Json_0) == C::id(cfg)
        },
        None => r.is_unknown_language_plain(),
    }
}

/// Answers a structured request: runs `C` where the language is known and
/// refuses where it is not. No analysis runs for a refusal.
pub fn answer<C: Capability>(language: Option<Language>, code: Vec<u8>, cfg: C::Cfg) -> (r:
    Response<C::Res>)
    requires
        language is Some ==> C::accepts(code@),
    ensures
        is_answer::<C>(language, code@, cfg, r),
{
    match language {
        Some(language) => Response::found(dispatch::<C>(&language, code, cfg)),
        None => Response::unknown_language(C::identifier(cfg)),
    }
}

/// Answers a raw request: runs `C` where the language is known and refuses
/// where it is not. No analysis runs for a refusal.
pub fn answer_plain<C: Capability>(language: Option<Language>, code: Vec<u8>, cfg: C::Cfg) -> (r:
    Response<C::Res>)
    requires
        language is Some ==> C::accepts(code@),
    ensures
        is_plain_answer::<C>(language, code@, cfg, r),
{
    match language {
        Some(language) => Response::found(dispatch::<C>(&language, code, cfg)),
        None => Response::unknown_language_plain(),
    }
}

} // verus!
