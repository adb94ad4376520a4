//! The functions of a source buffer and the lines they span.

use crate::capability::Capability;
use crate::engine::{list_functions, listed_functions};
use crate::language::Language;
use vstd::prelude::*;

verus! {

/// Where a function stands in the code.
#[derive(Debug, PartialEq, Eq)]
pub struct FunctionSpan {
    /// The name of the function.
    pub name: String,
    /// Its first line, counted from one.
    pub start_line: usize,
    /// Its last line.
    pub end_line: usize,
    /// Whether the name could not be read. Such a function is listed all the
    /// same, and so are those that follow it.
    pub error: bool,
}

/// A [`FunctionSpan`] as a value.
pub struct FunctionSpanView {
    /// The name of the function.
    pub name: Seq<char>,
    /// Its first line, counted from one.
    pub start_line: usize,
    /// Its last line.
    pub end_line: usize,
    /// Whether the name could not be read.
    pub error: bool,
}

impl View for FunctionSpan {
    type V = FunctionSpanView;

    open spec fn view(&self) -> FunctionSpanView {
        FunctionSpanView {
            name: self.name@,
            start_line: self.start_line,
            end_line: self.end_line,
            error: self.error,
        }
    }
}

impl DeepView for FunctionSpan {
    type V = FunctionSpanView;

    open spec fn deep_view(&self) -> FunctionSpanView {
        self@
    }
}

/// A structured request for the functions of a file.
#[derive(Debug, PartialEq, Eq)]
pub struct WebFunctionPayload {
    /// The identifier of the request.
    pub id: String,
    /// The name of the file that the code comes from.
    pub file_name: String,
    /// The code.
    pub code: String,
}

/// The structured answer: the functions, in the order of the code.
#[derive(Debug, PartialEq, Eq)]
pub struct WebFunctionResponse {
    /// The identifier of the request.
    pub id: String,
    /// One entry for each function.
    pub spans: Vec<FunctionSpan>,
}

/// What a raw request says beside its body.
#[derive(Debug, PartialEq, Eq)]
pub struct WebFunctionInfo {
    /// The name of the file that the code comes from.
    pub file_name: String,
}

/// How the functions are to be listed.
#[derive(Debug, PartialEq, Eq)]
pub struct WebFunctionCfg {
    /// The identifier of the request.
    pub id: String,
}

/// The analysis that lists the functions.
pub struct WebFunctionCallback;

impl WebFunctionResponse {
    /// The answer to a request for which the functions `spans` were found.
    pub fn new(cfg: WebFunctionCfg, spans: Vec<FunctionSpan>) -> (r: Self)
        ensures
            r.id@ == cfg.id@,
            r.spans == spans,
    {
        WebFunctionResponse { id: cfg.id, spans }
    }
}

impl Capability for WebFunctionCallback {
    type Cfg = WebFunctionCfg;

    type Res = WebFunctionResponse;

    open spec fn id(cfg: WebFunctionCfg) -> Seq<char> {
        cfg.id@
    }

    open spec fn echo(res: WebFunctionResponse) -> Seq<char> {
        res.id@
    }

    /// Functions are found in any bytes, text or not.
    open spec fn accepts(code: Seq<u8>) -> bool {
        true
    }

    open spec fn yields(
        lang: Language,
        code: Seq<u8>,
        cfg: WebFunctionCfg,
        res: WebFunctionResponse,
    ) -> bool {
        &&& res.id@ == cfg.id@
        &&& res.spans.deep_view() == listed_functions(lang, code)
    }

    fn identifier(cfg: WebFunctionCfg) -> (id: String) {
        cfg.id
    }

    fn run(lang: Language, code: Vec<u8>, cfg: WebFunctionCfg) -> (res: WebFunctionResponse) {
        let spans = list_functions(lang, code);
        WebFunctionResponse::new(cfg, spans)
    }
}

} // verus!
