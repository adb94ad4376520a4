//! The syntax tree of a source buffer.

use crate::capability::Capability;
use crate::engine::{ast_id, parse_ast, parsed_ast};
use crate::language::Language;
use rust_code_analysis::AstResponse;
use vstd::prelude::*;
use vstd::utf8::valid_utf8;

verus! {

/// A request for a syntax tree.
#[derive(Debug, PartialEq, Eq)]
pub struct AstPayload {
    /// The identifier of the request.
    pub id: String,
    /// The name of the file that the code comes from.
    pub file_name: String,
    /// The code.
    pub code: String,
    /// The comment flag, handed to the engine as it is.
    pub comment: bool,
    /// Whether each node carries the rows and columns at which it starts and
    /// ends.
    pub span: bool,
}

/// How a syntax tree is to be built.
#[derive(Debug, PartialEq, Eq)]
pub struct AstCfg {
    /// The identifier of the request.
    pub id: String,
    /// The comment flag, handed to the engine as it is.
    pub comment: bool,
    /// Whether each node carries the rows and columns at which it starts and
    /// ends.
    pub span: bool,
}

/// The analysis that builds the syntax tree.
///
/// The engine builds the whole answer, identifier included, and keeps its
/// fields to itself: the answer can be sent, not read.
pub struct AstCallback;

impl Capability for AstCallback {
    type Cfg = AstCfg;

    type Res = AstResponse;

    open spec fn id(cfg: AstCfg) -> Seq<char> {
        cfg.id@
    }

    open spec fn echo(res: AstResponse) -> Seq<char> {
        ast_id(res)
    }

    /// The text of a leaf is handed out as a string, so the buffer has to be
    /// text.
    open spec fn accepts(code: Seq<u8>) -> bool {
        valid_utf8(code)
    }

    open spec fn yields(lang: Language, code: Seq<u8>, cfg: AstCfg, res: AstResponse) -> bool {
        res == parsed_ast(lang, code, cfg.id@, cfg.comment, cfg.span)
    }

    fn identifier(cfg: AstCfg) -> (id: String) {
        cfg.id
    }

    fn run(lang: Language, code: Vec<u8>, cfg: AstCfg) -> (res: AstResponse) {
        parse_ast(lang, code, cfg.id, cfg.comment, cfg.span)
    }
}

} // verus!
