//! What holds across handlers and analyses.

use crate::ast::{AstCallback, AstCfg, AstPayload};
use crate::capability::{is_answer, Capability};
use crate::comment::{
    comment_dialect, WebCommentCallback, WebCommentCfg, WebCommentInfo, WebCommentPayload,
    WebCommentResponse,
};
use crate::engine::{ast_id, identified};
use crate::function::{
    WebFunctionCallback, WebFunctionCfg, WebFunctionInfo, WebFunctionPayload, WebFunctionResponse,
};
use crate::language::{extension_language, has_extension, Language};
use crate::metrics::{
    without_children, WebMetricsCallback, WebMetricsCfg, WebMetricsInfo, WebMetricsPayload,
    WebMetricsResponse,
};
use crate::response::{Body, Response, Status};
use crate::server::{
    is_ast_answer, is_comment_answer, is_function_answer, is_metrics_answer,
    is_plain_comment_answer, is_plain_function_answer, is_plain_metrics_answer,
};
use rust_code_analysis::AstResponse;
use vstd::prelude::*;
use vstd::utf8::{encode_utf8, encode_utf8_valid_utf8};

verus! {

/// Every language that has an extension of its own is selected by it: all but
/// JavaScript proper, which shares its extensions with Mozilla's variant, and
/// the two dialects of C, which no file is written in.
pub proof fn lemma_language_has_extension(lang: Language)
    requires
        lang != Language::Javascript,
        lang != Language::Ccomment,
        lang != Language::Preproc,
    ensures
        exists|ext: Seq<char>| extension_language(ext) == Some(lang),
{
    crate::language::lemma_extension_table();
    match lang {
        Language::Mozjs => assert(extension_language("js"@) == Some(lang)),
        Language::Java => assert(extension_language("java"@) == Some(lang)),
        Language::Rust => assert(extension_language("rs"@) == Some(lang)),
        Language::Cpp => assert(extension_language("cpp"@) == Some(lang)),
        Language::Python => assert(extension_language("py"@) == Some(lang)),
        Language::Tsx => assert(extension_language("tsx"@) == Some(lang)),
        _ => assert(extension_language("ts"@) == Some(lang)),
    }
}

/// A request that names a file by a plain stem, a dot and an extension of
/// the table is never refused, whatever its code: the extension alone
/// suffices. This holds of the empty buffer too.
pub proof fn lemma_known_extension_is_answered(
    ext: Seq<char>,
    ast: AstPayload,
    ast_answer: Response<AstResponse>,
    comment: WebCommentPayload,
    comment_answer: Response<WebCommentResponse>,
    metrics: WebMetricsPayload,
    metrics_answer: Response<WebMetricsResponse>,
    function: WebFunctionPayload,
    function_answer: Response<WebFunctionResponse>,
)
    requires
        extension_language(ext) is Some,
        has_extension(ast.file_name@, ext),
        has_extension(comment.file_name@, ext),
        has_extension(metrics.file_name@, ext),
        has_extension(function.file_name@, ext),
        is_ast_answer(ast, ast_answer),
        is_comment_answer(comment, comment_answer),
        is_metrics_answer(metrics, metrics_answer),
        is_function_answer(function, function_answer),
    ensures
        identified(encode_utf8(ast.code@), ast.file_name@).0 == extension_language(ext),
        ast_answer.is_structured(),
        comment_answer.is_structured(),
        metrics_answer.is_structured(),
        function_answer.is_structured(),
{
}

/// The same of a raw request: with a known extension it is answered, with
/// code, with metrics, with functions, or with the remark that there was no
/// comment to take out.
pub proof fn lemma_known_extension_is_answered_plain(
    ext: Seq<char>,
    body: Seq<u8>,
    comment: WebCommentInfo,
    comment_answer: Response<WebCommentResponse>,
    metrics: WebMetricsInfo,
    metrics_answer: Response<WebMetricsResponse>,
    function: WebFunctionInfo,
    function_answer: Response<WebFunctionResponse>,
)
    requires
        extension_language(ext) is Some,
        has_extension(comment.file_name@, ext),
        has_extension(metrics.file_name@, ext),
        has_extension(function.file_name@, ext),
        is_plain_comment_answer(body, comment, comment_answer),
        is_plain_metrics_answer(body, metrics, metrics_answer),
        is_plain_function_answer(body, function, function_answer),
    ensures
        comment_answer.status != Status::NotFound,
        metrics_answer.is_structured(),
        function_answer.is_structured(),
{
}

/// Every analysis can be run on the empty buffer.
pub proof fn lemma_empty_buffer_is_accepted()
    ensures
        AstCallback::accepts(Seq::empty()),
        WebCommentCallback::accepts(Seq::empty()),
        WebMetricsCallback::accepts(Seq::empty()),
        WebFunctionCallback::accepts(Seq::empty()),
{
}

/// Every analysis can be run on code that came as text, and all but the
/// syntax tree on any bytes at all.
pub proof fn lemma_text_is_accepted(text: Seq<char>, bytes: Seq<u8>)
    ensures
        AstCallback::accepts(encode_utf8(text)),
        WebCommentCallback::accepts(bytes),
        WebMetricsCallback::accepts(bytes),
        WebFunctionCallback::accepts(bytes),
{
    encode_utf8_valid_utf8(text);
}

/// A structured request whose language is not known is refused by every
/// route, and the refusal carries the identifier of the request.
pub proof fn lemma_unknown_language_is_refused(
    ast: AstPayload,
    ast_answer: Response<AstResponse>,
    comment: WebCommentPayload,
    comment_answer: Response<WebCommentResponse>,
    metrics: WebMetricsPayload,
    metrics_answer: Response<WebMetricsResponse>,
    function: WebFunctionPayload,
    function_answer: Response<WebFunctionResponse>,
)
    requires
        is_ast_answer(ast, ast_answer),
        is_comment_answer(comment, comment_answer),
        is_metrics_answer(metrics, metrics_answer),
        is_function_answer(function, function_answer),
        identified(encode_utf8(ast.code@), ast.file_name@).0 is None,
        identified(encode_utf8(comment.code@), comment.file_name@).0 is None,
        identified(encode_utf8(metrics.code@), metrics.file_name@).0 is None,
        identified(encode_utf8(function.code@), function.file_name@).0 is None,
    ensures
        ast_answer.is_unknown_language(ast.id@),
        comment_answer.is_unknown_language(comment.id@),
        metrics_answer.is_unknown_language(metrics.id@),
        function_answer.is_unknown_language(function.id@),
{
}

/// A raw request whose language is not known is refused by every route, in
/// the same words.
pub proof fn lemma_unknown_language_is_refused_plain(
    body: Seq<u8>,
    comment: WebCommentInfo,
    comment_answer: Response<WebCommentResponse>,
    metrics: WebMetricsInfo,
    metrics_answer: Response<WebMetricsResponse>,
    function: WebFunctionInfo,
    function_answer: Response<WebFunctionResponse>,
)
    requires
        is_plain_comment_answer(body, comment, comment_answer),
        is_plain_metrics_answer(body, metrics, metrics_answer),
        is_plain_function_answer(body, function, function_answer),
        identified(body, comment.file_name@).0 is None,
        identified(body, metrics.file_name@).0 is None,
        identified(body, function.file_name@).0 is None,
    ensures
        comment_answer.is_unknown_language_plain(),
        metrics_answer.is_unknown_language_plain(),
        function_answer.is_unknown_language_plain(),
{
}

/// Whatever the analysis and whatever the language, the answer to a
/// structured request holds the payload of the analysis or a refusal, one and
/// not the other, and what it holds carries the identifier of the request.
pub proof fn lemma_envelope_is_uniform<C: Capability>(
    language: Option<Language>,
    code: Seq<u8>,
    cfg: C::Cfg,
    r: Response<C::Res>,
)
    requires
        is_answer::<C>(language, code, cfg, r),
    ensures
        r.body is Json <==> language is Some,
        r.body is Error <==> language is None,
        match r.body {
            Body::Json(payload) => C::echo(payload) == C::id(cfg),
            Body::Error(e) => e.id@ == C::id(cfg),
            _ => false,
        },
{
}

/// The answer of each structured route carries the identifier of its
/// request, in its payload or in its refusal.
pub proof fn lemma_identifier_is_echoed(
    ast: AstPayload,
    ast_answer: Response<AstResponse>,
    comment: WebCommentPayload,
    comment_answer: Response<WebCommentResponse>,
    metrics: WebMetricsPayload,
    metrics_answer: Response<WebMetricsResponse>,
    function: WebFunctionPayload,
    function_answer: Response<WebFunctionResponse>,
)
    requires
        is_ast_answer(ast, ast_answer),
        is_comment_answer(comment, comment_answer),
        is_metrics_answer(metrics, metrics_answer),
        is_function_answer(function, function_answer),
    ensures
        match ast_answer.body {
            Body::Json(payload) => ast_id(payload) == ast.id@,
            Body::Error(e) => e.id@ == ast.id@,
            _ => false,
        },
        match comment_answer.body {
            Body::Json(payload) => payload.id@ == comment.id@,
            Body::Error(e) => e.id@ == comment.id@,
            _ => false,
        },
        match metrics_answer.body {
            Body::Json(payload) => payload.id@ == metrics.id@,
            Body::Error(e) => e.id@ == metrics.id@,
            _ => false,
        },
        match function_answer.body {
            Body::Json(payload) => payload.id@ == function.id@,
            Body::Error(e) => e.id@ == function.id@,
            _ => false,
        },
{
}

/// A refusal is the fault of the request, whichever way it is worded, and
/// every other answer is a success: with a payload, with bytes, with nothing
/// to send, or bare.
pub proof fn lemma_status_tells_refusal_from_success<T>(
    answer: Response<T>,
    id: Seq<char>,
    payload: T,
    code: Seq<u8>,
)
    ensures
        answer.is_unknown_language(id) ==> answer.status.is_client_error(),
        answer.is_unknown_language_plain() ==> answer.status.is_client_error(),
        answer.is_found(payload) ==> answer.status.is_success(),
        answer.is_structured() ==> answer.status.is_success(),
        answer.is_bytes(code) ==> answer.status.is_success(),
        answer.is_no_content() ==> answer.status.is_success(),
        answer.is_alive() ==> answer.status.is_success(),
        !(answer.status.is_success() && answer.status.is_client_error()),
{
}

/// What an analysis returns is settled by the language, the buffer and the
/// configuration: two results for the same three agree in all that can be
/// told of them.
pub proof fn lemma_analysis_is_deterministic(
    lang: Language,
    code: Seq<u8>,
    ast: AstCfg,
    tree: AstResponse,
    other_tree: AstResponse,
    comment: WebCommentCfg,
    stripped: WebCommentResponse,
    other_stripped: WebCommentResponse,
    metrics: WebMetricsCfg,
    measured: WebMetricsResponse,
    other_measured: WebMetricsResponse,
    function: WebFunctionCfg,
    listed: WebFunctionResponse,
    other_listed: WebFunctionResponse,
)
    requires
        AstCallback::yields(lang, code, ast, tree),
        AstCallback::yields(lang, code, ast, other_tree),
        WebCommentCallback::yields(lang, code, comment, stripped),
        WebCommentCallback::yields(lang, code, comment, other_stripped),
        WebMetricsCallback::yields(lang, code, metrics, measured),
        WebMetricsCallback::yields(lang, code, metrics, other_measured),
        WebFunctionCallback::yields(lang, code, function, listed),
        WebFunctionCallback::yields(lang, code, function, other_listed),
    ensures
        tree == other_tree,
        stripped.id@ == other_stripped.id@,
        stripped.code_view() == other_stripped.code_view(),
        measured.id@ == other_measured.id@,
        measured.language@ == other_measured.language@,
        measured.spaces.deep_view() == other_measured.spaces.deep_view(),
        listed.id@ == other_listed.id@,
        listed.spans.deep_view() == other_listed.spans.deep_view(),
{
}

/// The grammar that comments are found with is never that of C itself, and
/// remapping it once more changes nothing.
pub proof fn lemma_comment_dialect_is_settled(lang: Language)
    ensures
        comment_dialect(lang) != Language::Cpp,
        comment_dialect(comment_dialect(lang)) == comment_dialect(lang),
        lang != Language::Cpp ==> comment_dialect(lang) == lang,
{
}

/// An answer that says "no comment" cannot be taken for one that carries
/// code, not even for one that carries no byte of it.
pub proof fn lemma_no_comment_is_not_empty_code<T>(answer: Response<T>, code: Seq<u8>)
    requires
        answer.is_bytes(code),
    ensures
        !answer.is_no_content(),
        answer.status != Status::NoContent,
{
}

/// Asking for the unit alone changes nothing but the child spaces: the two
/// answers agree on whether there is a root space, and the root of the first
/// is the root of the second with nothing inside it, its metrics untouched.
pub proof fn lemma_unit_only_keeps_the_root(
    lang: Language,
    code: Seq<u8>,
    unit: WebMetricsCfg,
    full: WebMetricsCfg,
    unit_res: WebMetricsResponse,
    full_res: WebMetricsResponse,
)
    requires
        unit.unit,
        !full.unit,
        unit.path@ == full.path@,
        WebMetricsCallback::yields(lang, code, unit, unit_res),
        WebMetricsCallback::yields(lang, code, full, full_res),
    ensures
        unit_res.spaces is Some <==> full_res.spaces is Some,
        unit_res.spaces matches Some(root) ==> {
            &&& root.spaces@.len() == 0
            &&& root@ == without_children(full_res.spaces->0@)
            &&& root.metrics == full_res.spaces->0.metrics
        },
{
}

} // verus!
