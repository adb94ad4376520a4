//! One handler per route.
//!
//! A handler gets a request whole, finds the language of its code, runs the
//! analysis of its route on it and shapes the answer. A structured request
//! carries an identifier and its code as text; a raw request carries its code
//! as the bytes of its body and is answered without an identifier.

use crate::ast::{AstCallback, AstCfg, AstPayload};
use crate::capability::{answer, answer_plain, dispatch};
use crate::comment::{
    comment_dialect, comment_dialect_of, WebCommentCallback, WebCommentCfg, WebCommentInfo,
    WebCommentPayload, WebCommentResponse,
};
use crate::engine::{ast_id, identified, listed_functions, measured, parsed_ast, stripped};
use crate::function::{
    WebFunctionCallback, WebFunctionCfg, WebFunctionInfo, WebFunctionPayload, WebFunctionResponse,
};
use crate::language::{extension_decides, identify};
use crate::metrics::{
    reported_spaces, WebMetricsCallback, WebMetricsCfg, WebMetricsInfo, WebMetricsPayload,
    WebMetricsResponse,
};
use crate::response::Response;
use rust_code_analysis::AstResponse;
use vstd::prelude::*;
use vstd::string::*;
use vstd::utf8::{encode_utf8, encode_utf8_valid_utf8};

verus! {

/// `r` answers the request `item` for a syntax tree.
pub open spec fn is_ast_answer(item: AstPayload, r: Response<AstResponse>) -> bool {
    let code = encode_utf8(item.code@);
    &&& extension_decides(item.file_name@, identified(code, item.file_name@).0)
    &&& match identified(code, item.file_name@).0 {
        Some(lang) => {
            &&& r.is_structured()
            &&& r.body->Json_0 == parsed_ast(lang, code, item.id@, item.comment, item.span)
            &&& ast_id(r.body->Json_0) == item.id@
        },
        None => r.is_unknown_language(item.id@),
    }
}

/// `r` answers the structured request `item` to take the comments out.
pub open spec fn is_comment_answer(
    item: WebCommentPayload,
    r: Response<WebCommentResponse>,
) -> bool {
    let code = encode_utf8(item.code@);
    &&& extension_decides(item.file_name@, identified(code, item.file_name@).0)
    &&& match identified(code, item.file_name@).0 {
        Some(lang) => {
            &&& r.is_structured()
            &&& r.body->Json_0.id@ == item.id@
            &&& r.body->Json_0.code_view() == stripped(comment_dialect(lang), code)
        },
        None => r.is_unknown_language(item.id@),
    }
}

/// `r` answers the raw request to take the comments out of `body`.
pub open spec fn is_plain_comment_answer(
    body: Seq<u8>,
    info: WebCommentInfo,
    r: Response<WebCommentResponse>,
) -> bool {
    &&& extension_decides(info.file_name@, identified(body, info.file_name@).0)
    &&& match identified(body, info.file_name@).0 {
        Some(lang) => match stripped(comment_dialect(lang), body) {
            Some(code) => r.is_bytes(code),
            None => r.is_no_content(),
        },
        None => r.is_unknown_language_plain(),
    }
}

/// `r` answers the structured request `item` for metrics.
pub open spec fn is_metrics_answer(
    item: WebMetricsPayload,
    r: Response<WebMetricsResponse>,
) -> bool {
    let code = encode_utf8(item.code@);
    &&& extension_decides(item.file_name@, identified(code, item.file_name@).0)
    &&& match identified(code, item.file_name@).0 {
        Some(lang) => {
            &&& r.is_structured()
            &&& r.body->Json_0.id@ == item.id@
            &&& r.body->Json_0.language@ == identified(code, item.file_name@).1
            &&& r.body->Json_0.spaces.deep_view() == reported_spaces(
                item.unit,
                measured(lang, code, item.file_name@),
            )
        },
        None => r.is_unknown_language(item.id@),
    }
}

/// `r` answers the raw request for the metrics of `body`.
pub open spec fn is_plain_metrics_answer(
    body: Seq<u8>,
    info: WebMetricsInfo,
    r: Response<WebMetricsResponse>,
) -> bool {
    &&& extension_decides(info.file_name@, identified(body, info.file_name@).0)
    &&& match identified(body, info.file_name@).0 {
        Some(lang) => {
            &&& r.is_structured()
            &&& r.body->Json_0.id@ == Seq::<char>::empty()
            &&& r.body->Json_0.language@ == identified(body, info.file_name@).1
            &&& r.body->Json_0.spaces.deep_view() == reported_spaces(
                info.unit_requested(),
                measured(lang, body, info.file_name@),
            )
        },
        None => r.is_unknown_language_plain(),
    }
}

/// `r` answers the structured request `item` for the functions of a file.
pub open spec fn is_function_answer(
    item: WebFunctionPayload,
    r: Response<WebFunctionResponse>,
) -> bool {
    let code = encode_utf8(item.code@);
    &&& extension_decides(item.file_name@, identified(code, item.file_name@).0)
    &&& match identified(code, item.file_name@).0 {
        Some(lang) => {
            &&& r.is_structured()
            &&& r.body->Json_0.id@ == item.id@
            &&& r.body->Json_0.spans.deep_view() == listed_functions(lang, code)
        },
        None => r.is_unknown_language(item.id@),
    }
}

/// `r` answers the raw request for the functions of `body`.
pub open spec fn is_plain_function_answer(
    body: Seq<u8>,
    info: WebFunctionInfo,
    r: Response<WebFunctionResponse>,
) -> bool {
    &&& extension_decides(info.file_name@, identified(body, info.file_name@).0)
    &&& match identified(body, info.file_name@).0 {
        Some(lang) => {
            &&& r.is_structured()
            &&& r.body->Json_0.id@ == Seq::<char>::empty()
            &&& r.body->Json_0.spans.deep_view() == listed_functions(lang, body)
        },
        None => r.is_unknown_language_plain(),
    }
}

/// Answers a request for the syntax tree of a file.
pub fn ast_parser(item: AstPayload) -> (r: Response<AstResponse>)
    ensures
        is_ast_answer(item, r),
{
    let buf = item.code.as_str().as_bytes_vec();
    let (language, _) = identify(buf.as_slice(), item.file_name.as_str());
    let cfg = AstCfg { id: item.id, comment: item.comment, span: item.span };
    proof {
        // Code that came as text is text.
        encode_utf8_valid_utf8(item.code@);
    }
    answer::<AstCallback>(language, buf, cfg)
}

/// Answers a structured request to take the comments out of a file.
pub fn comment_removal_json(item: WebCommentPayload) -> (r: Response<WebCommentResponse>)
    ensures
        is_comment_answer(item, r),
{
    let buf = item.code.as_str().as_bytes_vec();
    let (language, _) = identify(buf.as_slice(), item.file_name.as_str());
    let cfg = WebCommentCfg { id: item.id };
    answer::<WebCommentCallback>(comment_dialect_of(language), buf, cfg)
}

/// Answers a raw request to take the comments out of `body`: with what is
/// left of it, or with nothing where it holds no comment.
pub fn comment_removal_plain(body: Vec<u8>, info: WebCommentInfo) -> (r: Response<
    WebCommentResponse,
>)
    ensures
        is_plain_comment_answer(body@, info, r),
{
    let (language, _) = identify(body.as_slice(), info.file_name.as_str());
    match comment_dialect_of(language) {
        Some(language) => {
            let cfg = WebCommentCfg { id: String::new() };
            dispatch::<WebCommentCallback>(&language, body, cfg).into_plain()
        },
        None => Response::unknown_language_plain(),
    }
}

/// Answers a structured request for the metrics of a file.
pub fn metrics_json(item: WebMetricsPayload) -> (r: Response<WebMetricsResponse>)
    ensures
        is_metrics_answer(item, r),
{
    let buf = item.code.as_str().as_bytes_vec();
    let (language, name) = identify(buf.as_slice(), item.file_name.as_str());
    let cfg = WebMetricsCfg {
        id: item.id,
        path: item.file_name,
        unit: item.unit,
        language: name,
    };
    answer::<WebMetricsCallback>(language, buf, cfg)
}

/// Answers a raw request for the metrics of `body`.
pub fn metrics_plain(body: Vec<u8>, info: WebMetricsInfo) -> (r: Response<WebMetricsResponse>)
    ensures
        is_plain_metrics_answer(body@, info, r),
{
    let (language, name) = identify(body.as_slice(), info.file_name.as_str());
    let cfg = WebMetricsCfg {
        id: String::new(),
        unit: info.unit_requested(),
        path: info.file_name,
        language: name,
    };
    answer_plain::<WebMetricsCallback>(language, body, cfg)
}

/// Answers a structured request for the functions of a file.
pub fn function_json(item: WebFunctionPayload) -> (r: Response<WebFunctionResponse>)
    ensures
        is_function_answer(item, r),
{
    let buf = item.code.as_str().as_bytes_vec();
    let (language, _) = identify(buf.as_slice(), item.file_name.as_str());
    let cfg = WebFunctionCfg { id: item.id };
    answer::<WebFunctionCallback>(language, buf, cfg)
}

/// Answers a raw request for the functions of `body`.
pub fn function_plain(body: Vec<u8>, info: WebFunctionInfo) -> (r: Response<WebFunctionResponse>)
    ensures
        is_plain_function_answer(body@, info, r),
{
    let (language, _) = identify(body.as_slice(), info.file_name.as_str());
    let cfg = WebFunctionCfg { id: String::new() };
    answer_plain::<WebFunctionCallback>(language, body, cfg)
}

/// Says that the service is up. Reads no input and runs no analysis.
pub fn ping() -> (r: Response<()>)
    ensures
        r.is_alive(),
{
    Response::alive()
}

} // verus!
