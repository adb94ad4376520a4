//! The metrics of a source buffer.
//!
//! The engine measures the file as a whole, the root space, and each function,
//! class or other scope inside it, the child spaces. The numbers are its own
//! and are carried through as they come; what is decided here is whether the
//! child spaces are sent.

use crate::capability::Capability;
use crate::engine::{measure, measured};
use crate::language::Language;
use rust_code_analysis::{CodeMetrics, FuncSpace, SpaceKind};
use vstd::prelude::*;
use vstd::string::*;

verus! {

/// The root space of a file.
#[derive(Debug)]
pub struct Space {
    /// The name of the space: for the root, the name of the file.
    pub name: Option<String>,
    /// Its first line.
    pub start_line: usize,
    /// Its last line.
    pub end_line: usize,
    /// What kind of scope it is.
    pub kind: SpaceKind,
    /// The spaces directly inside it, each with its own.
    pub spaces: Vec<FuncSpace>,
    /// What was measured over it.
    pub metrics: CodeMetrics,
}

/// A [`Space`] as a value.
pub struct SpaceView {
    /// The name of the space.
    pub name: Option<Seq<char>>,
    /// Its first line.
    pub start_line: usize,
    /// Its last line.
    pub end_line: usize,
    /// What kind of scope it is.
    pub kind: SpaceKind,
    /// The spaces directly inside it.
    pub spaces: Seq<FuncSpace>,
    /// What was measured over it.
    pub metrics: CodeMetrics,
}

impl View for Space {
    type V = SpaceView;

    open spec fn view(&self) -> SpaceView {
        SpaceView {
            name: self.name.deep_view(),
            start_line: self.start_line,
            end_line: self.end_line,
            kind: self.kind,
            spaces: self.spaces@,
            metrics: self.metrics,
        }
    }
}

impl DeepView for Space {
    type V = SpaceView;

    open spec fn deep_view(&self) -> SpaceView {
        self@
    }
}

/// The space `space` with nothing inside it.
pub open spec fn without_children(space: SpaceView) -> SpaceView {
    SpaceView { spaces: Seq::empty(), ..space }
}

/// What is sent of the measured spaces: the root alone where only the unit is
/// asked for, else the root with all that is inside it.
pub open spec fn reported_spaces(unit: bool, spaces: Option<SpaceView>) -> Option<SpaceView> {
    match spaces {
        Some(root) => Some(
            if unit {
                without_children(root)
            } else {
                root
            },
        ),
        None => None,
    }
}

impl Space {
    /// The same space with its child spaces dropped; the metrics stay.
    pub fn unit_only(self) -> (r: Space)
        ensures
            r@ == without_children(self@),
    {
        Space {
            name: self.name,
            start_line: self.start_line,
            end_line: self.end_line,
            kind: self.kind,
            spaces: Vec::new(),
            metrics: self.metrics,
        }
    }
}

/// A structured request for metrics.
#[derive(Debug, PartialEq, Eq)]
pub struct WebMetricsPayload {
    /// The identifier of the request.
    pub id: String,
    /// The name of the file that the code comes from.
    pub file_name: String,
    /// The code.
    pub code: String,
    /// Whether only the file as a whole is to be reported.
    pub unit: bool,
}

/// The structured answer: the metrics of the file.
#[derive(Debug)]
pub struct WebMetricsResponse {
    /// The identifier of the request.
    pub id: String,
    /// The name under which the language was recognised.
    pub language: String,
    /// The root space; `None` where the engine measured nothing.
    pub spaces: Option<Space>,
}

/// What a raw request says beside its body.
#[derive(Debug, PartialEq, Eq)]
pub struct WebMetricsInfo {
    /// The name of the file that the code comes from.
    pub file_name: String,
    /// `1` or `true` where only the file as a whole is to be reported.
    pub unit: Option<String>,
}

/// How the metrics are to be computed and reported.
#[derive(Debug, PartialEq, Eq)]
pub struct WebMetricsCfg {
    /// The identifier of the request.
    pub id: String,
    /// The name of the file, which names the root space.
    pub path: String,
    /// Whether only the file as a whole is to be reported.
    pub unit: bool,
    /// The name under which the language was recognised.
    pub language: String,
}

/// The analysis that computes the metrics.
pub struct WebMetricsCallback;

impl WebMetricsInfo {
    /// Whether the request asks for the file as a whole only.
    pub open spec fn spec_unit_requested(&self) -> bool {
        self.unit matches Some(flag) && (flag@ == "1"@ || flag@ == "true"@)
    }

    /// Whether the request asks for the file as a whole only: the flag is
    /// there and reads `1` or `true`, letter for letter.
    #[verifier::when_used_as_spec(spec_unit_requested)]
    pub fn unit_requested(&self) -> (r: bool)
        ensures
            r == self.spec_unit_requested(),
    {
        match &self.unit {
            Some(flag) => {
                let one = String::from_str("1");
                let yes = String::from_str("true");
                *flag == one || *flag == yes
            },
            None => false,
        }
    }
}

impl WebMetricsResponse {
    /// The answer to a request for which the engine measured `spaces`.
    pub fn new(cfg: WebMetricsCfg, spaces: Option<Space>) -> (r: Self)
        ensures
            r.id@ == cfg.id@,
            r.language@ == cfg.language@,
            r.spaces.deep_view() == reported_spaces(cfg.unit, spaces.deep_view()),
    {
        let spaces = match spaces {
            Some(root) => Some(
                if cfg.unit {
                    root.unit_only()
                } else {
                    root
                },
            ),
            None => None,
        };
        WebMetricsResponse { id: cfg.id, language: cfg.language, spaces }
    }
}

impl Capability for WebMetricsCallback {
    type Cfg = WebMetricsCfg;

    type Res = WebMetricsResponse;

    open spec fn id(cfg: WebMetricsCfg) -> Seq<char> {
        cfg.id@
    }

    open spec fn echo(res: WebMetricsResponse) -> Seq<char> {
        res.id@
    }

    /// Metrics are computed over any bytes, text or not.
    open spec fn accepts(code: Seq<u8>) -> bool {
        true
    }

    open spec fn yields(
        lang: Language,
        code: Seq<u8>,
        cfg: WebMetricsCfg,
        res: WebMetricsResponse,
    ) -> bool {
        &&& res.id@ == cfg.id@
        &&& res.language@ == cfg.language@
        &&& res.spaces.deep_view() == reported_spaces(cfg.unit, measured(lang, code, cfg.path@))
    }

    fn identifier(cfg: WebMetricsCfg) -> (id: String) {
        cfg.id
    }

    fn run(lang: Language, code: Vec<u8>, cfg: WebMetricsCfg) -> (res: WebMetricsResponse) {
        let spaces = measure(lang, code, cfg.path.as_str());
        WebMetricsResponse::new(cfg, spaces)
    }
}

} // verus!
