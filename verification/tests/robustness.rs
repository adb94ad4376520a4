use rust_code_analysis_web::ast::{AstCallback, AstCfg};
use rust_code_analysis_web::capability::dispatch;
use rust_code_analysis_web::comment::{WebCommentCallback, WebCommentCfg};
use rust_code_analysis_web::function::{WebFunctionCallback, WebFunctionCfg};
use rust_code_analysis_web::language::Language;
use rust_code_analysis_web::metrics::{WebMetricsCallback, WebMetricsCfg};

const ALL: [Language; 10] = [
    Language::Mozjs,
    Language::Javascript,
    Language::Java,
    Language::Rust,
    Language::Cpp,
    Language::Python,
    Language::Tsx,
    Language::Typescript,
    Language::Ccomment,
    Language::Preproc,
];

/// A fixed sequence of numbers that look random.
struct Numbers(u64);

impl Numbers {
    fn next(&mut self, below: usize) -> usize {
        self.0 = self.0.wrapping_mul(6364136223846793005).wrapping_add(1442695040888963407);
        ((self.0 >> 33) as usize) % below
    }
}

const PIECES: [&str; 40] = [
    "é", "ü", "ñ", "語", "𝄞", "\u{feff}", "\u{2028}", "a", "x1", "_", " ", "\n", "\r\n", "\t", "(", ")",
    "{", "}", "[", "]", "<", ">", "\"", "'", "`", "\\", "/", "//", "/*", "*/", "#", "=", ";", ":", ",",
    ".", "def ", "fn ", "function ", "class ",
];

#[test]
fn syntax_tree_is_built_from_any_text() {
    let mut numbers = Numbers(7);
    for round in 0..300 {
        let mut text = String::new();
        for _ in 0..numbers.next(24) {
            text.push_str(PIECES[numbers.next(PIECES.len())]);
        }
        for lang in ALL {
            let id = format!("{round}");
            let tree = dispatch::<AstCallback>(
                &lang,
                text.clone().into_bytes(),
                AstCfg { id: id.clone(), comment: round % 2 == 0, span: round % 3 == 0 },
            );
            let tree = serde_json::to_value(&tree).unwrap();
            assert_eq!(tree["id"], serde_json::Value::String(id), "{lang:?} {text:?}");
        }
    }
}

#[test]
fn the_other_analyses_run_on_any_bytes() {
    let mut numbers = Numbers(11);
    for round in 0..300 {
        let mut bytes = Vec::new();
        for _ in 0..numbers.next(24) {
            if numbers.next(3) == 0 {
                bytes.push(numbers.next(256) as u8);
            } else {
                bytes.extend_from_slice(PIECES[numbers.next(PIECES.len())].as_bytes());
            }
        }
        for lang in ALL {
            let id = format!("{round}");
            let code = dispatch::<WebCommentCallback>(
                &lang,
                bytes.clone(),
                WebCommentCfg { id: id.clone() },
            );
            assert_eq!(code.id, id);
            if let Some(rest) = &code.code {
                // What is left is no longer than what came, line ends aside.
                let line_ends = rest.iter().filter(|b| **b == b'\n').count();
                assert!(rest.len() <= bytes.len() + line_ends, "{lang:?} {bytes:?}");
            }

            let functions = dispatch::<WebFunctionCallback>(
                &lang,
                bytes.clone(),
                WebFunctionCfg { id: id.clone() },
            );
            assert_eq!(functions.id, id);
            assert!(functions.spans.iter().all(|s| 1 <= s.start_line && s.start_line <= s.end_line));
            assert!(functions.spans.iter().all(|s| !s.error || s.name.is_empty()));

            let metrics = dispatch::<WebMetricsCallback>(
                &lang,
                bytes.clone(),
                WebMetricsCfg {
                    id: id.clone(),
                    path: "any".to_string(),
                    unit: round % 2 == 0,
                    language: "any".to_string(),
                },
            );
            assert_eq!(metrics.id, id);
            if let Some(root) = &metrics.spaces {
                assert_eq!(root.name.as_deref(), Some("any"));
                assert!(round % 2 != 0 || root.spaces.is_empty());
            }
        }
    }
}
