use rust_code_analysis_web::comment::{comment_dialect, comment_dialect_of};
use rust_code_analysis_web::language::{identify, Language};

const ALL: [Language; 10] = [
    Language::Mozjs,
    Language::Javascript,
    Language::Java,
    Language::Rust,
    Language::Cpp,
    Language::Python,
    Language::Tsx,
    Language::Typescript,
    Language::Ccomment,
    Language::Preproc,
];

const TABLE: [(&str, Language); 20] = [
    ("js", Language::Mozjs),
    ("jsm", Language::Mozjs),
    ("java", Language::Java),
    ("rs", Language::Rust),
    ("cpp", Language::Cpp),
    ("cxx", Language::Cpp),
    ("cc", Language::Cpp),
    ("hxx", Language::Cpp),
    ("hpp", Language::Cpp),
    ("c", Language::Cpp),
    ("h", Language::Cpp),
    ("hh", Language::Cpp),
    ("inc", Language::Cpp),
    ("mm", Language::Cpp),
    ("m", Language::Cpp),
    ("py", Language::Python),
    ("tsx", Language::Tsx),
    ("ts", Language::Typescript),
    ("jsw", Language::Typescript),
    ("jsmw", Language::Typescript),
];

#[test]
fn extension_alone_suffices_on_an_empty_buffer() {
    for (ext, lang) in TABLE {
        let name = format!("file.{ext}");
        let (found, _) = identify(b"", &name);
        assert_eq!(found, Some(lang), "{name}");
    }
}

#[test]
fn every_language_with_an_extension_is_found() {
    for lang in ALL {
        let found = TABLE.iter().any(|(ext, _)| identify(b"", &format!("a.{ext}")).0 == Some(lang));
        let none_of_its_own =
            matches!(lang, Language::Javascript | Language::Ccomment | Language::Preproc);
        assert_eq!(found, !none_of_its_own, "{lang:?}");
    }
}

#[test]
fn extension_decides_whatever_the_buffer_says() {
    let rust_in_vim = b"# vim: set ft=rust:\n";
    let objc_in_emacs =
        b"# -*- Mode: Objective-C++; tab-width: 2; indent-tabs-mode: nil; c-basic-offset: 2 -*-\n";
    for (ext, lang) in TABLE {
        let name = format!("a-b_9.{ext}");
        assert_eq!(identify(rust_in_vim, &name).0, Some(lang), "{name}");
        assert_eq!(identify(objc_in_emacs, &name).0, Some(lang), "{name}");
        assert_eq!(identify(&[0xff, 0x00, 0x80], &name).0, Some(lang), "{name}");
    }
}

#[test]
fn unknown_extension_is_no_language() {
    assert_eq!(identify(b"", "foo.unexisting_extension"), (None, String::new()));
    assert_eq!(identify(b"int x = 1; // hello", "foo.unexisting_extension").0, None);
    assert_eq!(identify(b"", "foo").0, None);
    assert_eq!(identify(b"", "").0, None);
    assert_eq!(identify(b"", "a.ccomment").0, None);
    assert_eq!(identify(b"", "a.preproc").0, None);
}

#[test]
fn a_name_without_a_stem_has_no_extension() {
    assert_eq!(identify(b"", ".c").0, None);
    assert_eq!(identify(b"", "a/.c").0, None);
    assert_eq!(identify(b"", "a.c/b").0, None);
}

#[test]
fn buffer_is_read_where_the_name_says_nothing() {
    assert_eq!(
        identify(b"# -*- mode: python -*-\n", "foo"),
        (Some(Language::Python), "python".to_string())
    );
    assert_eq!(
        identify(b"# vim: set ft=rust:\n", "x"),
        (Some(Language::Rust), "rust".to_string())
    );
}

#[test]
fn language_is_reported_by_name() {
    assert_eq!(identify(b"", "foo.c").1, "c/c++");
    assert_eq!(identify(b"", "foo.m").1, "obj-c/c++");
    assert_eq!(identify(b"", "foo.js").1, "javascript");
    assert_eq!(identify(b"", "foo.ts").1, "typescript");
    assert_eq!(identify(b"", "test.py").1, "python");
    assert_eq!(identify(b"", "lib.rs").1, "rust");
    assert_eq!(identify(b"", "A.java").1, "java");
}

#[test]
fn extension_is_read_without_regard_to_case() {
    assert_eq!(identify(b"", "FOO.C").0, Some(Language::Cpp));
    assert_eq!(identify(b"", "Main.JAVA").0, Some(Language::Java));
}

#[test]
fn only_c_is_remapped_for_comments() {
    for lang in ALL {
        let expected = if lang == Language::Cpp { Language::Ccomment } else { lang };
        assert_eq!(comment_dialect(lang), expected);
        assert_eq!(comment_dialect_of(Some(lang)), Some(expected));
    }
    assert_eq!(comment_dialect_of(None), None);
}
