//! The grammars that a source buffer can be read with.

use crate::engine::{guess, identified};
use vstd::prelude::*;

verus! {

/// A grammar of the parsing engine.
#[derive(Clone, Copy, Debug, PartialEq, Eq, Structural)]
pub enum Language {
    /// Mozilla's variant of JavaScript.
    Mozjs,
    /// JavaScript.
    Javascript,
    /// Java.
    Java,
    /// Rust.
    Rust,
    /// C and C++.
    Cpp,
    /// Python.
    Python,
    /// TypeScript with JSX syntax.
    Tsx,
    /// TypeScript.
    Typescript,
    /// The dialect of C that knows comments and nothing else.
    Ccomment,
    /// The dialect of C that knows preprocessor directives and nothing else.
    Preproc,
}

/// The language that the engine's table assigns to a lower-case extension.
///
/// `Javascript`, `Ccomment` and `Preproc` have no extension of their own.
pub open spec fn extension_language(ext: Seq<char>) -> Option<Language> {
    if ext == "js"@ || ext == "jsm"@ {
        Some(Language::Mozjs)
    } else if ext == "java"@ {
        Some(Language::Java)
    } else if ext == "rs"@ {
        Some(Language::Rust)
    } else if ext == "cpp"@ || ext == "cxx"@ || ext == "cc"@ || ext == "hxx"@ || ext == "hpp"@
        || ext == "c"@ || ext == "h"@ || ext == "hh"@ || ext == "inc"@ || ext == "mm"@ || ext
        == "m"@ {
        Some(Language::Cpp)
    } else if ext == "py"@ {
        Some(Language::Python)
    } else if ext == "tsx"@ {
        Some(Language::Tsx)
    } else if ext == "ts"@ || ext == "jsw"@ || ext == "jsmw"@ {
        Some(Language::Typescript)
    } else {
        None
    }
}

/// A character that no platform reads as part of a path's structure.
pub open spec fn is_name_char(c: char) -> bool {
    ||| 'a' <= c <= 'z'
    ||| 'A' <= c <= 'Z'
    ||| '0' <= c <= '9'
    ||| c == '_'
    ||| c == '-'
}

/// `file_name` is a stem of one or more name characters, a dot, and `ext`.
pub open spec fn has_extension(file_name: Seq<char>, ext: Seq<char>) -> bool {
    let dot = file_name.len() - ext.len() - 1;
    &&& dot > 0
    &&& file_name[dot] == '.'
    &&& file_name.subrange(dot + 1, file_name.len() as int) == ext
    &&& forall|i: int| 0 <= i < dot ==> is_name_char(#[trigger] file_name[i])
}

/// `language` is what the extension of `file_name` asks for, where the table
/// knows it and the name is a plain stem, a dot and the extension. Of any
/// other name this says nothing.
pub open spec fn extension_decides(file_name: Seq<char>, language: Option<Language>) -> bool {
    forall|ext: Seq<char>|
        #[trigger] has_extension(file_name, ext) && extension_language(ext) is Some ==> language
            == extension_language(ext)
}

/// The language of a source buffer and the name it is reported under.
///
/// `None` says that neither the file name nor the buffer lets the engine tell
/// the language. That is an outcome, not a fault. Where the file name is a
/// plain stem, a dot and an extension that the table knows, the extension
/// decides, whatever the buffer holds and also where it is empty.
pub fn identify(code: &[u8], file_name: &str) -> (r: (Option<Language>, String))
    ensures
        r.0 == identified(code@, file_name@).0,
        r.1@ == identified(code@, file_name@).1,
        extension_decides(file_name@, r.0),
{
    guess(code, file_name)
}

/// The table of extensions, entry by entry.
pub proof fn lemma_extension_table()
    ensures
        extension_language("js"@) == Some(Language::Mozjs),
        extension_language("jsm"@) == Some(Language::Mozjs),
        extension_language("java"@) == Some(Language::Java),
        extension_language("rs"@) == Some(Language::Rust),
        extension_language("cpp"@) == Some(Language::Cpp),
        extension_language("cxx"@) == Some(Language::Cpp),
        extension_language("cc"@) == Some(Language::Cpp),
        extension_language("hxx"@) == Some(Language::Cpp),
        extension_language("hpp"@) == Some(Language::Cpp),
        extension_language("c"@) == Some(Language::Cpp),
        extension_language("h"@) == Some(Language::Cpp),
        extension_language("hh"@) == Some(Language::Cpp),
        extension_language("inc"@) == Some(Language::Cpp),
        extension_language("mm"@) == Some(Language::Cpp),
        extension_language("m"@) == Some(Language::Cpp),
        extension_language("py"@) == Some(Language::Python),
        extension_language("tsx"@) == Some(Language::Tsx),
        extension_language("ts"@) == Some(Language::Typescript),
        extension_language("jsw"@) == Some(Language::Typescript),
        extension_language("jsmw"@) == Some(Language::Typescript),
{
    reveal_strlit("js");
    reveal_strlit("jsm");
    reveal_strlit("java");
    reveal_strlit("rs");
    reveal_strlit("cpp");
    reveal_strlit("cxx");
    reveal_strlit("cc");
    reveal_strlit("hxx");
    reveal_strlit("hpp");
    reveal_strlit("c");
    reveal_strlit("h");
    reveal_strlit("hh");
    reveal_strlit("inc");
    reveal_strlit("mm");
    reveal_strlit("m");
    reveal_strlit("py");
    reveal_strlit("tsx");
    reveal_strlit("ts");
    reveal_strlit("jsw");
    reveal_strlit("jsmw");
    // Two extensions differ in length or in one of their first three letters.
    assert("js"@.len() == 2 && "js"@[0] == 'j' && "js"@[1] == 's');
    assert("jsm"@.len() == 3 && "jsm"@[0] == 'j' && "jsm"@[1] == 's' && "jsm"@[2] == 'm');
    assert("java"@.len() == 4 && "java"@[0] == 'j' && "java"@[1] == 'a' && "java"@[2] == 'v');
    assert("rs"@.len() == 2 && "rs"@[0] == 'r' && "rs"@[1] == 's');
    assert("cpp"@.len() == 3 && "cpp"@[0] == 'c' && "cpp"@[1] == 'p' && "cpp"@[2] == 'p');
    assert("cxx"@.len() == 3 && "cxx"@[0] == 'c' && "cxx"@[1] == 'x' && "cxx"@[2] == 'x');
    assert("cc"@.len() == 2 && "cc"@[0] == 'c' && "cc"@[1] == 'c');
    assert("hxx"@.len() == 3 && "hxx"@[0] == 'h' && "hxx"@[1] == 'x' && "hxx"@[2] == 'x');
    assert("hpp"@.len() == 3 && "hpp"@[0] == 'h' && "hpp"@[1] == 'p' && "hpp"@[2] == 'p');
    assert("c"@.len() == 1 && "c"@[0] == 'c');
    assert("h"@.len() == 1 && "h"@[0] == 'h');
    assert("hh"@.len() == 2 && "hh"@[0] == 'h' && "hh"@[1] == 'h');
    assert("inc"@.len() == 3 && "inc"@[0] == 'i' && "inc"@[1] == 'n' && "inc"@[2] == 'c');
    assert("mm"@.len() == 2 && "mm"@[0] == 'm' && "mm"@[1] == 'm');
    assert("m"@.len() == 1 && "m"@[0] == 'm');
    assert("py"@.len() == 2 && "py"@[0] == 'p' && "py"@[1] == 'y');
    assert("tsx"@.len() == 3 && "tsx"@[0] == 't' && "tsx"@[1] == 's' && "tsx"@[2] == 'x');
    assert("ts"@.len() == 2 && "ts"@[0] == 't' && "ts"@[1] == 's');
    assert("jsw"@.len() == 3 && "jsw"@[0] == 'j' && "jsw"@[1] == 's' && "jsw"@[2] == 'w');
    assert("jsmw"@.len() == 4 && "jsmw"@[0] == 'j' && "jsmw"@[1] == 's' && "jsmw"@[2] == 'm');
}

} // verus!
