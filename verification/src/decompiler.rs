//! The decompiler's boundary: target languages and the decompiler's
//! configuration surface. Rendering a whole module belongs with the
//! excluded syntax tree.

use vstd::prelude::*;
use vstd::string::*;
use crate::codegen::{CodegenConfig, IndentStyle};
use crate::text::push_char;

verus! {

/// Target languages for decompilation.
#[derive(Debug, Clone, Copy, PartialEq, Eq, Hash, Structural)]
pub enum TargetLang {
    Python,
    TypeScript,
    JavaScript,
    Rust,
    C,
}

/// The file extension used for a target language.
pub open spec fn lang_extension(l: TargetLang) -> Seq<char> {
    match l {
        TargetLang::Python => "py"@,
        TargetLang::TypeScript | TargetLang::JavaScript => "ts"@,
        TargetLang::Rust => "rs"@,
        TargetLang::C => "c"@,
    }
}

/// The display name of a target language.
pub open spec fn lang_name(l: TargetLang) -> Seq<char> {
    match l {
        TargetLang::Python => "Python"@,
        TargetLang::TypeScript => "TypeScript"@,
        TargetLang::JavaScript => "JavaScript"@,
        TargetLang::Rust => "Rust"@,
        TargetLang::C => "C"@,
    }
}

/// The ASCII-lowercase counterpart of a character; anything but an ASCII
/// capital letter stays itself.
pub open spec fn lower_char(c: char) -> char {
    if 65 <= c as int && c as int <= 90 {
        ((c as int + 32) as u8) as char
    } else {
        c
    }
}

/// A character sequence, ASCII-lowercased.
pub open spec fn lower_chars(s: Seq<char>) -> Seq<char> {
    s.map_values(|c: char| lower_char(c))
}

/// The target language a name denotes, compared after ASCII-lowercasing:
/// full names and file extensions are both accepted.
pub open spec fn lang_from_name(s: Seq<char>) -> Option<TargetLang> {
    let l = lower_chars(s);
    if l == "python"@ || l == "py"@ {
        Some(TargetLang::Python)
    } else if l == "typescript"@ || l == "ts"@ {
        Some(TargetLang::TypeScript)
    } else if l == "javascript"@ || l == "js"@ {
        Some(TargetLang::JavaScript)
    } else if l == "rust"@ || l == "rs"@ {
        Some(TargetLang::Rust)
    } else if l == "c"@ {
        Some(TargetLang::C)
    } else {
        None
    }
}

fn lower_string(s: &str) -> (r: String)
    ensures
        r@ == lower_chars(s@),
{
    let n = s.unicode_len();
    let mut out = String::new();
    let mut i: usize = 0;
    proof {
        assert(out@ =~= lower_chars(s@.subrange(0, 0)));
    }
    while i < n
        invariant
            n == s@.len(),
            0 <= i <= n,
            out@ == lower_chars(s@.subrange(0, i as int)),
        decreases n - i,
    {
        let c = s.get_char(i);
        let cv = c as u32;
        let lc: char = if 65 <= cv && cv <= 90 {
            (((cv as u8) + 32) as u8) as char
        } else {
            c
        };
        proof {
            assert(lc == lower_char(c));
        }
        push_char(&mut out, lc);
        proof {
            assert(s@.subrange(0, i + 1).drop_last() =~= s@.subrange(0, i as int));
            assert(out@ =~= lower_chars(s@.subrange(0, i + 1)));
        }
        i += 1;
    }
    proof {
        assert(s@.subrange(0, n as int) =~= s@);
    }
    out
}

impl TargetLang {
    /// The file extension used for the language.
    pub fn extension(self) -> (r: &'static str)
        ensures
            r@ == lang_extension(self),
    {
        match self {
            TargetLang::Python => "py",
            TargetLang::TypeScript | TargetLang::JavaScript => "ts",
            TargetLang::Rust => "rs",
            TargetLang::C => "c",
        }
    }

    /// The display name of the language.
    pub fn name(self) -> (r: &'static str)
        ensures
            r@ == lang_name(self),
    {
        match self {
            TargetLang::Python => "Python",
            TargetLang::TypeScript => "TypeScript",
            TargetLang::JavaScript => "JavaScript",
            TargetLang::Rust => "Rust",
            TargetLang::C => "C",
        }
    }

    /// The target language a name denotes, case-insensitively.
    pub fn from_name(s: &str) -> (r: Option<TargetLang>)
        ensures
            r == lang_from_name(s@),
    {
        let l = lower_string(s);
        if l == String::from_str("python") || l == String::from_str("py") {
            Some(TargetLang::Python)
        } else if l == String::from_str("typescript") || l == String::from_str("ts") {
            Some(TargetLang::TypeScript)
        } else if l == String::from_str("javascript") || l == String::from_str("js") {
            Some(TargetLang::JavaScript)
        } else if l == String::from_str("rust") || l == String::from_str("rs") {
            Some(TargetLang::Rust)
        } else if l == String::from_str("c") {
            Some(TargetLang::C)
        } else {
            None
        }
    }
}

/// The decompiler: a target language and a code generation configuration.
/// Rendering lives with the excluded syntax tree.
#[derive(Debug, Clone, Copy)]
pub struct Decompiler {
    lang: TargetLang,
    config: CodegenConfig,
}

impl Decompiler {
    /// The chosen target language.
    pub closed spec fn spec_lang(&self) -> TargetLang {
        self.lang
    }

    /// The chosen configuration.
    pub closed spec fn spec_cfg(&self) -> CodegenConfig {
        self.config
    }

    /// A decompiler for the target language, with the default
    /// configuration.
    pub fn new(lang: TargetLang) -> (d: Decompiler)
        ensures
            d.spec_lang() == lang,
            d.spec_cfg().indent == IndentStyle::Spaces(4usize),
    {
        Decompiler { lang, config: CodegenConfig::standard() }
    }

    /// A decompiler with a custom configuration.
    pub fn with_config(lang: TargetLang, config: CodegenConfig) -> (d: Decompiler)
        ensures
            d.spec_lang() == lang,
            d.spec_cfg() == config,
    {
        Decompiler { lang, config }
    }

    /// The same decompiler with another indentation style.
    pub fn with_indent(self, style: IndentStyle) -> (d: Decompiler)
        ensures
            d.spec_lang() == self.spec_lang(),
            d.spec_cfg() == (CodegenConfig { indent: style, ..self.spec_cfg() }),
    {
        Decompiler { lang: self.lang, config: CodegenConfig { indent: style, ..self.config } }
    }
}

/// The Python code generator. Its rendering of whole modules lives with
/// the excluded syntax tree; the core keeps its configuration surface.
#[derive(Debug, Clone, Copy)]
pub struct PythonCodegen {
    config: CodegenConfig,
}

impl PythonCodegen {
    /// The chosen configuration.
    pub closed spec fn spec_cfg(&self) -> CodegenConfig {
        self.config
    }

    /// A generator with the given configuration.
    pub fn new(config: CodegenConfig) -> (g: PythonCodegen)
        ensures
            g.spec_cfg() == config,
    {
        PythonCodegen { config }
    }

    /// The configuration the generator uses.
    pub fn config(&self) -> (c: &CodegenConfig)
        ensures
            *c == self.spec_cfg(),
    {
        &self.config
    }
}

} // verus!
