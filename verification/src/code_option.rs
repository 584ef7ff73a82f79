use vstd::prelude::*;

use crate::text::str_eq;

verus! {

/// How many code-generation option kinds exist.
pub const CODE_OPTION_COUNT: usize = 4;

/// A code-generation flag for the DSP compiler.  At most one option of each
/// kind is meaningful per invocation, so these are collected in an
/// `OptionMap` keyed by `CodeOptionDiscriminants`.
#[derive(Clone, Debug, PartialEq)]
pub enum CodeOption {
    /// Name of the generated DSP struct (`-cn <name>`).
    StructName(String),
    /// Compute with 64-bit floats (`-double`).
    DoublePrecision,
    /// Generate vectorized code (`-vec`).
    Vectorize,
    /// Generate in-place code (`-inpl`).
    InPlace,
}

/// The kind of a `CodeOption`, used as a map key.
#[derive(Clone, Copy, Debug, PartialEq, Eq, Hash, Structural)]
pub enum CodeOptionDiscriminants {
    StructName,
    DoublePrecision,
    Vectorize,
    InPlace,
}

/// A `CodeOption` as specifications see it, its text as character
/// sequences.
pub enum CodeOptionView {
    StructName(Seq<char>),
    DoublePrecision,
    Vectorize,
    InPlace,
}

impl View for CodeOption {
    type V = CodeOptionView;

    open spec fn view(&self) -> CodeOptionView {
        match self {
            CodeOption::StructName(n) => CodeOptionView::StructName(n@),
            CodeOption::DoublePrecision => CodeOptionView::DoublePrecision,
            CodeOption::Vectorize => CodeOptionView::Vectorize,
            CodeOption::InPlace => CodeOptionView::InPlace,
        }
    }
}

impl CodeOptionView {
    /// The kind of an option, in specifications.
    pub open spec fn tag(self) -> CodeOptionDiscriminants {
        match self {
            CodeOptionView::StructName(_) => CodeOptionDiscriminants::StructName,
            CodeOptionView::DoublePrecision => CodeOptionDiscriminants::DoublePrecision,
            CodeOptionView::Vectorize => CodeOptionDiscriminants::Vectorize,
            CodeOptionView::InPlace => CodeOptionDiscriminants::InPlace,
        }
    }

    /// The command arguments an option contributes, in specifications.
    pub open spec fn args(self) -> Seq<Seq<char>> {
        match self {
            CodeOptionView::StructName(n) => seq!["-cn"@, n],
            CodeOptionView::DoublePrecision => seq!["-double"@],
            CodeOptionView::Vectorize => seq!["-vec"@],
            CodeOptionView::InPlace => seq!["-inpl"@],
        }
    }
}

impl CodeOptionDiscriminants {
    /// The storage slot a kind selects, in specifications.
    pub open spec fn index_spec(self) -> int {
        match self {
            CodeOptionDiscriminants::StructName => 0,
            CodeOptionDiscriminants::DoublePrecision => 1,
            CodeOptionDiscriminants::Vectorize => 2,
            CodeOptionDiscriminants::InPlace => 3,
        }
    }

    /// The storage slot this kind selects; distinct kinds select distinct
    /// slots.
    pub fn index(self) -> (i: usize)
        ensures
            i == self.index_spec(),
            i < CODE_OPTION_COUNT,
    {
        match self {
            CodeOptionDiscriminants::StructName => 0usize,
            CodeOptionDiscriminants::DoublePrecision => 1usize,
            CodeOptionDiscriminants::Vectorize => 2usize,
            CodeOptionDiscriminants::InPlace => 3usize,
        }
    }
}

/// Every kind selects a slot below `CODE_OPTION_COUNT`, and no two share
/// one.
pub proof fn lemma_code_option_index_injective(a: CodeOptionDiscriminants, b: CodeOptionDiscriminants)
    ensures
        0 <= a.index_spec() < CODE_OPTION_COUNT,
        a.index_spec() == b.index_spec() ==> a == b,
{
}

/// Error of `CodeOption::from_str`: the given name is not one of the
/// parameterless option names.
#[derive(Clone, Debug, PartialEq, Eq, Structural)]
pub struct CodeOptionParseError;

impl CodeOption {
    /// The kind of this option.
    pub fn discriminant(&self) -> (t: CodeOptionDiscriminants)
        ensures
            t == self@.tag(),
    {
        match self {
            CodeOption::StructName(_) => CodeOptionDiscriminants::StructName,
            CodeOption::DoublePrecision => CodeOptionDiscriminants::DoublePrecision,
            CodeOption::Vectorize => CodeOptionDiscriminants::Vectorize,
            CodeOption::InPlace => CodeOptionDiscriminants::InPlace,
        }
    }

    /// Parse an option from its variant name.  Only the parameterless
    /// options can be named this way; every other name is rejected.
    pub fn from_str(name: &str) -> (r: Result<CodeOption, CodeOptionParseError>)
        ensures
            name@ == "DoublePrecision"@ ==> r == Ok::<CodeOption, CodeOptionParseError>(
                CodeOption::DoublePrecision,
            ),
            name@ == "Vectorize"@ ==> r == Ok::<CodeOption, CodeOptionParseError>(
                CodeOption::Vectorize,
            ),
            name@ == "InPlace"@ ==> r == Ok::<CodeOption, CodeOptionParseError>(CodeOption::InPlace),
            name@ != "DoublePrecision"@ && name@ != "Vectorize"@ && name@ != "InPlace"@ ==> r
                == Err::<CodeOption, CodeOptionParseError>(CodeOptionParseError),
    {
        proof {
            reveal_strlit("DoublePrecision");
            reveal_strlit("Vectorize");
            reveal_strlit("InPlace");
            assert("DoublePrecision"@.len() == 15);
            assert("Vectorize"@.len() == 9);
            assert("InPlace"@.len() == 7);
        }
        if str_eq(name, "DoublePrecision") {
            Ok(CodeOption::DoublePrecision)
        } else if str_eq(name, "Vectorize") {
            Ok(CodeOption::Vectorize)
        } else if str_eq(name, "InPlace") {
            Ok(CodeOption::InPlace)
        } else {
            Err(CodeOptionParseError)
        }
    }

    /// The command arguments this option passes to the compiler.
    pub fn to_command_args(&self) -> (r: Vec<String>)
        ensures
            r.deep_view() == self@.args(),
    {
        let mut r: Vec<String> = Vec::new();
        match self {
            CodeOption::StructName(n) => {
                r.push(String::from_str("-cn"));
                r.push(n.clone());
            },
            CodeOption::DoublePrecision => {
                r.push(String::from_str("-double"));
            },
            CodeOption::Vectorize => {
                r.push(String::from_str("-vec"));
            },
            CodeOption::InPlace => {
                r.push(String::from_str("-inpl"));
            },
        }
        proof {
            assert(r.deep_view() =~~= self@.args());
        }
        r
    }
}

} // verus!
