use vstd::prelude::*;

use crate::option_map::CompileOptionMap;
use crate::text::str_eq;

verus! {

/// How many compile option kinds exist.
pub const COMPILE_OPTION_COUNT: usize = 8;

/// Where the DSP source file to compile lives: a caller-supplied file, or a
/// temporary file that was written for one compilation.
#[derive(Clone, Debug)]
pub enum DspPath {
    File(String),
    Temp(String),
}

/// A `DspPath` as specifications see it.
pub enum DspPathView {
    File(Seq<char>),
    Temp(Seq<char>),
}

impl View for DspPath {
    type V = DspPathView;

    open spec fn view(&self) -> DspPathView {
        match self {
            DspPath::File(p) => DspPathView::File(p@),
            DspPath::Temp(p) => DspPathView::Temp(p@),
        }
    }
}

impl DspPathView {
    /// The characters of the path itself, whichever variant holds it.
    pub open spec fn path_chars(self) -> Seq<char> {
        match self {
            DspPathView::File(p) => p,
            DspPathView::Temp(p) => p,
        }
    }
}

impl DspPath {
    /// The path itself, whichever variant holds it.
    pub fn path(&self) -> (r: &String)
        ensures
            r@ == self@.path_chars(),
    {
        match self {
            DspPath::File(p) => p,
            DspPath::Temp(p) => p,
        }
    }
}

impl PartialEq for DspPath {
    /// Two caller-supplied paths are equal when their text is; a temporary
    /// path equals nothing, not even itself, since the file it names is
    /// private to one compilation.
    fn eq(&self, other: &Self) -> (r: bool) {
        match (self, other) {
            (DspPath::File(a), DspPath::File(b)) => str_eq(a.as_str(), b.as_str()),
            _ => false,
        }
    }
}

impl vstd::std_specs::cmp::PartialEqSpecImpl for DspPath {
    open spec fn obeys_eq_spec() -> bool {
        true
    }

    open spec fn eq_spec(&self, other: &Self) -> bool {
        match (self@, other@) {
            (DspPathView::File(a), DspPathView::File(b)) => a == b,
            _ => false,
        }
    }
}

/// One option of a DSP compiler invocation.  At most one option of each
/// kind is meaningful per invocation; `CompileOptionMap` coalesces them by
/// kind.
#[derive(Clone, Debug)]
pub enum CompileOption {
    /// `-a <file>`: wrapper architecture file.
    ArchFile(String),
    /// `-I <dir>`: add a directory to the library search path.
    ImportDir(String),
    /// `-xml`: generate an XML description file.
    Xml,
    /// `-json`: generate a JSON description file.
    Json,
    /// `-lang <lang>`: select the output language.
    Lang(String),
    /// `-wall`: print all warnings.
    DebugWarnings,
    /// `-t <sec>`: abort compilation after that many seconds.
    Timeout(String),
    /// The DSP source file, passed as the trailing argument.
    DspPath(DspPath),
}

/// A `CompileOption` as specifications see it.
pub enum CompileOptionView {
    ArchFile(Seq<char>),
    ImportDir(Seq<char>),
    Xml,
    Json,
    Lang(Seq<char>),
    DebugWarnings,
    Timeout(Seq<char>),
    DspPath(DspPathView),
}

impl View for CompileOption {
    type V = CompileOptionView;

    open spec fn view(&self) -> CompileOptionView {
        match self {
            CompileOption::ArchFile(p) => CompileOptionView::ArchFile(p@),
            CompileOption::ImportDir(p) => CompileOptionView::ImportDir(p@),
            CompileOption::Xml => CompileOptionView::Xml,
            CompileOption::Json => CompileOptionView::Json,
            CompileOption::Lang(n) => CompileOptionView::Lang(n@),
            CompileOption::DebugWarnings => CompileOptionView::DebugWarnings,
            CompileOption::Timeout(t) => CompileOptionView::Timeout(t@),
            CompileOption::DspPath(p) => CompileOptionView::DspPath(p@),
        }
    }
}

/// The kind of a `CompileOption`, used as a map key.
#[derive(Clone, Copy, Debug, PartialEq, Eq, Hash, Structural)]
pub enum CompileOptionDiscriminants {
    ArchFile,
    ImportDir,
    Xml,
    Json,
    Lang,
    DebugWarnings,
    Timeout,
    DspPath,
}

impl CompileOptionView {
    /// The kind of an option, in specifications.
    pub open spec fn tag(self) -> CompileOptionDiscriminants {
        match self {
            CompileOptionView::ArchFile(_) => CompileOptionDiscriminants::ArchFile,
            CompileOptionView::ImportDir(_) => CompileOptionDiscriminants::ImportDir,
            CompileOptionView::Xml => CompileOptionDiscriminants::Xml,
            CompileOptionView::Json => CompileOptionDiscriminants::Json,
            CompileOptionView::Lang(_) => CompileOptionDiscriminants::Lang,
            CompileOptionView::DebugWarnings => CompileOptionDiscriminants::DebugWarnings,
            CompileOptionView::Timeout(_) => CompileOptionDiscriminants::Timeout,
            CompileOptionView::DspPath(_) => CompileOptionDiscriminants::DspPath,
        }
    }

    /// The command arguments an option contributes, in specifications.
    pub open spec fn args(self) -> Seq<Seq<char>> {
        match self {
            CompileOptionView::ArchFile(p) => seq!["-a"@, p],
            CompileOptionView::ImportDir(p) => seq!["-I"@, p],
            CompileOptionView::Xml => seq!["-xml"@],
            CompileOptionView::Json => seq!["-json"@],
            CompileOptionView::Lang(n) => seq!["-lang"@, n],
            CompileOptionView::DebugWarnings => seq!["-wall"@],
            CompileOptionView::Timeout(t) => seq!["-t"@, t],
            CompileOptionView::DspPath(p) => seq![p.path_chars()],
        }
    }
}

impl CompileOptionDiscriminants {
    /// The storage slot a kind selects, in specifications.
    pub open spec fn index_spec(self) -> int {
        match self {
            CompileOptionDiscriminants::ArchFile => 0,
            CompileOptionDiscriminants::ImportDir => 1,
            CompileOptionDiscriminants::Xml => 2,
            CompileOptionDiscriminants::Json => 3,
            CompileOptionDiscriminants::Lang => 4,
            CompileOptionDiscriminants::DebugWarnings => 5,
            CompileOptionDiscriminants::Timeout => 6,
            CompileOptionDiscriminants::DspPath => 7,
        }
    }

    /// The storage slot this kind selects; distinct kinds select distinct
    /// slots.
    pub fn index(self) -> (i: usize)
        ensures
            i == self.index_spec(),
            i < COMPILE_OPTION_COUNT,
    {
        match self {
            CompileOptionDiscriminants::ArchFile => 0usize,
            CompileOptionDiscriminants::ImportDir => 1usize,
            CompileOptionDiscriminants::Xml => 2usize,
            CompileOptionDiscriminants::Json => 3usize,
            CompileOptionDiscriminants::Lang => 4usize,
            CompileOptionDiscriminants::DebugWarnings => 5usize,
            CompileOptionDiscriminants::Timeout => 6usize,
            CompileOptionDiscriminants::DspPath => 7usize,
        }
    }
}

/// Every kind selects a slot below `COMPILE_OPTION_COUNT`, and no two share
/// one.
pub proof fn lemma_compile_option_index_injective(
    a: CompileOptionDiscriminants,
    b: CompileOptionDiscriminants,
)
    ensures
        0 <= a.index_spec() < COMPILE_OPTION_COUNT,
        a.index_spec() == b.index_spec() ==> a == b,
{
}

impl PartialEq for CompileOption {
    /// As in the option set this models, equality compares kinds only: two
    /// options of the same kind are "equal" whatever their payloads, since
    /// only one of a kind can stand in an invocation.
    fn eq(&self, other: &Self) -> (r: bool) {
        self.discriminant() == other.discriminant()
    }
}

impl vstd::std_specs::cmp::PartialEqSpecImpl for CompileOption {
    open spec fn obeys_eq_spec() -> bool {
        true
    }

    open spec fn eq_spec(&self, other: &Self) -> bool {
        self@.tag() == other@.tag()
    }
}

/// Why a key (and what follows it) does not parse as a compile option.
#[derive(Clone, Debug, PartialEq, Eq)]
pub enum CompileOptionParseError {
    /// The key is known to the compiler but not carried by this option set.
    Unimplemented(String),
    /// The key is not a compile option at all.
    Unknown(String),
    /// The key needs a following argument and none was there.
    MissingArgument(String),
}

/// A `CompileOptionParseError` as specifications see it.
pub enum CompileOptionParseErrorView {
    Unimplemented(Seq<char>),
    Unknown(Seq<char>),
    MissingArgument(Seq<char>),
}

impl View for CompileOptionParseError {
    type V = CompileOptionParseErrorView;

    open spec fn view(&self) -> CompileOptionParseErrorView {
        match self {
            CompileOptionParseError::Unimplemented(k) => CompileOptionParseErrorView::Unimplemented(
                k@,
            ),
            CompileOptionParseError::Unknown(k) => CompileOptionParseErrorView::Unknown(k@),
            CompileOptionParseError::MissingArgument(
                k,
            ) => CompileOptionParseErrorView::MissingArgument(k@),
        }
    }
}

/// Keys the DSP compiler accepts but this option set does not carry.
pub open spec fn is_unimplemented_key(k: Seq<char>) -> bool {
    ||| k == "-i"@
    ||| k == "--inline-architecture-files"@
    ||| k == "-A"@
    ||| k == "--architecture-dir"@
    ||| k == "-L"@
    ||| k == "--library"@
    ||| k == "-o"@
    ||| k == "-e"@
    ||| k == "--export-dsp"@
    ||| k == "-uim"@
    ||| k == "--user-interface-macros"@
    ||| k == "-O"@
    ||| k == "--output-dir"@
    ||| k == "-ps"@
    ||| k == "--postscript"@
    ||| k == "-svg"@
    ||| k == "--svg"@
    ||| k == "-sd"@
    ||| k == "--simplify-diagrams"@
    ||| k == "-drf"@
    ||| k == "--draw-route-frame"@
    ||| k == "-f"@
    ||| k == "--fold"@
    ||| k == "-fc"@
    ||| k == "--fold-complexity"@
    ||| k == "-mns"@
    ||| k == "--max-name-size"@
    ||| k == "-sn"@
    ||| k == "--simple-names"@
    ||| k == "-blur"@
    ||| k == "--shadow-blur"@
    ||| k == "-sc"@
    ||| k == "--scaled-svg"@
    ||| k == "-mdoc"@
    ||| k == "--mathdoc"@
    ||| k == "-mdlang"@
    ||| k == "--mathdoc-lang"@
    ||| k == "-stripmdoc"@
    ||| k == "--strip-mdoc-tags"@
    ||| k == "-d"@
    ||| k == "--details"@
    ||| k == "-time"@
    ||| k == "--compilation-time"@
    ||| k == "-flist"@
    ||| k == "--file-list"@
    ||| k == "-tg"@
    ||| k == "--task-graph"@
    ||| k == "-sg"@
    ||| k == "--signal-graph"@
    ||| k == "-norm"@
    ||| k == "--normalized-form"@
    ||| k == "-me"@
    ||| k == "--math-exceptions"@
    ||| k == "-sts"@
    ||| k == "--strict-select"@
    ||| k == "-h"@
    ||| k == "--help"@
    ||| k == "-v"@
    ||| k == "--version"@
    ||| k == "-libdir"@
    ||| k == "--libdir"@
    ||| k == "-includedir --includedir"@
    ||| k == "-archdir"@
    ||| k == "--archdir"@
    ||| k == "-dspdir"@
    ||| k == "--dspdir"@
    ||| k == "-pathslist"@
    ||| k == "--pathslist"@
}

/// What parsing one key yields: the option and whether it consumed the
/// following word, or the error naming the key.
pub open spec fn parse_option_spec(k: Seq<char>, next: Option<Seq<char>>) -> Result<
    (CompileOptionView, bool),
    CompileOptionParseErrorView,
> {
    if k == "-a"@ {
        match next {
            Some(n) => Ok((CompileOptionView::ArchFile(n), true)),
            None => Err(CompileOptionParseErrorView::MissingArgument(k)),
        }
    } else if k == "-I"@ || k == "--import-dir"@ {
        match next {
            Some(n) => Ok((CompileOptionView::ImportDir(n), true)),
            None => Err(CompileOptionParseErrorView::MissingArgument(k)),
        }
    } else if k == "-xml"@ {
        Ok((CompileOptionView::Xml, false))
    } else if k == "-json"@ {
        Ok((CompileOptionView::Json, false))
    } else if k == "-wall"@ || k == "--warning-all"@ {
        Ok((CompileOptionView::DebugWarnings, false))
    } else if k == "-t"@ || k == "--timeout"@ {
        match next {
            Some(n) => Ok((CompileOptionView::Timeout(n), true)),
            None => Err(CompileOptionParseErrorView::MissingArgument(k)),
        }
    } else if is_unimplemented_key(k) {
        Err(CompileOptionParseErrorView::Unimplemented(k))
    } else {
        Err(CompileOptionParseErrorView::Unknown(k))
    }
}

/// What parsing a whole word list yields, starting at word `i` with the
/// options of `m` already collected: the final option set, or the error of
/// the first word that does not parse.
pub open spec fn arg_map_spec(
    m: Map<CompileOptionDiscriminants, CompileOptionView>,
    args: Seq<Seq<char>>,
    i: int,
) -> Result<Map<CompileOptionDiscriminants, CompileOptionView>, CompileOptionParseErrorView>
    decreases args.len() - i,
{
    if i < 0 || i >= args.len() {
        Ok(m)
    } else {
        match parse_option_spec(
            args[i],
            if i + 1 < args.len() {
                Some(args[i + 1])
            } else {
                None
            },
        ) {
            Ok((o, consumed)) => {
                let step: int = if consumed && i + 2 <= args.len() {
                    2
                } else {
                    1
                };
                arg_map_spec(m.insert(o.tag(), o), args, i + step)
            },
            Err(e) => Err(e),
        }
    }
}

/// The view of what `CompileOption::from_str_iter` returned.
pub open spec fn parse_result_view(
    r: Result<(CompileOption, bool), CompileOptionParseError>,
) -> Result<(CompileOptionView, bool), CompileOptionParseErrorView> {
    match r {
        Ok((o, consumed)) => Ok((o@, consumed)),
        Err(e) => Err(e@),
    }
}

/// The view of the word following a key, if any.
pub open spec fn opt_str_view(next: Option<&String>) -> Option<Seq<char>> {
    match next {
        Some(n) => Some(n@),
        None => None,
    }
}

/// Whether `key` is a compiler key that this option set knows of but does
/// not carry.
fn is_unimplemented(key: &str) -> (r: bool)
    ensures
        r == is_unimplemented_key(key@),
{
    str_eq(key, "-i") || str_eq(key, "--inline-architecture-files") || str_eq(key, "-A") || str_eq(
        key,
        "--architecture-dir",
    ) || str_eq(key, "-L") || str_eq(key, "--library") || str_eq(key, "-o") || str_eq(key, "-e")
        || str_eq(key, "--export-dsp") || str_eq(key, "-uim") || str_eq(
        key,
        "--user-interface-macros",
    ) || str_eq(key, "-O") || str_eq(key, "--output-dir") || str_eq(key, "-ps") || str_eq(
        key,
        "--postscript",
    ) || str_eq(key, "-svg") || str_eq(key, "--svg") || str_eq(key, "-sd") || str_eq(
        key,
        "--simplify-diagrams",
    ) || str_eq(key, "-drf") || str_eq(key, "--draw-route-frame") || str_eq(key, "-f") || str_eq(
        key,
        "--fold",
    ) || str_eq(key, "-fc") || str_eq(key, "--fold-complexity") || str_eq(key, "-mns") || str_eq(
        key,
        "--max-name-size",
    ) || str_eq(key, "-sn") || str_eq(key, "--simple-names") || str_eq(key, "-blur") || str_eq(
        key,
        "--shadow-blur",
    ) || str_eq(key, "-sc") || str_eq(key, "--scaled-svg") || str_eq(key, "-mdoc") || str_eq(
        key,
        "--mathdoc",
    ) || str_eq(key, "-mdlang") || str_eq(key, "--mathdoc-lang") || str_eq(key, "-stripmdoc")
        || str_eq(key, "--strip-mdoc-tags") || str_eq(key, "-d") || str_eq(key, "--details")
        || str_eq(key, "-time") || str_eq(key, "--compilation-time") || str_eq(key, "-flist")
        || str_eq(key, "--file-list") || str_eq(key, "-tg") || str_eq(key, "--task-graph")
        || str_eq(key, "-sg") || str_eq(key, "--signal-graph") || str_eq(key, "-norm") || str_eq(
        key,
        "--normalized-form",
    ) || str_eq(key, "-me") || str_eq(key, "--math-exceptions") || str_eq(key, "-sts") || str_eq(
        key,
        "--strict-select",
    ) || str_eq(key, "-h") || str_eq(key, "--help") || str_eq(key, "-v") || str_eq(key, "--version")
        || str_eq(key, "-libdir") || str_eq(key, "--libdir") || str_eq(
        key,
        "-includedir --includedir",
    ) || str_eq(key, "-archdir") || str_eq(key, "--archdir") || str_eq(key, "-dspdir") || str_eq(
        key,
        "--dspdir",
    ) || str_eq(key, "-pathslist") || str_eq(key, "--pathslist")
}

impl CompileOption {
    /// The kind of this option.
    pub fn discriminant(&self) -> (t: CompileOptionDiscriminants)
        ensures
            t == self@.tag(),
    {
        match self {
            CompileOption::ArchFile(_) => CompileOptionDiscriminants::ArchFile,
            CompileOption::ImportDir(_) => CompileOptionDiscriminants::ImportDir,
            CompileOption::Xml => CompileOptionDiscriminants::Xml,
            CompileOption::Json => CompileOptionDiscriminants::Json,
            CompileOption::Lang(_) => CompileOptionDiscriminants::Lang,
            CompileOption::DebugWarnings => CompileOptionDiscriminants::DebugWarnings,
            CompileOption::Timeout(_) => CompileOptionDiscriminants::Timeout,
            CompileOption::DspPath(_) => CompileOptionDiscriminants::DspPath,
        }
    }

    /// The default output language: Rust.
    pub fn default_lang() -> (r: Self)
        ensures
            r@ == CompileOptionView::Lang("rust"@),
    {
        CompileOption::Lang(String::from_str("rust"))
    }

    /// The default timeout: none (zero seconds means no limit).
    pub fn default_timeout() -> (r: Self)
        ensures
            r@ == CompileOptionView::Timeout("0"@),
    {
        CompileOption::Timeout(String::from_str("0"))
    }

    /// The option naming a caller-supplied DSP source file.
    pub fn dsp_path(path: String) -> (r: Self)
        ensures
            r@ == CompileOptionView::DspPath(DspPathView::File(path@)),
    {
        CompileOption::DspPath(DspPath::File(path))
    }

    /// The option naming a temporary DSP source file.
    pub fn temp_dsp_path(path: String) -> (r: Self)
        ensures
            r@ == CompileOptionView::DspPath(DspPathView::Temp(path@)),
    {
        CompileOption::DspPath(DspPath::Temp(path))
    }

    /// Parse one key of a compiler command line, taking the following word
    /// where the key requires one and telling the caller whether it did.
    /// Rejected keys name themselves in the error.
    pub fn from_str_iter(key: &str, next: Option<&String>) -> (r: Result<
        (CompileOption, bool),
        CompileOptionParseError,
    >)
        ensures
            parse_result_view(r) == parse_option_spec(key@, opt_str_view(next)),
    {
        if str_eq(key, "-a") {
            match next {
                Some(n) => Ok((CompileOption::ArchFile(n.clone()), true)),
                None => Err(CompileOptionParseError::MissingArgument(key.to_owned())),
            }
        } else if str_eq(key, "-I") || str_eq(key, "--import-dir") {
            match next {
                Some(n) => Ok((CompileOption::ImportDir(n.clone()), true)),
                None => Err(CompileOptionParseError::MissingArgument(key.to_owned())),
            }
        } else if str_eq(key, "-xml") {
            Ok((CompileOption::Xml, false))
        } else if str_eq(key, "-json") {
            Ok((CompileOption::Json, false))
        } else if str_eq(key, "-wall") || str_eq(key, "--warning-all") {
            Ok((CompileOption::DebugWarnings, false))
        } else if str_eq(key, "-t") || str_eq(key, "--timeout") {
            match next {
                Some(n) => Ok((CompileOption::Timeout(n.clone()), true)),
                None => Err(CompileOptionParseError::MissingArgument(key.to_owned())),
            }
        } else if is_unimplemented(key) {
            Err(CompileOptionParseError::Unimplemented(key.to_owned()))
        } else {
            Err(CompileOptionParseError::Unknown(key.to_owned()))
        }
    }

    /// Parse a whole word list into a compile option set, coalescing by
    /// kind, or stop at the first word that does not parse.
    pub fn arg_map_from_str_iter(args: &Vec<String>) -> (r: Result<
        CompileOptionMap,
        CompileOptionParseError,
    >)
        ensures
            match r {
                Ok(m) => m.wf() && arg_map_spec(
                    Map::<CompileOptionDiscriminants, CompileOptionView>::empty(),
                    args.deep_view(),
                    0,
                ) == Ok::<_, CompileOptionParseErrorView>(m@),
                Err(e) => arg_map_spec(
                    Map::<CompileOptionDiscriminants, CompileOptionView>::empty(),
                    args.deep_view(),
                    0,
                ) == Err::<Map<CompileOptionDiscriminants, CompileOptionView>, _>(e@),
            },
    {
        let mut m = CompileOptionMap::new();
        let mut i: usize = 0;
        while i < args.len()
            invariant
                i <= args.len(),
                m.wf(),
                arg_map_spec(
                    Map::<CompileOptionDiscriminants, CompileOptionView>::empty(),
                    args.deep_view(),
                    0,
                ) == arg_map_spec(m@, args.deep_view(), i as int),
            decreases args.len() - i,
        {
            let next: Option<&String> = if i + 1 < args.len() {
                Some(&args[i + 1])
            } else {
                None
            };
            match CompileOption::from_str_iter(args[i].as_str(), next) {
                Ok((o, consumed)) => {
                    m.insert(o);
                    i = if consumed {
                        i + 2
                    } else {
                        i + 1
                    };
                },
                Err(e) => {
                    return Err(e);
                },
            }
        }
        Ok(m)
    }

    /// The command arguments this option passes to the compiler.
    pub fn to_command_args(&self) -> (r: Vec<String>)
        ensures
            r.deep_view() == self@.args(),
    {
        let mut r: Vec<String> = Vec::new();
        match self {
            CompileOption::ArchFile(p) => {
                r.push(String::from_str("-a"));
                r.push(p.clone());
            },
            CompileOption::ImportDir(p) => {
                r.push(String::from_str("-I"));
                r.push(p.clone());
            },
            CompileOption::Xml => {
                r.push(String::from_str("-xml"));
            },
            CompileOption::Json => {
                r.push(String::from_str("-json"));
            },
            CompileOption::Lang(n) => {
                r.push(String::from_str("-lang"));
                r.push(n.clone());
            },
            CompileOption::DebugWarnings => {
                r.push(String::from_str("-wall"));
            },
            CompileOption::Timeout(t) => {
                r.push(String::from_str("-t"));
                r.push(t.clone());
            },
            CompileOption::DspPath(p) => {
                r.push(p.path().clone());
            },
        }
        proof {
            assert(r.deep_view() =~~= self@.args());
        }
        r
    }
}

} // verus!
