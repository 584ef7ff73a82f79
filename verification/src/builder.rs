use vstd::prelude::*;

use crate::casing::{camel_of, snake_of, to_snake_case, to_upper_camel_case};
use crate::code_option::{CodeOption, CodeOptionDiscriminants, CodeOptionView};
use crate::compile_option::{DspPath, DspPathView};
use crate::option_map::{map_args, OptionMap};
use crate::text::{
    ext_spec, file_stem, file_stem_spec, replace_all, replaced_from, split_ext, without_ext,
};

verus! {

/// Wraps generated DSP code in the plain architecture: attribute prelude and
/// shared type imports, nothing more.  The wrapping itself rewrites source
/// text and is done by the unverified layer around this crate; this marker
/// selects it.
#[derive(Clone, Copy, Debug, PartialEq, Eq, Structural)]
pub struct ArchitectureDefault {}

/// Wraps generated DSP code in a module together with the user-interface
/// enumerations derived from the compiler's JSON description.  As with
/// `ArchitectureDefault`, the rewriting itself is done by the unverified
/// layer; this marker selects it.
#[derive(Clone, Copy, Debug, PartialEq, Eq, Structural)]
pub struct ArchitectureUI {}

/// Which wrapping object an `Architecture::Object` stands for.
#[derive(Clone, Copy, Debug, PartialEq, Eq, Structural)]
pub enum ArchitectureObject {
    Default(ArchitectureDefault),
    UI(ArchitectureUI),
}

/// How the generated DSP code is wrapped into a Rust source file.
#[derive(Clone, Debug)]
pub enum Architecture {
    /// No architecture chosen; the plain wrapping is applied.
    Unspecified,
    /// Reserved for wrapping by a caller-supplied function.
    Function(bool),
    /// Wrapping by one of the known wrapping objects.
    Object(ArchitectureObject),
    /// Wrapping by an architecture file with `<<moduleName>>` and
    /// `<<structName>>` placeholders, passed to the compiler with `-a`.
    File(String),
}

impl Architecture {
    /// The file to hand to the compiler's `-a` flag, where the architecture
    /// is one.
    pub fn to_command_arg(&self) -> (r: Option<&String>)
        ensures
            match r {
                Some(p) => self matches Architecture::File(f) && p@ == f@,
                None => !(self matches Architecture::File(_)),
            },
    {
        match self {
            Architecture::File(arch_file) => Some(arch_file),
            _ => None,
        }
    }
}

/// The per-invocation options of a compiler run, one field per concern.
pub struct CompileOptions {
    /// How the generated code is wrapped.
    pub architecture: Architecture,
    /// `-I <dir>`: an extra library search directory.
    pub import_dir: Option<String>,
    /// `-xml`: ask for an XML description file.
    pub xml: bool,
    /// `-json`: ask for a JSON description file.
    pub json: bool,
    /// `-lang <lang>`: the output language.
    pub lang: String,
    /// `-wall`: print all warnings.
    pub debug_warnings: bool,
    /// `-t <sec>`: abort compilation after that many seconds.
    pub timeout: Option<String>,
    /// The DSP source file; the compiler cannot run without one.
    pub dsp_path: Option<DspPath>,
}

impl CompileOptions {
    /// The command arguments of these options, in specifications.
    pub open spec fn args_spec(self) -> Seq<Seq<char>> {
        (match self.architecture {
            Architecture::File(p) => seq!["-a"@, p@],
            _ => Seq::empty(),
        }) + (match self.import_dir {
            Some(d) => seq!["-I"@, d@],
            None => Seq::empty(),
        }) + (if self.xml {
            seq!["-xml"@]
        } else {
            Seq::empty()
        }) + (if self.json {
            seq!["-json"@]
        } else {
            Seq::empty()
        }) + seq!["-lang"@, self.lang@] + (if self.debug_warnings {
            seq!["-wall"@]
        } else {
            Seq::empty()
        }) + (match self.timeout {
            Some(t) => seq!["-t"@, t@],
            None => Seq::empty(),
        }) + (match self.dsp_path {
            Some(p) => seq![p@.path_chars()],
            None => Seq::empty(),
        })
    }

    /// The command arguments of these options, flag by flag, the DSP source
    /// file last.
    pub fn to_command_args(&self) -> (r: Vec<String>)
        requires
            self.dsp_path is Some,
        ensures
            r.deep_view() == self.args_spec(),
    {
        let mut r: Vec<String> = Vec::new();
        if let Architecture::File(p) = &self.architecture {
            r.push(String::from_str("-a"));
            r.push(p.clone());
        }
        if let Some(d) = &self.import_dir {
            r.push(String::from_str("-I"));
            r.push(d.clone());
        }
        if self.xml {
            r.push(String::from_str("-xml"));
        }
        if self.json {
            r.push(String::from_str("-json"));
        }
        r.push(String::from_str("-lang"));
        r.push(self.lang.clone());
        if self.debug_warnings {
            r.push(String::from_str("-wall"));
        }
        if let Some(t) = &self.timeout {
            r.push(String::from_str("-t"));
            r.push(t.clone());
        }
        if let Some(p) = &self.dsp_path {
            r.push(p.path().clone());
        }
        proof {
            assert(r.deep_view() =~~= self.args_spec());
        }
        r
    }
}

impl Default for CompileOptions {
    /// No architecture, no extra directories, no description files, Rust
    /// output, no warnings, no timeout, and no source file yet.
    fn default() -> (r: Self)
        ensures
            r.architecture matches Architecture::Unspecified,
            r.import_dir is None,
            r.xml == false,
            r.json == false,
            r.lang@ == "rust"@,
            r.debug_warnings == false,
            r.timeout is None,
            r.dsp_path is None,
    {
        CompileOptions {
            architecture: Architecture::Unspecified,
            import_dir: None,
            xml: false,
            json: false,
            lang: String::from_str("rust"),
            debug_warnings: false,
            timeout: None,
            dsp_path: None,
        }
    }
}

/// Collects everything one compiler invocation needs: where the compiler
/// is, its per-invocation options, the code-generation options, and the
/// names and paths of what is generated.  The invocation itself (running
/// the compiler, reading and writing files) is left to the unverified layer
/// around this crate, which only assembles what these methods computed.
pub struct FaustBuilder {
    /// The compiler binary to run.
    pub faust_path: String,
    /// The code-generation options, at most one per kind.
    pub code_gen_options: OptionMap,
    /// The module the generated code is placed in, where one was chosen.
    pub module_name: Option<String>,
    /// Where the generated Rust source is written, if anywhere.
    pub out_path: Option<String>,
    /// The per-invocation compiler options.
    pub compile_options: CompileOptions,
}

impl FaustBuilder {
    /// Well-formedness of the held option map.
    pub open spec fn wf(&self) -> bool {
        self.code_gen_options.wf()
    }

    /// The characters of the struct name held in the code-generation
    /// options, in specifications.
    pub open spec fn struct_name_view(&self) -> Seq<char> {
        match self.code_gen_options@[CodeOptionDiscriminants::StructName] {
            CodeOptionView::StructName(n) => n,
            _ => Seq::empty(),
        }
    }

    /// Whether a struct name has been recorded.
    pub open spec fn has_struct_name(&self) -> bool {
        self.code_gen_options@.contains_key(CodeOptionDiscriminants::StructName)
    }

    /// The module name that `get_module_name` yields, in specifications.
    pub open spec fn module_name_view(&self) -> Seq<char> {
        match self.module_name {
            Some(m) => m@,
            None => "dsp"@,
        }
    }

    /// The code-generation option of kind `key`, if one is held.
    pub fn get_code_gen_option(&self, key: &CodeOptionDiscriminants) -> (r: Option<&CodeOption>)
        ensures
            match r {
                Some(v) => self.code_gen_options@.contains_key(*key) && v@
                    == self.code_gen_options@[*key] && v@.tag() == *key,
                None => !self.code_gen_options@.contains_key(*key),
            },
    {
        self.code_gen_options.get(key)
    }

    /// Record a code-generation option under its kind; whatever option of
    /// that kind was held comes back.
    pub fn set_code_option(&mut self, arg: CodeOption) -> (prev: Option<CodeOption>)
        requires
            old(self).wf(),
        ensures
            final(self).wf(),
            final(self).code_gen_options@ == old(self).code_gen_options@.insert(arg@.tag(), arg@),
            match prev {
                Some(p) => old(self).code_gen_options@.contains_key(arg@.tag()) && p@ == old(
                    self,
                ).code_gen_options@[arg@.tag()],
                None => !old(self).code_gen_options@.contains_key(arg@.tag()),
            },
            final(self).faust_path == old(self).faust_path,
            final(self).module_name == old(self).module_name,
            final(self).out_path == old(self).out_path,
            final(self).compile_options == old(self).compile_options,
    {
        self.code_gen_options.insert(arg)
    }

    /// Choose the compiler binary.
    pub fn set_faust_path(&mut self, faust_path: String)
        ensures
            final(self).faust_path == faust_path,
            final(self).code_gen_options == old(self).code_gen_options,
            final(self).module_name == old(self).module_name,
            final(self).out_path == old(self).out_path,
            final(self).compile_options == old(self).compile_options,
    {
        self.faust_path = faust_path;
    }

    /// Choose where the generated Rust source is written.
    pub fn set_out_path(&mut self, out_path: String)
        ensures
            final(self).out_path == Some(out_path),
            final(self).faust_path == old(self).faust_path,
            final(self).code_gen_options == old(self).code_gen_options,
            final(self).module_name == old(self).module_name,
            final(self).compile_options == old(self).compile_options,
    {
        self.out_path = Some(out_path);
    }

    /// Choose the module the generated code is placed in.
    pub fn set_module_name(&mut self, module_name: String)
        ensures
            final(self).module_name == Some(module_name),
            final(self).faust_path == old(self).faust_path,
            final(self).code_gen_options == old(self).code_gen_options,
            final(self).out_path == old(self).out_path,
            final(self).compile_options == old(self).compile_options,
    {
        self.module_name = Some(module_name);
    }

    /// Choose how the generated code is wrapped.
    pub fn set_architecture(&mut self, arch: Architecture)
        ensures
            final(self).compile_options == (CompileOptions {
                architecture: arch,
                ..old(self).compile_options
            }),
            final(self).faust_path == old(self).faust_path,
            final(self).code_gen_options == old(self).code_gen_options,
            final(self).module_name == old(self).module_name,
            final(self).out_path == old(self).out_path,
    {
        self.compile_options.architecture = arch;
    }

    /// Choose the DSP source file to compile.
    pub fn set_dsp_path(&mut self, dsp_path: String)
        ensures
            final(self).compile_options == (CompileOptions {
                dsp_path: Some(DspPath::File(dsp_path)),
                ..old(self).compile_options
            }),
            final(self).faust_path == old(self).faust_path,
            final(self).code_gen_options == old(self).code_gen_options,
            final(self).module_name == old(self).module_name,
            final(self).out_path == old(self).out_path,
    {
        self.compile_options.dsp_path = Some(DspPath::File(dsp_path));
    }

    /// Use a temporary file, already written by the caller, as the DSP
    /// source.
    pub fn set_dsp_temp_path(&mut self, temp_path: String)
        ensures
            final(self).compile_options == (CompileOptions {
                dsp_path: Some(DspPath::Temp(temp_path)),
                ..old(self).compile_options
            }),
            final(self).faust_path == old(self).faust_path,
            final(self).code_gen_options == old(self).code_gen_options,
            final(self).module_name == old(self).module_name,
            final(self).out_path == old(self).out_path,
    {
        self.compile_options.dsp_path = Some(DspPath::Temp(temp_path));
    }

    /// Ask the compiler for an XML description file.
    pub fn set_xml(&mut self)
        ensures
            final(self).compile_options == (CompileOptions { xml: true, ..old(self).compile_options }),
            final(self).faust_path == old(self).faust_path,
            final(self).code_gen_options == old(self).code_gen_options,
            final(self).module_name == old(self).module_name,
            final(self).out_path == old(self).out_path,
    {
        self.compile_options.xml = true;
    }

    /// Ask the compiler for a JSON description file.
    pub fn set_json(&mut self)
        ensures
            final(self).compile_options == (CompileOptions {
                json: true,
                ..old(self).compile_options
            }),
            final(self).faust_path == old(self).faust_path,
            final(self).code_gen_options == old(self).code_gen_options,
            final(self).module_name == old(self).module_name,
            final(self).out_path == old(self).out_path,
    {
        self.compile_options.json = true;
    }

    /// Pour extra code-generation options in, each displacing the held
    /// option of its kind.
    pub fn extend_code_gen_options(&mut self, flags: OptionMap)
        requires
            old(self).wf(),
            flags.wf(),
        ensures
            final(self).wf(),
            final(self).code_gen_options@ == old(self).code_gen_options@.union_prefer_right(
                flags@,
            ),
            final(self).faust_path == old(self).faust_path,
            final(self).module_name == old(self).module_name,
            final(self).out_path == old(self).out_path,
            final(self).compile_options == old(self).compile_options,
    {
        self.code_gen_options.extend(flags);
    }

    /// Record the struct name for the generated DSP, derived from the name
    /// declared in the DSP source, which the caller extracted and hands in
    /// here: the declared name turned to upper camel case.
    pub fn struct_name_from_dsp_name(&mut self, declared_name: &str)
        requires
            old(self).wf(),
        ensures
            final(self).wf(),
            final(self).code_gen_options@ == old(self).code_gen_options@.insert(
                CodeOptionDiscriminants::StructName,
                CodeOptionView::StructName(camel_of(declared_name@)),
            ),
            final(self).faust_path == old(self).faust_path,
            final(self).module_name == old(self).module_name,
            final(self).out_path == old(self).out_path,
            final(self).compile_options == old(self).compile_options,
    {
        let sn = to_upper_camel_case(declared_name);
        self.set_code_option(CodeOption::StructName(sn));
    }

    /// Derive the module name from the DSP file's name: its stem, turned to
    /// snake case.
    pub fn module_name_from_dsp_file_path(&mut self) -> (r: &str)
        requires
            old(self).compile_options.dsp_path is Some,
            file_stem_spec(old(self).compile_options.dsp_path->0@.path_chars()).len() > 0,
        ensures
            r@ == snake_of(file_stem_spec(old(self).compile_options.dsp_path->0@.path_chars())),
            final(self).module_name matches Some(m) && m@ == r@,
            final(self).faust_path == old(self).faust_path,
            final(self).code_gen_options == old(self).code_gen_options,
            final(self).out_path == old(self).out_path,
            final(self).compile_options == old(self).compile_options,
    {
        let stem = match &self.compile_options.dsp_path {
            Some(p) => file_stem(p.path().as_str()),
            None => String::new(),
        };
        let module_name = to_snake_case(stem.as_str());
        self.module_name = Some(module_name);
        match &self.module_name {
            Some(m) => m.as_str(),
            None => "",
        }
    }

    /// Derive the module name from the recorded struct name: `dsp_`
    /// followed by that name in snake case.
    pub fn module_name_from_struct_name(&mut self)
        requires
            old(self).wf(),
            old(self).has_struct_name(),
        ensures
            final(self).module_name matches Some(m) && m@ == "dsp_"@ + snake_of(
                old(self).struct_name_view(),
            ),
            final(self).faust_path == old(self).faust_path,
            final(self).code_gen_options == old(self).code_gen_options,
            final(self).out_path == old(self).out_path,
            final(self).compile_options == old(self).compile_options,
    {
        let snake = {
            let struct_name = self.get_struct_name();
            to_snake_case(struct_name.as_str())
        };
        let mut module_name = String::from_str("dsp_");
        module_name.append(snake.as_str());
        self.module_name = Some(module_name);
    }

    /// The DSP source file chosen for this invocation.
    pub fn get_dsp_path(&self) -> (r: &DspPath)
        requires
            self.compile_options.dsp_path is Some,
        ensures
            self.compile_options.dsp_path == Some(*r),
    {
        match &self.compile_options.dsp_path {
            Some(path) => path,
            None => unreached(),
        }
    }

    /// The recorded struct name for the generated DSP.
    pub fn get_struct_name(&self) -> (r: &String)
        requires
            self.has_struct_name(),
        ensures
            r@ == self.struct_name_view(),
    {
        let opt = self.get_code_gen_option(&CodeOptionDiscriminants::StructName);
        match opt {
            Some(CodeOption::StructName(struct_name)) => struct_name,
            _ => unreached(),
        }
    }

    /// The module the generated code is placed in; `dsp` when none was
    /// chosen.
    pub fn get_module_name(&self) -> (r: &str)
        ensures
            r@ == self.module_name_view(),
    {
        match &self.module_name {
            Some(module_name) => module_name.as_str(),
            None => "dsp",
        }
    }

    /// Where the compiler puts the JSON description: the DSP source path
    /// with `.json` appended.
    pub fn get_json_path(&self) -> (r: String)
        requires
            self.compile_options.dsp_path is Some,
        ensures
            r@ == self.compile_options.dsp_path->0@.path_chars() + ".json"@,
    {
        let dsp_path = self.get_dsp_path();
        let mut r = dsp_path.path().clone();
        r.append(".json");
        r
    }

    /// Where the compiler puts the XML description: the DSP source path
    /// with `.xml` appended to its extension.
    pub fn xml_path_from_dsp_path(&self) -> (r: String)
        requires
            self.compile_options.dsp_path is Some,
        ensures
            r@ == without_ext(self.compile_options.dsp_path->0@.path_chars()) + "."@ + ext_spec(
                self.compile_options.dsp_path->0@.path_chars(),
            ) + ".xml"@,
    {
        let dsp_path = self.get_dsp_path();
        let (head, ext) = split_ext(dsp_path.path().as_str());
        let mut r = head;
        r.append(".");
        r.append(ext.as_str());
        r.append(".xml");
        r
    }

    /// Fill an architecture file's placeholders: every `<<moduleName>>`
    /// becomes `dsp` and every `<<structName>>` the given struct name.
    pub fn fix_arch_wrap(dsp_code: &str, struct_name: &str) -> (r: String)
        ensures
            r@ == replaced_from(
                replaced_from(dsp_code@, "<<moduleName>>"@, "dsp"@, 0),
                "<<structName>>"@,
                struct_name@,
                0,
            ),
    {
        let step = replace_all(dsp_code, "<<moduleName>>", "dsp");
        replace_all(step.as_str(), "<<structName>>", struct_name)
    }

    /// The command arguments of one whole invocation: the per-invocation
    /// options, then the code-generation options.
    pub fn to_command_args(&self) -> (r: Vec<String>)
        requires
            self.wf(),
            self.compile_options.dsp_path is Some,
        ensures
            r.deep_view() == self.compile_options.args_spec() + map_args(self.code_gen_options@),
    {
        let mut r = self.compile_options.to_command_args();
        let mut code = self.code_gen_options.to_command_args();
        r.append(&mut code);
        proof {
            assert(r.deep_view() =~~= self.compile_options.args_spec() + map_args(
                self.code_gen_options@,
            ));
        }
        r
    }

    /// A builder for compiling `dsp_path` to `out_path` together with the
    /// user-interface enumerations: JSON asked for, the module named after
    /// the file, and the user-interface wrapping chosen.  The struct name,
    /// which comes from the source text, is recorded separately with
    /// `struct_name_from_dsp_name`.
    pub fn default_for_file_with_ui(dsp_path: String, out_path: String) -> (r: Self)
        requires
            file_stem_spec(dsp_path@).len() > 0,
        ensures
            r.wf(),
            r.faust_path@ == "faust"@,
            r.code_gen_options@ == Map::<CodeOptionDiscriminants, CodeOptionView>::empty(),
            r.module_name matches Some(m) && m@ == snake_of(file_stem_spec(dsp_path@)),
            r.out_path == Some(out_path),
            r.compile_options.architecture matches Architecture::Object(ArchitectureObject::UI(_)),
            r.compile_options.json == true,
            r.compile_options.xml == false,
            r.compile_options.lang@ == "rust"@,
            r.compile_options.dsp_path matches Some(p) && p@ == DspPathView::File(dsp_path@),
    {
        let mut b = Self::default();
        b.set_dsp_path(dsp_path);
        b.set_out_path(out_path);
        b.module_name_from_dsp_file_path();
        b.set_json();
        b.set_architecture(Architecture::Object(ArchitectureObject::UI(ArchitectureUI {})));
        b
    }

    /// A builder for compiling `dsp_path` to `out_path` with the plain
    /// wrapping: the module named after the file and nothing else asked
    /// for.  The struct name is recorded separately with
    /// `struct_name_from_dsp_name`.
    pub fn default_for_file(dsp_path: String, out_path: String) -> (r: Self)
        requires
            file_stem_spec(dsp_path@).len() > 0,
        ensures
            r.wf(),
            r.faust_path@ == "faust"@,
            r.code_gen_options@ == Map::<CodeOptionDiscriminants, CodeOptionView>::empty(),
            r.module_name matches Some(m) && m@ == snake_of(file_stem_spec(dsp_path@)),
            r.out_path == Some(out_path),
            r.compile_options.architecture matches Architecture::Unspecified,
            r.compile_options.json == false,
            r.compile_options.xml == false,
            r.compile_options.lang@ == "rust"@,
            r.compile_options.dsp_path matches Some(p) && p@ == DspPathView::File(dsp_path@),
    {
        let mut b = Self::default();
        b.set_dsp_path(dsp_path);
        b.set_out_path(out_path);
        b.module_name_from_dsp_file_path();
        b
    }

    /// A builder for the file-driven macro: like `default_for_file_with_ui`
    /// but without an output path, and with extra code-generation options
    /// poured in.
    pub fn default_for_file_macro(dsp_path: String, extra_flags: OptionMap) -> (r: Self)
        requires
            file_stem_spec(dsp_path@).len() > 0,
            extra_flags.wf(),
        ensures
            r.wf(),
            r.faust_path@ == "faust"@,
            r.code_gen_options@ == Map::<CodeOptionDiscriminants, CodeOptionView>::empty(
            ).union_prefer_right(extra_flags@),
            r.module_name matches Some(m) && m@ == snake_of(file_stem_spec(dsp_path@)),
            r.out_path is None,
            r.compile_options.architecture matches Architecture::Object(ArchitectureObject::UI(_)),
            r.compile_options.json == true,
            r.compile_options.lang@ == "rust"@,
            r.compile_options.dsp_path matches Some(p) && p@ == DspPathView::File(dsp_path@),
    {
        let mut builder = Self::default();
        builder.set_json();
        builder.set_dsp_path(dsp_path);
        builder.module_name_from_dsp_file_path();
        builder.set_architecture(Architecture::Object(ArchitectureObject::UI(ArchitectureUI {})));
        builder.extend_code_gen_options(extra_flags);
        builder
    }

    /// A builder for the source-driven macro.  The caller has written the
    /// DSP source to a temporary file and extracted the name it declares;
    /// both are handed in.  The struct name is the declared name in camel
    /// case, the module name `dsp_` plus its snake case, and the
    /// user-interface wrapping is chosen.
    pub fn default_for_dsp_macro(temp_dsp_path: String, declared_name: &str, extra_flags: OptionMap) -> (r:
        Self)
        requires
            extra_flags.wf(),
        ensures
            r.wf(),
            r.faust_path@ == "faust"@,
            r.code_gen_options@ == Map::<CodeOptionDiscriminants, CodeOptionView>::empty().insert(
                CodeOptionDiscriminants::StructName,
                CodeOptionView::StructName(camel_of(declared_name@)),
            ).union_prefer_right(extra_flags@),
            r.module_name matches Some(m) && m@ == "dsp_"@ + snake_of(camel_of(declared_name@)),
            r.out_path is None,
            r.compile_options.architecture matches Architecture::Object(ArchitectureObject::UI(_)),
            r.compile_options.json == true,
            r.compile_options.lang@ == "rust"@,
            r.compile_options.dsp_path matches Some(p) && p@ == DspPathView::Temp(temp_dsp_path@),
    {
        let mut builder = Self::default();
        builder.set_dsp_temp_path(temp_dsp_path);
        builder.set_json();
        builder.struct_name_from_dsp_name(declared_name);
        builder.module_name_from_struct_name();
        builder.set_architecture(Architecture::Object(ArchitectureObject::UI(ArchitectureUI {})));
        builder.extend_code_gen_options(extra_flags);
        builder
    }
}

impl Default for FaustBuilder {
    /// A compiler named `faust` on the search path, no options, and the
    /// module name `dsp`.
    fn default() -> (r: Self)
        ensures
            r.wf(),
            r.faust_path@ == "faust"@,
            r.code_gen_options@ == Map::<CodeOptionDiscriminants, CodeOptionView>::empty(),
            r.module_name matches Some(m) && m@ == "dsp"@,
            r.out_path is None,
            r.compile_options.architecture matches Architecture::Unspecified,
            r.compile_options.import_dir is None,
            r.compile_options.xml == false,
            r.compile_options.json == false,
            r.compile_options.lang@ == "rust"@,
            r.compile_options.debug_warnings == false,
            r.compile_options.timeout is None,
            r.compile_options.dsp_path is None,
    {
        FaustBuilder {
            faust_path: String::from_str("faust"),
            code_gen_options: OptionMap::new(),
            module_name: Some(String::from_str("dsp")),
            out_path: None,
            compile_options: CompileOptions::default(),
        }
    }
}

} // verus!
