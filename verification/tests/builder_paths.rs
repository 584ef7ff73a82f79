use rust_faust::builder::{Architecture, ArchitectureObject, FaustBuilder};
use rust_faust::code_option::{CodeOption, CodeOptionDiscriminants};
use rust_faust::compile_option::DspPath;
use rust_faust::option_map::OptionMap;

#[test]
fn default_builder_names_the_compiler_and_module() {
    let b = FaustBuilder::default();
    assert_eq!(b.faust_path, "faust");
    assert_eq!(b.get_module_name(), "dsp");
    assert!(b.out_path.is_none());
    assert!(b.compile_options.dsp_path.is_none());
}

#[test]
fn module_name_comes_from_the_file_stem() {
    let mut b = FaustBuilder::default();
    b.set_dsp_path(String::from("dsp/OscMain.dsp"));
    let name = b.module_name_from_dsp_file_path().to_string();
    assert_eq!(name, "osc_main");
    assert_eq!(b.get_module_name(), "osc_main");
}

#[test]
fn struct_name_is_camel_cased_from_the_declared_name() {
    let mut b = FaustBuilder::default();
    b.struct_name_from_dsp_name("osc player");
    assert_eq!(b.get_struct_name().as_str(), "OscPlayer");
}

#[test]
fn module_name_from_struct_name_prefixes_and_snakes() {
    let mut b = FaustBuilder::default();
    b.struct_name_from_dsp_name("osc player");
    b.module_name_from_struct_name();
    assert_eq!(b.get_module_name(), "dsp_osc_player");
}

#[test]
fn json_path_appends_to_the_dsp_path() {
    let mut b = FaustBuilder::default();
    b.set_dsp_path(String::from("dsp/osc.dsp"));
    assert_eq!(b.get_json_path(), "dsp/osc.dsp.json");
}

#[test]
fn xml_path_appends_to_the_extension() {
    let mut b = FaustBuilder::default();
    b.set_dsp_path(String::from("dsp/osc.dsp"));
    assert_eq!(b.xml_path_from_dsp_path(), "dsp/osc.dsp.xml");
}

#[test]
fn xml_path_without_extension_keeps_the_double_dot() {
    let mut b = FaustBuilder::default();
    b.set_dsp_path(String::from("osc"));
    assert_eq!(b.xml_path_from_dsp_path(), "osc..xml");
}

#[test]
fn multi_dot_names_lose_only_the_last_extension() {
    let mut b = FaustBuilder::default();
    b.set_dsp_path(String::from("a/b.c.dsp"));
    let name = b.module_name_from_dsp_file_path().to_string();
    assert_eq!(name, "b_c");
    assert_eq!(b.xml_path_from_dsp_path(), "a/b.c.dsp.xml");
}

#[test]
fn default_for_file_sets_paths_and_module() {
    let b = FaustBuilder::default_for_file(
        String::from("dsp/osc_main.dsp"),
        String::from("out/osc.rs"),
    );
    assert_eq!(b.get_module_name(), "osc_main");
    assert_eq!(b.out_path.as_deref(), Some("out/osc.rs"));
    assert_eq!(b.get_dsp_path(), &DspPath::File(String::from("dsp/osc_main.dsp")));
    assert!(!b.compile_options.json);
}

#[test]
fn default_for_file_with_ui_asks_for_json() {
    let b = FaustBuilder::default_for_file_with_ui(
        String::from("dsp/osc_main.dsp"),
        String::from("out/osc.rs"),
    );
    assert!(b.compile_options.json);
    assert!(matches!(
        b.compile_options.architecture,
        Architecture::Object(ArchitectureObject::UI(_))
    ));
}

#[test]
fn default_for_dsp_macro_wires_names_and_flags() {
    let mut flags = OptionMap::new();
    flags.insert(CodeOption::DoublePrecision);
    let b = FaustBuilder::default_for_dsp_macro(String::from("/tmp/snippet.dsp"), "osc", flags);
    assert_eq!(b.get_struct_name().as_str(), "Osc");
    assert_eq!(b.get_module_name(), "dsp_osc");
    assert!(b.compile_options.json);
    assert!(b
        .get_code_gen_option(&CodeOptionDiscriminants::DoublePrecision)
        .is_some());
    assert!(matches!(
        b.get_dsp_path(),
        DspPath::Temp(p) if p == "/tmp/snippet.dsp"
    ));
}

#[test]
fn command_args_follow_flag_order() {
    let mut b = FaustBuilder::default_for_file_with_ui(
        String::from("dsp/osc_main.dsp"),
        String::from("out/osc.rs"),
    );
    b.struct_name_from_dsp_name("osc_main");
    assert_eq!(
        b.to_command_args(),
        vec!["-json", "-lang", "rust", "dsp/osc_main.dsp", "-cn", "OscMain"]
    );
}

#[test]
fn architecture_file_leads_the_command_args() {
    let mut b = FaustBuilder::default();
    b.set_dsp_path(String::from("x.dsp"));
    b.set_architecture(Architecture::File(String::from("arch.rs")));
    assert_eq!(
        b.to_command_args(),
        vec!["-a", "arch.rs", "-lang", "rust", "x.dsp"]
    );
    assert_eq!(
        b.compile_options.architecture.to_command_arg(),
        Some(&String::from("arch.rs"))
    );
}

#[test]
fn xml_and_timeout_flags_appear_when_set() {
    let mut b = FaustBuilder::default();
    b.set_dsp_path(String::from("x.dsp"));
    b.set_xml();
    b.compile_options.timeout = Some(String::from("30"));
    b.compile_options.debug_warnings = true;
    assert_eq!(
        b.to_command_args(),
        vec!["-xml", "-lang", "rust", "-wall", "-t", "30", "x.dsp"]
    );
}

#[test]
fn set_code_option_displaces_its_kind() {
    let mut b = FaustBuilder::default();
    assert!(b.set_code_option(CodeOption::StructName(String::from("A"))).is_none());
    let prev = b.set_code_option(CodeOption::StructName(String::from("B")));
    assert_eq!(prev, Some(CodeOption::StructName(String::from("A"))));
    assert_eq!(b.get_struct_name().as_str(), "B");
}

#[test]
fn arch_placeholders_are_filled() {
    let wrapped = FaustBuilder::fix_arch_wrap(
        "mod <<moduleName>> { struct <<structName>>; } // <<structName>>",
        "Osc",
    );
    assert_eq!(wrapped, "mod dsp { struct Osc; } // Osc");
}

#[test]
fn arch_wrap_without_placeholders_is_untouched() {
    let wrapped = FaustBuilder::fix_arch_wrap("fn main() {}", "Osc");
    assert_eq!(wrapped, "fn main() {}");
}

#[test]
fn extra_flags_override_the_declared_struct_name() {
    let mut flags = OptionMap::new();
    flags.insert(CodeOption::StructName(String::from("Override")));
    let b = FaustBuilder::default_for_dsp_macro(String::from("/tmp/snippet.dsp"), "osc", flags);
    assert_eq!(b.get_struct_name().as_str(), "Override");
}
