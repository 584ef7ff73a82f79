use rust_faust::code_option::{CodeOption, CodeOptionDiscriminants, CodeOptionParseError};
use rust_faust::compile_option::{
    CompileOption, CompileOptionDiscriminants, CompileOptionParseError, DspPath,
};
use rust_faust::faust_json::{Meta, MetaError};
use rust_faust::option_map::OptionMap;

#[test]
fn keys_with_arguments_consume_the_next_word() {
    let arg = String::from("arch.rs");
    let parsed = CompileOption::from_str_iter("-a", Some(&arg)).unwrap();
    assert_eq!(parsed, (CompileOption::ArchFile(String::from("arch.rs")), true));
    assert!(matches!(parsed.0, CompileOption::ArchFile(p) if p == "arch.rs"));

    let dir = String::from("lib");
    let parsed = CompileOption::from_str_iter("--import-dir", Some(&dir)).unwrap();
    assert!(matches!(parsed.0, CompileOption::ImportDir(p) if p == "lib"));
    assert!(parsed.1);

    let secs = String::from("30");
    let parsed = CompileOption::from_str_iter("--timeout", Some(&secs)).unwrap();
    assert!(matches!(parsed.0, CompileOption::Timeout(t) if t == "30"));
    assert!(parsed.1);
}

#[test]
fn bare_keys_consume_nothing() {
    let stray = String::from("stray");
    let parsed = CompileOption::from_str_iter("-xml", Some(&stray)).unwrap();
    assert_eq!(parsed, (CompileOption::Xml, false));

    let parsed = CompileOption::from_str_iter("-json", None).unwrap();
    assert_eq!(parsed, (CompileOption::Json, false));

    let parsed = CompileOption::from_str_iter("--warning-all", None).unwrap();
    assert_eq!(parsed, (CompileOption::DebugWarnings, false));
}

#[test]
fn missing_argument_is_reported() {
    let err = CompileOption::from_str_iter("-a", None).unwrap_err();
    assert_eq!(err, CompileOptionParseError::MissingArgument(String::from("-a")));
    let err = CompileOption::from_str_iter("-t", None).unwrap_err();
    assert_eq!(err, CompileOptionParseError::MissingArgument(String::from("-t")));
}

#[test]
fn known_but_uncarried_keys_are_reported() {
    let err = CompileOption::from_str_iter("-svg", None).unwrap_err();
    assert_eq!(err, CompileOptionParseError::Unimplemented(String::from("-svg")));
    let err = CompileOption::from_str_iter("--help", None).unwrap_err();
    assert_eq!(err, CompileOptionParseError::Unimplemented(String::from("--help")));
}

#[test]
fn unknown_keys_are_reported() {
    let err = CompileOption::from_str_iter("-zz", None).unwrap_err();
    assert_eq!(err, CompileOptionParseError::Unknown(String::from("-zz")));
}

#[test]
fn a_word_list_becomes_an_option_set() {
    let words: Vec<String> = ["-xml", "-t", "30", "-json"]
        .iter()
        .map(|w| w.to_string())
        .collect();
    let map = CompileOption::arg_map_from_str_iter(&words).unwrap();
    assert!(map.get(&CompileOptionDiscriminants::Xml).is_some());
    assert!(map.get(&CompileOptionDiscriminants::Json).is_some());
    let timeout = map.get(&CompileOptionDiscriminants::Timeout).unwrap();
    assert!(matches!(timeout, CompileOption::Timeout(t) if t == "30"));
    assert!(map.get(&CompileOptionDiscriminants::ArchFile).is_none());
}

#[test]
fn a_word_list_stops_at_the_first_bad_word() {
    let words: Vec<String> = ["-xml", "-q"].iter().map(|w| w.to_string()).collect();
    let err = CompileOption::arg_map_from_str_iter(&words).unwrap_err();
    assert_eq!(err, CompileOptionParseError::Unknown(String::from("-q")));
}

#[test]
fn compile_options_render_their_arguments() {
    assert_eq!(
        CompileOption::ArchFile(String::from("a.rs")).to_command_args(),
        vec!["-a", "a.rs"]
    );
    assert_eq!(CompileOption::Xml.to_command_args(), vec!["-xml"]);
    assert_eq!(
        CompileOption::default_lang().to_command_args(),
        vec!["-lang", "rust"]
    );
    assert_eq!(
        CompileOption::default_timeout().to_command_args(),
        vec!["-t", "0"]
    );
    assert_eq!(
        CompileOption::dsp_path(String::from("x.dsp")).to_command_args(),
        vec!["x.dsp"]
    );
    assert_eq!(
        CompileOption::temp_dsp_path(String::from("/tmp/x.dsp")).to_command_args(),
        vec!["/tmp/x.dsp"]
    );
}

#[test]
fn compile_option_equality_compares_kinds_only() {
    assert_eq!(
        CompileOption::Lang(String::from("rust")),
        CompileOption::Lang(String::from("cpp"))
    );
    assert_ne!(CompileOption::Xml, CompileOption::Json);
}

#[test]
fn dsp_path_equality_distrusts_temporaries() {
    let a = DspPath::File(String::from("x.dsp"));
    let b = DspPath::File(String::from("x.dsp"));
    let c = DspPath::File(String::from("y.dsp"));
    let t = DspPath::Temp(String::from("x.dsp"));
    assert_eq!(a, b);
    assert_ne!(a, c);
    assert_ne!(a, t);
    assert_ne!(t, DspPath::Temp(String::from("x.dsp")));
}

#[test]
fn code_options_parse_from_their_names() {
    assert_eq!(CodeOption::from_str("DoublePrecision"), Ok(CodeOption::DoublePrecision));
    assert_eq!(CodeOption::from_str("Vectorize"), Ok(CodeOption::Vectorize));
    assert_eq!(CodeOption::from_str("InPlace"), Ok(CodeOption::InPlace));
    assert_eq!(CodeOption::from_str("StructName"), Err(CodeOptionParseError));
    assert_eq!(CodeOption::from_str("nonsense"), Err(CodeOptionParseError));
}

#[test]
fn code_options_render_their_arguments() {
    assert_eq!(
        CodeOption::StructName(String::from("Osc")).to_command_args(),
        vec!["-cn", "Osc"]
    );
    assert_eq!(CodeOption::DoublePrecision.to_command_args(), vec!["-double"]);
    assert_eq!(CodeOption::Vectorize.to_command_args(), vec!["-vec"]);
    assert_eq!(CodeOption::InPlace.to_command_args(), vec!["-inpl"]);
}

#[test]
fn option_map_coalesces_by_kind() {
    let mut map = OptionMap::new();
    assert!(map.insert(CodeOption::StructName(String::from("A"))).is_none());
    assert!(map.insert(CodeOption::Vectorize).is_none());
    let prev = map.insert(CodeOption::StructName(String::from("B")));
    assert_eq!(prev, Some(CodeOption::StructName(String::from("A"))));
    let held = map.get(&CodeOptionDiscriminants::StructName).unwrap();
    assert_eq!(held, &CodeOption::StructName(String::from("B")));
    assert!(map.get(&CodeOptionDiscriminants::InPlace).is_none());
}

#[test]
fn option_map_extension_prefers_the_newcomers() {
    let mut base = OptionMap::new();
    base.insert(CodeOption::StructName(String::from("A")));
    base.insert(CodeOption::Vectorize);
    let mut extra = OptionMap::new();
    extra.insert(CodeOption::StructName(String::from("B")));
    extra.insert(CodeOption::InPlace);
    base.extend(extra);
    let held = base.get(&CodeOptionDiscriminants::StructName).unwrap();
    assert_eq!(held, &CodeOption::StructName(String::from("B")));
    assert!(base.get(&CodeOptionDiscriminants::Vectorize).is_some());
    assert!(base.get(&CodeOptionDiscriminants::InPlace).is_some());
}

#[test]
fn option_map_renders_in_kind_order() {
    let mut map = OptionMap::new();
    map.insert(CodeOption::Vectorize);
    map.insert(CodeOption::StructName(String::from("Osc")));
    assert_eq!(map.to_command_args(), vec!["-cn", "Osc", "-vec"]);
}

#[test]
fn merged_rendering_prefers_the_overriding_set() {
    let mut base = OptionMap::new();
    base.insert(CodeOption::StructName(String::from("A")));
    base.insert(CodeOption::Vectorize);
    let mut over = OptionMap::new();
    over.insert(CodeOption::StructName(String::from("B")));
    assert_eq!(
        base.to_command_args_merge(&over),
        vec!["-cn", "B", "-vec"]
    );
}

#[test]
fn meta_takes_the_first_entry() {
    let entries = vec![
        (String::from("author"), Some(String::from("someone"))),
        (String::from("license"), Some(String::from("MIT"))),
    ];
    let meta = Meta::from_entries(&entries).unwrap();
    assert_eq!(meta.key, "author");
    assert_eq!(meta.value, "someone");
}

#[test]
fn meta_rejects_empty_and_valueless_entries() {
    let no_entries: Vec<(String, Option<String>)> = vec![];
    assert_eq!(Meta::from_entries(&no_entries), Err(MetaError::Empty));
    let valueless = vec![(String::from("author"), None)];
    assert_eq!(Meta::from_entries(&valueless), Err(MetaError::MissingValue));
}
