use largo::clam::{
    append_arguments, to_one_dash_kebab_case, to_two_dash_kebab_case, ArgValue, ArrayConvention,
    CaseConvention, Command, LoweringCtx, Options, Rename, ValueConvention,
};
use largo::conf::LargoConfig;
use largo::dirs::{ProfileTargetDir, RootDir, SrcDir, TargetDir};
use largo::engines::pdflatex::{
    CommandLineOptions, Format, InteractionMode, MkTexFormat, PdflatexBuilder, SrcSpecial,
};
use largo::conf::ProfileName;
use largo::text::{
    contains, from_chars, signed_to_decimal, starts_with, str_eq, str_lt, to_chars,
    unsigned_to_decimal,
};
use largo::typedir::{Extend, PathBuf};
use largo::util::timed;

#[test]
fn field_names_become_flags() {
    assert_eq!(to_one_dash_kebab_case("output_directory"), "-output-directory");
    assert_eq!(to_two_dash_kebab_case("output_directory"), "--output-directory");
    assert_eq!(to_one_dash_kebab_case("ini"), "-ini");
    assert_eq!(to_two_dash_kebab_case(""), "--");
    assert_eq!(to_one_dash_kebab_case("_a__b_"), "--a--b-");
}

#[test]
fn the_conventions_decide_the_flag_unless_the_field_is_renamed() {
    let one = LoweringCtx::new(
        CaseConvention::OneDashKebabCase,
        ValueConvention::Space,
        ArrayConvention::Repeat,
    );
    let two = LoweringCtx::new(
        CaseConvention::default(),
        ValueConvention::default(),
        ArrayConvention::default(),
    );
    assert_eq!(two.case_convention, CaseConvention::TwoDashKebabCase);
    assert_eq!(two.value_convention, ValueConvention::Space);
    assert_eq!(two.array_convention, ArrayConvention::Repeat);
    assert_eq!(one.convert_case("shell_escape"), "-shell-escape");
    assert_eq!(two.convert_case("shell_escape"), "--shell-escape");
    assert_eq!(one.flag(None, "eight_bit"), "-eight-bit");
    assert_eq!(one.flag(Some(&Rename("-8bit".to_string())), "eight_bit"), "-8bit");
    assert_eq!(two.flag(Some(&Rename("x".to_string())), "y"), "x");
}

#[test]
fn values_give_themselves_under_their_flag() {
    let mut cmd: Vec<String> = vec!["first".to_string()];
    true.set_cmd_arg("-on", &mut cmd);
    false.set_cmd_arg("-off", &mut cmd);
    7u8.set_cmd_arg("-u8", &mut cmd);
    (-12i64).set_cmd_arg("-i64", &mut cmd);
    i128::MIN.set_cmd_arg("-min", &mut cmd);
    u128::MAX.set_cmd_arg("-max", &mut cmd);
    0usize.set_cmd_arg("-zero", &mut cmd);
    "text".set_cmd_arg("-str", &mut cmd);
    "owned".to_string().set_cmd_arg("-string", &mut cmd);
    Some(3i32).set_cmd_arg("-some", &mut cmd);
    None::<i32>.set_cmd_arg("-none", &mut cmd);
    Some(Some(true)).set_cmd_arg("-nested", &mut cmd);
    vec![1u8, 2].set_cmd_arg("-list", &mut cmd);
    RootDir::at("/r").set_cmd_arg("-root", &mut cmd);
    Some(vec![SrcSpecial::Cr]).set_cmd_arg("-src-specials", &mut cmd);
    assert_eq!(
        cmd,
        vec![
            "first",
            "-on",
            "-u8",
            "7",
            "-i64",
            "-12",
            "-min",
            "-170141183460469231731687303715884105728",
            "-max",
            "340282366920938463463374607431768211455",
            "-zero",
            "0",
            "-str",
            "text",
            "-string",
            "owned",
            "-some",
            "3",
            "-nested",
            "-root",
            "/r",
        ]
    );
}

#[test]
fn engine_words_give_themselves_under_their_flag() {
    let mut cmd: Vec<String> = Vec::new();
    InteractionMode::BatchMode.set_cmd_arg("-interaction", &mut cmd);
    InteractionMode::ScrollMode.set_cmd_arg("-interaction", &mut cmd);
    MkTexFormat::Tfm.set_cmd_arg("-mktex", &mut cmd);
    SrcSpecial::Parend.set_cmd_arg("-src", &mut cmd);
    Format::Dvi.set_cmd_arg("-output-format", &mut cmd);
    assert_eq!(
        cmd,
        vec![
            "-interaction",
            "batchmode",
            "-interaction",
            "scrollmode",
            "-mktex",
            "tfm",
            "-src",
            "parend",
            "-output-format",
            "dvi",
        ]
    );
    assert_eq!(InteractionMode::ErrorStopMode.as_str(), "errorstopmode");
    assert_eq!(InteractionMode::NonStopMode.as_str(), "nonstopmode");
    assert_eq!(MkTexFormat::Tex.as_str(), "tex");
    assert_eq!(MkTexFormat::Pk.as_str(), "pk");
    assert_eq!(Format::Pdf.as_str(), "pdf");
    let words: Vec<&str> = [
        SrcSpecial::Cr,
        SrcSpecial::Display,
        SrcSpecial::Hbox,
        SrcSpecial::Math,
        SrcSpecial::Par,
        SrcSpecial::Vbox,
    ]
    .iter()
    .map(|s| s.as_str())
    .collect();
    assert_eq!(words, vec!["cr", "display", "hbox", "math", "par", "vbox"]);
}

#[test]
fn a_list_of_arguments_is_a_command() {
    let mut cmd: Vec<String> = Vec::new();
    cmd.arg("a").arg("b").args(&["c", "d"]).args(&[]);
    append_arguments(&mut cmd, &vec!["e".to_string()]);
    assert_eq!(cmd, vec!["a", "b", "c", "d", "e"]);
}

#[test]
fn options_give_themselves_in_the_order_of_their_fields() {
    let options = CommandLineOptions {
        cnf_line: Some("TEXMFVAR=/v".to_string()),
        draftmode: true,
        file_line_error: true,
        interaction: Some(InteractionMode::NonStopMode),
        kpathsea_debug: Some(-1),
        no_mktex: Some(MkTexFormat::Pk),
        output_directory: Some("out".to_string()),
        output_format: Some(Format::Pdf),
        no_shell_escape: true,
        src_specials: Some(vec![SrcSpecial::Math]),
        synctex: Some(-1),
        eight_bit: true,
        version: true,
        ..CommandLineOptions::default()
    };
    let mut cmd: Vec<String> = vec!["pdflatex".to_string()];
    options.apply(&mut cmd);
    assert_eq!(
        cmd,
        vec![
            "pdflatex",
            "-cnf-line",
            "TEXMFVAR=/v",
            "-draftmode",
            "-file-line-error",
            "-interaction",
            "nonstopmode",
            "-kpathsea-debug",
            "-1",
            "-no-mktex",
            "pk",
            "-output-directory",
            "out",
            "-output-format",
            "pdf",
            "-no-shell-escape",
            "-synctex",
            "-1",
            "-8bit",
            "-version",
        ]
    );
    let mut none: Vec<String> = Vec::new();
    CommandLineOptions::default().apply(&mut none);
    assert!(none.is_empty());
}

#[test]
fn the_builder_collects_what_it_is_told() {
    let conf = LargoConfig::default();
    let src: PathBuf<SrcDir> = RootDir::at("/r").extend(());
    let target: PathBuf<TargetDir> = RootDir::at("/r").extend(());
    let out: PathBuf<ProfileTargetDir> = target.extend(ProfileName::new("dev"));
    let engine = PdflatexBuilder::new(&conf)
        .with_jobname("job".to_string())
        .with_src_dir(src)
        .with_build_dir(out)
        .with_shell_escape(None)
        .with_shell_escape(Some(true))
        .with_shell_escape(Some(false))
        .with_synctex(false)
        .with_dependencies(&vec!["/a".to_string(), "/b".to_string()])
        .finish();
    let cmd = engine.inner_cmd();
    assert_eq!(
        cmd.args,
        vec![
            "-interaction",
            "nonstopmode",
            "-jobname",
            "job",
            "-output-directory",
            "/r/target/dev",
            "-shell-escape",
            "-no-shell-escape",
            "main.tex",
        ]
    );
    assert_eq!(cmd.envs[0].name, "max_print_line");
    assert_eq!(cmd.envs[0].value, i32::MAX.to_string());
    assert_eq!(cmd.envs[1].name, "TEXINPUTS");
    assert_eq!(cmd.envs[1].value, "/r/src:/a:/b:");
    assert_eq!(cmd.current_dir.as_deref(), Some("/r/src"));
}

#[test]
fn a_bare_builder_searches_the_directories_of_the_engine_only() {
    let conf = LargoConfig::default();
    let engine = PdflatexBuilder::new(&conf).finish();
    assert_eq!(
        engine.inner_cmd().args,
        vec!["-interaction", "nonstopmode", "main.tex"]
    );
    assert_eq!(engine.inner_cmd().envs[1].value, ":");
    assert_eq!(engine.inner_cmd().current_dir, None);
}

#[test]
fn numbers_are_written_in_base_ten() {
    assert_eq!(unsigned_to_decimal(0), "0");
    assert_eq!(unsigned_to_decimal(9), "9");
    assert_eq!(unsigned_to_decimal(10), "10");
    assert_eq!(unsigned_to_decimal(1234567890), "1234567890");
    assert_eq!(unsigned_to_decimal(u128::MAX), u128::MAX.to_string());
    assert_eq!(signed_to_decimal(-1), "-1");
    assert_eq!(signed_to_decimal(0), "0");
    assert_eq!(signed_to_decimal(i128::MIN), i128::MIN.to_string());
    assert_eq!(signed_to_decimal(i128::MAX), i128::MAX.to_string());
    assert_eq!(signed_to_decimal(-1000), "-1000");
}

#[test]
fn text_is_compared_character_by_character() {
    assert!(str_eq("", ""));
    assert!(str_eq("é≠", "é≠"));
    assert!(!str_eq("a", "ab"));
    assert!(!str_eq("ab", "ac"));
    assert!(str_lt("", "a"));
    assert!(!str_lt("a", ""));
    assert!(!str_lt("a", "a"));
    assert!(str_lt("a", "ab"));
    assert!(str_lt("ab", "b"));
    assert!(str_lt("Z", "a"));
    assert!(str_lt("z", "é"));
    assert!(!str_lt("é", "z"));
    assert!(starts_with("abc", ""));
    assert!(starts_with("abc", "ab"));
    assert!(starts_with("abc", "abc"));
    assert!(!starts_with("abc", "abcd"));
    assert!(!starts_with("abc", "b"));
    assert!(contains("abc", ""));
    assert!(contains("", ""));
    assert!(contains("abc", "bc"));
    assert!(contains("aab", "ab"));
    assert!(!contains("abc", "ca"));
    assert!(!contains("ab", "abc"));
    assert_eq!(to_chars("aé"), vec!['a', 'é']);
    assert_eq!(from_chars(&vec!['≠', 'x']), "≠x");
}

#[test]
fn timing_returns_what_the_work_returned() {
    let (out, elapsed) = timed(|| 6 * 7);
    assert_eq!(out, 42);
    assert!(elapsed.as_secs() < 60);
}
