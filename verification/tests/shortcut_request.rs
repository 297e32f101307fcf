use typst_cli::shortcut::request::{ShortcutError, ShortcutRequest};
use typst_cli::shortcut::stem::derived_stem;
use typst_cli::shortcut::{DEFAULT_FONT, FONTS_REQUEST, INTERMEDIATE_FILE_NAME};

fn args(words: &[&str]) -> Vec<String> {
    words.iter().map(|word| word.to_string()).collect()
}

#[test]
fn the_fixed_names() {
    assert_eq!(DEFAULT_FONT, "HYKaiTiJ");
    assert_eq!(INTERMEDIATE_FILE_NAME, "typst_inner_proc_intermediate_file");
    assert_eq!(FONTS_REQUEST, "fonts");
}

#[test]
fn the_stem_ends_at_the_first_dot() {
    assert_eq!(derived_stem("report.md"), Some("report".to_string()));
    assert_eq!(derived_stem("x.y.md"), Some("x".to_string()));
    assert_eq!(derived_stem("archive.tar.gz"), Some("archive".to_string()));
}

#[test]
fn a_name_without_a_dot_has_no_stem() {
    assert_eq!(derived_stem("README"), None);
    assert_eq!(derived_stem("fonts"), None);
    assert_eq!(derived_stem(""), None);
}

#[test]
fn a_stem_may_be_empty() {
    assert_eq!(derived_stem(".gitignore"), Some(String::new()));
    assert_eq!(derived_stem("."), Some(String::new()));
    assert_eq!(derived_stem(".."), Some(String::new()));
}

#[test]
fn a_dot_at_the_end_is_a_dot() {
    assert_eq!(derived_stem("notes."), Some("notes".to_string()));
}

#[test]
fn a_stem_is_counted_in_characters() {
    assert_eq!(derived_stem("r\u{e9}sum\u{e9}.md"), Some("r\u{e9}sum\u{e9}".to_string()));
    assert_eq!(derived_stem("\u{6587}\u{6863}.md"), Some("\u{6587}\u{6863}".to_string()));
    assert_eq!(derived_stem("dir/sub.dir/file.md"), Some("dir/sub".to_string()));
}

#[test]
fn no_arguments_name_no_file() {
    assert_eq!(ShortcutRequest::parse(&args(&[])), Err(ShortcutError::NoFileSpecified));
}

#[test]
fn the_program_name_alone_names_no_file() {
    assert_eq!(ShortcutRequest::parse(&args(&["typst"])), Err(ShortcutError::NoFileSpecified));
}

#[test]
fn a_file_name_needs_a_dot() {
    assert_eq!(
        ShortcutRequest::parse(&args(&["typst", "README"])),
        Err(ShortcutError::FileNameError)
    );
    assert_eq!(
        ShortcutRequest::parse(&args(&["typst", "README", "Noto Serif"])),
        Err(ShortcutError::FileNameError)
    );
    assert_eq!(ShortcutRequest::parse(&args(&["typst", ""])), Err(ShortcutError::FileNameError));
}

#[test]
fn the_font_defaults() {
    let request = ShortcutRequest::parse(&args(&["typst", "report.md"])).unwrap();
    assert_eq!(
        request,
        ShortcutRequest {
            input_file_name: "report.md".to_string(),
            font_name: "HYKaiTiJ".to_string(),
            derived_stem: "report".to_string(),
        }
    );
    assert!(!request.lists_fonts());
}

#[test]
fn the_intermediate_file_has_one_name() {
    let one = ShortcutRequest::parse(&args(&["typst", "report.md"])).unwrap();
    let other = ShortcutRequest::parse(&args(&["typst", "x.y.md", "Noto Serif"])).unwrap();
    assert_eq!(one.intermediate_file_name(), "typst_inner_proc_intermediate_file");
    assert_eq!(other.intermediate_file_name(), "typst_inner_proc_intermediate_file");
}

#[test]
fn the_font_can_be_given() {
    let request = ShortcutRequest::parse(&args(&["typst", "report.md", "Noto Serif"])).unwrap();
    assert_eq!(request.font_name, "Noto Serif");
    assert_eq!(request.input_file_name, "report.md");
    assert_eq!(request.derived_stem, "report");
}

#[test]
fn arguments_after_the_font_are_not_read() {
    let request =
        ShortcutRequest::parse(&args(&["typst", "a.md", "Noto Serif", "--watch", "b.md"])).unwrap();
    assert_eq!(
        request,
        ShortcutRequest {
            input_file_name: "a.md".to_string(),
            font_name: "Noto Serif".to_string(),
            derived_stem: "a".to_string(),
        }
    );
}

#[test]
fn the_program_name_is_not_read() {
    let one = ShortcutRequest::parse(&args(&["typst", "a.md"]));
    let other = ShortcutRequest::parse(&args(&["/usr/local/bin/t.y.p", "a.md"]));
    assert_eq!(one, other);
}

#[test]
fn a_name_with_two_dots_has_the_short_stem() {
    let request = ShortcutRequest::parse(&args(&["typst", "x.y.md"])).unwrap();
    assert_eq!(request.derived_stem, "x");
    assert_eq!(request.input_file_name, "x.y.md");
}

#[test]
fn fonts_is_no_file_name() {
    let request = ShortcutRequest::parse(&args(&["typst", "fonts"])).unwrap();
    assert!(request.lists_fonts());
    assert_eq!(request.input_file_name, "fonts");
    assert_eq!(request.derived_stem, "fonts");
    assert_eq!(request.font_name, "HYKaiTiJ");
}

#[test]
fn only_the_exact_name_asks_for_fonts() {
    assert_eq!(
        ShortcutRequest::parse(&args(&["typst", "Fonts"])),
        Err(ShortcutError::FileNameError)
    );
    assert_eq!(
        ShortcutRequest::parse(&args(&["typst", "font"])),
        Err(ShortcutError::FileNameError)
    );
    let request = ShortcutRequest::parse(&args(&["typst", "fonts.md"])).unwrap();
    assert!(!request.lists_fonts());
    assert_eq!(request.derived_stem, "fonts");
}

#[test]
fn the_errors_of_the_arguments_say_what_is_wrong() {
    assert_eq!(ShortcutError::NoFileSpecified.message(), "no file specified");
    assert_eq!(ShortcutError::FileNameError.message(), "file name error");
    assert!(ShortcutError::NoFileSpecified.is_argument_error());
    assert!(ShortcutError::FileNameError.is_argument_error());
}

#[test]
fn the_error_of_a_step_says_what_was_reported() {
    let report = "disk full".to_string();
    assert_eq!(ShortcutError::Fonts(report.clone()).message(), "disk full");
    assert_eq!(ShortcutError::Write(report.clone()).message(), "disk full");
    assert_eq!(ShortcutError::Compile(report.clone()).message(), "disk full");
    assert_eq!(ShortcutError::Remove(report.clone()).message(), "disk full");
    assert_eq!(ShortcutError::Rename(report.clone()).message(), "disk full");
    assert!(!ShortcutError::Fonts(report.clone()).is_argument_error());
    assert!(!ShortcutError::Write(report.clone()).is_argument_error());
    assert!(!ShortcutError::Compile(report.clone()).is_argument_error());
    assert!(!ShortcutError::Remove(report.clone()).is_argument_error());
    assert!(!ShortcutError::Rename(report).is_argument_error());
}
