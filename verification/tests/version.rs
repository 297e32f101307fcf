use typst_cli::typst_version;

#[test]
fn the_version_is_the_one_that_was_built_in() {
    assert_eq!(typst_version("0.10.0 (a1b2c3d)"), "0.10.0 (a1b2c3d)");
    assert_eq!(typst_version(""), "");
}
