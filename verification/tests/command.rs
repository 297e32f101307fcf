use typst_cli::command::{Collaborator, Command};

type Plain = Command<&'static str, u8, (), Vec<String>, bool>;

#[test]
fn each_command_has_its_own_collaborator() {
    let compile: Plain = Command::Compile("main.typ");
    let watch: Plain = Command::Watch(3);
    let query: Plain = Command::Query(());
    let fonts: Plain = Command::Fonts(vec!["--variants".to_string()]);
    let update: Plain = Command::Update(true);
    assert_eq!(compile.route(), Collaborator::Compile);
    assert_eq!(watch.route(), Collaborator::Watch);
    assert_eq!(query.route(), Collaborator::Query);
    assert_eq!(fonts.route(), Collaborator::Fonts);
    assert_eq!(update.route(), Collaborator::Update);
}

#[test]
fn the_parameters_do_not_matter_to_the_routing() {
    let one: Plain = Command::Compile("a.typ");
    let other: Plain = Command::Compile("b.typ");
    assert_eq!(one.route(), other.route());
}
