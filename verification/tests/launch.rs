use baml_resolver::command::launch_command;
use baml_resolver::resolver::ResolvedBinary;

#[test]
fn default_arguments_are_exactly_lsp() {
    let command = launch_command(ResolvedBinary {
        path: "baml-cli-1.2.0/baml-cli".to_string(),
        args: None,
    });
    assert_eq!(command.command, "baml-cli-1.2.0/baml-cli");
    assert_eq!(command.args, vec!["lsp".to_string()]);
    assert!(command.env.is_empty());
}

#[test]
fn configured_arguments_pass_through_unchanged() {
    let command = launch_command(ResolvedBinary {
        path: "/opt/baml/bin/baml-cli".to_string(),
        args: Some(vec!["serve".to_string(), "--port".to_string(), "8080".to_string()]),
    });
    assert_eq!(command.command, "/opt/baml/bin/baml-cli");
    assert_eq!(
        command.args,
        vec!["serve".to_string(), "--port".to_string(), "8080".to_string()]
    );
    assert!(command.env.is_empty());
}

#[test]
fn empty_configured_arguments_are_not_replaced_by_the_default() {
    let command = launch_command(ResolvedBinary {
        path: "baml-cli-1.2.0/baml-cli".to_string(),
        args: Some(vec![]),
    });
    assert_eq!(command.args, Vec::<String>::new());
}
