use nagiosplugin::config_generator::{
    escape_string, ArgumentSchema, CommandDescription, CommandDescriptionFromError,
    ToIcingaCommandError,
};

fn schema(long: Option<&str>, help: Option<&str>, values: &[&str], default: Option<&str>) -> ArgumentSchema {
    ArgumentSchema {
        long: long.map(|s| s.to_string()),
        help: help.map(|s| s.to_string()),
        possible_values: values.iter().map(|s| s.to_string()).collect(),
        default_values: default.map(|s| vec![Some(s.to_string())]).unwrap_or_default(),
    }
}

#[test]
fn escaping_quotes_and_dollars() {
    assert_eq!(escape_string("a\"b$c"), "a\\\"b\\$c");
    assert_eq!(escape_string("plain"), "plain");
    assert_eq!(escape_string(""), "");
}

#[test]
fn missing_long_name_is_refused() {
    let args = vec![schema(Some("a"), None, &[], None), schema(None, None, &[], None)];
    assert!(matches!(
        CommandDescription::from_arguments(&args),
        Err(CommandDescriptionFromError::MissingLongArgument)
    ));
}

#[test]
fn command_config_text() {
    let args = vec![
        schema(Some("arg1"), None, &[], None),
        schema(Some("arg-2"), Some("The \"arg2\""), &[], Some("my-$default")),
        schema(Some("my-flag"), None, &["true", "false"], Some("false")),
    ];
    let d = CommandDescription::from_arguments(&args).ok().unwrap();
    let out = d.to_icinga_command("example", Some("/usr/bin/check")).ok().unwrap();
    assert_eq!(
        out,
        "object CheckCommand \"example\" {\n\
         \x20 command = [ \"/usr/bin/check\" ]\n\
         \x20 arguments = {\n\
         \x20 \"arg1\" = {\n\
         \x20   value = \"$arg1$\"\n\
         \x20 }\n\
         \x20 \"arg-2\" = {\n\
         \x20   value = \"$arg_2$\"\n\
         \x20   description = \"The \\\"arg2\\\"\"\n\
         \x20 }\n\
         \x20 \"my-flag\" = {\n\
         \x20   set_if = \"$my_flag$\"\n\
         \x20 }\n\
         \n\
         \x20 vars.arg_2 = \"my-\\$default\"\n\
         \x20 vars.my_flag = \"false\"\n\
         }\n"
    );
}

#[test]
fn invalid_executable_path() {
    let d = CommandDescription::from_arguments(&vec![]).ok().unwrap();
    assert!(matches!(
        d.to_icinga_command("x", None),
        Err(ToIcingaCommandError::InvalidExecutablePath)
    ));
}

#[test]
fn from_clap_command() {
    let cmd = clap::Command::new("check")
        .arg(clap::Arg::new("warn-level").long("warn-level").help("warning level").default_value("10"))
        .arg(clap::Arg::new("verbose").long("verbose").value_parser(clap::builder::BoolValueParser::new()));
    let d = CommandDescription::try_from(&cmd).ok().unwrap();
    let out = d.to_icinga_command("check", Some("/bin/check")).ok().unwrap();
    assert!(out.contains("  \"warn-level\" = {\n    value = \"$warn_level$\"\n    description = \"warning level\"\n  }\n"));
    assert!(out.contains("    set_if = \"$verbose$\"\n"));
    assert!(out.contains("  vars.warn_level = \"10\"\n"));

    let cmd = clap::Command::new("check").arg(clap::Arg::new("pos"));
    assert!(matches!(
        CommandDescription::from_command(&cmd),
        Err(CommandDescriptionFromError::MissingLongArgument)
    ));
}
