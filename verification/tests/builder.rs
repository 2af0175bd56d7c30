use std::path::PathBuf;

use easy_cli::builder::{
    arg_tag, build_script_command, collect, comment_or_not, doc_tag, doc_tag_or_not, opt_tag,
    sub_tag, var_arg_tag, AboutTag, DocTag, SubTag,
};
use easy_cli::model::{ArgType, CommandArg, CommandOption};
use easy_cli::text::chars_of;
use easy_cli::utils::strip_file_suffix;

const NO_DESCRIPTION: Option<String> = None;

fn default_name(path: &PathBuf) -> String {
    path.file_name()
        .map(|name| name.to_string_lossy().to_string())
        .map(|file_name| strip_file_suffix(&file_name).unwrap())
        .unwrap()
}

#[test]
fn sub_tag_finds_name() {
    let input = chars_of("fooBar ignored\n");

    let sub = sub_tag(&input);

    assert_eq!(
        sub.unwrap(),
        DocTag::Sub(SubTag::new("fooBar".to_string(), None))
    );
}

#[test]
fn tag_finds_sub_tag() {
    let input = chars_of("sub fooBar\n");

    let sub = doc_tag(&input);

    assert_eq!(
        sub.unwrap(),
        DocTag::Sub(SubTag::new("fooBar".to_string(), None))
    );
}

#[test]
fn arg_finds_name() {
    let input = chars_of("fooBar\n");

    let sub = arg_tag(&input);

    assert_eq!(
        sub.unwrap(),
        DocTag::Arg(CommandArg::new(
            "fooBar".to_string(),
            false,
            false,
            ArgType::Unknown,
            NO_DESCRIPTION
        ))
    );
}

#[test]
fn arg_finds_description() {
    let input = chars_of("fooBar A description of foobar\n");

    let sub = arg_tag(&input);

    assert_eq!(
        sub.unwrap(),
        DocTag::Arg(CommandArg::new(
            "fooBar".to_string(),
            false,
            false,
            ArgType::Unknown,
            Some("A description of foobar".to_string()),
        ))
    );
}

#[test]
fn arg_finds_optional() {
    let input = chars_of("fooBar true\n");

    let sub = arg_tag(&input);

    assert_eq!(
        sub.unwrap(),
        DocTag::Arg(CommandArg::new(
            "fooBar".to_string(),
            true,
            false,
            ArgType::Unknown,
            NO_DESCRIPTION
        ))
    );
}

#[test]
fn arg_finds_optional_and_desc() {
    let input = chars_of("fooBar TrUe A description of foobar\n");

    let sub = arg_tag(&input);

    assert_eq!(
        sub.unwrap(),
        DocTag::Arg(CommandArg::new(
            "fooBar".to_string(),
            true,
            false,
            ArgType::Unknown,
            Some("A description of foobar".to_string()),
        ))
    );
}

#[test]
fn arg_finds_type() {
    let input = chars_of("fooBar <file>\n");

    let sub = arg_tag(&input);

    assert_eq!(
        sub.unwrap(),
        DocTag::Arg(CommandArg::new(
            "fooBar".to_string(),
            false,
            false,
            ArgType::File,
            NO_DESCRIPTION
        ))
    );
}

#[test]
fn var_arg_finds_optional_and_desc() {
    let input = chars_of("fooBar TrUe A description of foobar\n");

    let sub = var_arg_tag(&input);

    assert_eq!(
        sub.unwrap(),
        DocTag::Arg(CommandArg::new(
            "fooBar".to_string(),
            true,
            true,
            ArgType::Unknown,
            Some("A description of foobar".to_string()),
        ))
    );
}

#[test]
fn arg_finds_optional_and_type_and_desc() {
    let input = chars_of("fooBar true <file> An optional file\n");

    let sub = arg_tag(&input);

    assert_eq!(
        sub.unwrap(),
        DocTag::Arg(CommandArg::new(
            "fooBar".to_string(),
            true,
            false,
            ArgType::File,
            Some("An optional file".to_string())
        ))
    );
}

#[test]
fn tag_finds_about() {
    let input = chars_of("about This is a description\n");

    let sub = doc_tag(&input);

    assert_eq!(
        sub.unwrap(),
        DocTag::About(AboutTag::new("This is a description".to_string()))
    );
}

#[test]
fn tag_or_not_finds_tag() {
    let input = chars_of("@about This is a description\n");

    let sub = doc_tag_or_not(&input);

    assert_eq!(
        sub.unwrap(),
        DocTag::About(AboutTag::new("This is a description".to_string()))
    );
}

#[test]
fn tag_or_not_ignores_non_tag() {
    let input = chars_of("This is a description\n");

    let sub = doc_tag_or_not(&input);

    assert!(sub.is_none());
}

#[test]
fn comment_or_not_finds_tag() {
    let input = chars_of("# @about This is a description\n");

    let sub = comment_or_not(&input);

    assert_eq!(
        sub.unwrap(),
        DocTag::About(AboutTag::new("This is a description".to_string()))
    );
}

#[test]
fn comment_or_not_ignores_non_tag() {
    let input = chars_of("# This is a description\n");

    let sub = comment_or_not(&input);

    assert!(sub.is_none());
}

#[test]
fn comment_or_not_ignores_non_comment() {
    let input = chars_of("This is a description\n");

    let sub = comment_or_not(&input);

    assert!(sub.is_none());
}

#[test]
fn opt_tag_finds_name() {
    let input = chars_of("fooBar\n");

    let sub = opt_tag(&input);

    assert_eq!(
        sub.unwrap(),
        DocTag::Opt(CommandOption::new(
            "fooBar".to_string(),
            None,
            false,
            NO_DESCRIPTION
        ))
    );
}

#[test]
fn opt_tag_finds_short() {
    let input = chars_of("fooBar 'f'\n");

    let sub = opt_tag(&input);

    assert_eq!(
        sub.unwrap(),
        DocTag::Opt(CommandOption::new(
            "fooBar".to_string(),
            Some('f'),
            false,
            NO_DESCRIPTION,
        ))
    );
}

#[test]
fn opt_tag_finds_has_args() {
    let input = chars_of("fooBar true\n");

    let sub = opt_tag(&input);

    assert_eq!(
        sub.unwrap(),
        DocTag::Opt(CommandOption::new(
            "fooBar".to_string(),
            None,
            true,
            NO_DESCRIPTION
        ))
    );
}

#[test]
fn opt_tag_finds_short_and_has_args() {
    let input = chars_of("fooBar 'd' true\n");

    let sub = opt_tag(&input);

    assert_eq!(
        sub.unwrap(),
        DocTag::Opt(CommandOption::new(
            "fooBar".to_string(),
            Some('d'),
            true,
            NO_DESCRIPTION,
        ))
    );
}

#[test]
fn opt_tag_finds_desc() {
    let input = chars_of("fooBar This param\n");

    let sub = opt_tag(&input);

    assert_eq!(
        sub.unwrap(),
        DocTag::Opt(CommandOption::new(
            "fooBar".to_string(),
            None,
            false,
            Some("This param".to_string()),
        ))
    );
}

#[test]
fn opt_tag_finds_all() {
    let input = chars_of("fooBar 'e' true This param\n");

    let sub = opt_tag(&input);

    assert_eq!(
        sub.unwrap(),
        DocTag::Opt(CommandOption::new(
            "fooBar".to_string(),
            Some('e'),
            true,
            Some("This param".to_string()),
        ))
    );
}

#[test]
fn opt_tag_acccepts_single_letter_at_start_of_desc() {
    let input = chars_of("fooBar A great option\n");

    let sub = opt_tag(&input);

    assert_eq!(
        sub.unwrap(),
        DocTag::Opt(CommandOption::new(
            "fooBar".to_string(),
            None,
            false,
            Some("A great option".to_string()),
        ))
    );
}

#[test]
fn collect_groups_each_subtag() {
    let input = chars_of(
        "# @about This is a description\n\
         # @wrong sdlklak askdölak\n\
         sdjfös lkäösdlföls\n\
         # @sub fooBar\n\
         # @about foobar description\n\
         aöslkfölas\n\
         # fpskdf\n\
         asdssd\n\
         # @sub barFoo\n\
         # @about barFoo description\n\
         aöslkfölas\n\
         # fpskdf\n\
         asdssd\n",
    );

    let sub = collect(&input);

    assert_eq!(sub.len(), 3);
}

#[test]
fn build_script_command_includes_sub_commands() {
    let script1_path = PathBuf::from("scripts").join("foo.sh");

    let content = "# @name CommandName blah blah\n\
                   # @about foo bar\n\
                   # @sub sub1\n\
                   # @opt longname 'l' true The description of longname\n\
                   function sub1(){}\n\
                   # @sub sub2\n\
                   # @arg arg1 true The description of arg1\n\
                   function sub2(){}\n";

    let name = default_name(&script1_path);
    let command = build_script_command(script1_path, name, content)
        .unwrap()
        .unwrap();

    assert_eq!(command.name, "CommandName");
    assert_eq!(command.description, Some("foo bar".to_string()));

    let sub_commands = command.sub_commands();
    assert_eq!(sub_commands.len(), 2);
    assert_eq!(sub_commands[0].name(), "sub1");
    assert_eq!(sub_commands[0].options().len(), 1);

    let option = &sub_commands[0].options()[0];

    assert_eq!(option.name, "longname");
    assert_eq!(option.short, Some('l'));
    assert_eq!(option.has_param, true);
    assert_eq!(
        option.description,
        Some("The description of longname".to_string())
    );

    assert_eq!(sub_commands[1].name(), "sub2");
    assert_eq!(sub_commands[1].args().len(), 1);

    let arg = &sub_commands[1].args()[0];

    assert_eq!(arg.name, "arg1");
    assert_eq!(arg.optional, true);
    assert_eq!(arg.var_arg, false);
    assert_eq!(arg.description, Some("The description of arg1".to_string()));
}

#[test]
fn build_script_command_finds_tag_on_last_line() {
    let script1_path = PathBuf::from("scripts").join("foo.sh");

    let content = "# @about The description of this file";

    let name = default_name(&script1_path);
    let command = build_script_command(script1_path, name, content)
        .unwrap()
        .unwrap();

    assert_eq!(command.name, "foo");
    assert_eq!(
        command.description.unwrap().as_str(),
        "The description of this file"
    );
}
