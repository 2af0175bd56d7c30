use std::path::PathBuf;

use easy_cli::builder::{
    about_tag, arg_details, arg_type, arg_var_arg, assemble, build_model, build_script_command,
    collect, comment_or_not, doc_tag, group_tags, identifier, ignore_tag, name_tag,
    none_if_empty, opt_details, opt_tag, padded_bool, padded_bool_default_false, parser_for_tag,
    read_group, scan_tags, short_option, split_first_word, sub_tag, unknown_tag, AboutTag, DocTag,
    NameTag, ScriptFile, SubTag, TagKind,
};
use easy_cli::model::{ArgType, CommandArg, CommandOption};
use easy_cli::text::{chars_of, string_of};
use easy_cli::utils::strip_file_suffix;

fn name(text: &str) -> DocTag {
    DocTag::Name(NameTag::new(text.to_string()))
}

fn sub(text: &str) -> DocTag {
    DocTag::Sub(SubTag::new(text.to_string(), None))
}

fn about(text: &str) -> DocTag {
    DocTag::About(AboutTag::new(text.to_string()))
}

fn arg(text: &str) -> DocTag {
    DocTag::Arg(CommandArg::new(
        text.to_string(),
        false,
        false,
        ArgType::Unknown,
        None,
    ))
}

fn opt(text: &str) -> DocTag {
    DocTag::Opt(CommandOption::new(text.to_string(), None, false, None))
}

fn tags(text: &str) -> Vec<DocTag> {
    scan_tags(&chars_of(text))
}

fn script(file_name: &str, content: &str) -> ScriptFile {
    ScriptFile {
        path: PathBuf::from("scripts").join(file_name),
        default_name: strip_file_suffix(file_name).unwrap(),
        content: content.to_string(),
    }
}

fn stream(subs: usize, others: usize) -> Vec<DocTag> {
    let mut all = Vec::new();
    for i in 0..others {
        all.push(about(&format!("a{}", i)));
    }
    for i in 0..subs {
        all.push(sub(&format!("s{}", i)));
        for j in 0..others {
            all.push(arg(&format!("x{}", j)));
        }
    }
    all
}

#[test]
fn untagged_script_takes_any_arguments() {
    for content in ["", "echo hi\n", "# a comment\necho hi", "\n\n"] {
        let command = build_script_command(PathBuf::from("run.sh"), "run".to_string(), content)
            .unwrap()
            .unwrap();

        assert_eq!(command.name, "run");
        assert_eq!(command.description, None);
        assert_eq!(command.get_path(), Some(&PathBuf::from("run.sh")));
        assert!(command.options().is_empty());
        assert!(command.sub_commands().is_empty());
        assert_eq!(
            command.args(),
            &vec![CommandArg::new(
                "args".to_string(),
                true,
                true,
                ArgType::Unknown,
                Some("Any arguments are passed to the script".to_string()),
            )]
        );
    }
}

#[test]
fn ignore_as_first_tag_excludes_the_script() {
    for content in [
        "# @ignore\n",
        "# @ignore",
        "#@ignore-at-root\n",
        "echo\n# @ignore whatever\n# @name x\n# @sub y\n# @arg z\n",
    ] {
        let built = build_script_command(PathBuf::from("run.sh"), "run".to_string(), content);
        assert!(built.unwrap().is_none());
    }
}

#[test]
fn ignore_behind_another_tag_changes_nothing() {
    let command = build_script_command(
        PathBuf::from("run.sh"),
        "run".to_string(),
        "# @name x\n# @ignore\n",
    )
    .unwrap()
    .unwrap();
    assert_eq!(command.name, "x");
    assert!(command.args().is_empty());

    let behind_sub = build_script_command(
        PathBuf::from("run.sh"),
        "run".to_string(),
        "# @sub first\n# @ignore\n",
    )
    .unwrap()
    .unwrap();
    assert_eq!(behind_sub.name, "run");
    assert_eq!(behind_sub.sub_commands().len(), 1);
}

#[test]
fn groups_are_one_more_than_sub_tags() {
    for subs in 0..4 {
        for others in 0..3 {
            let groups = group_tags(stream(subs, others));
            assert_eq!(groups.len(), 1 + subs);
            assert_eq!(groups[0].len(), others);
            for group in &groups[1..] {
                assert_eq!(group.len(), 1 + others);
                assert!(group[0].is_sub());
            }
        }
    }
}

#[test]
fn groups_laid_end_to_end_are_the_stream() {
    let all = stream(3, 2);
    let groups = group_tags(all.clone());
    let joined: Vec<DocTag> = groups.into_iter().flatten().collect();
    assert_eq!(joined, all);
    assert_eq!(group_tags(vec![]), vec![Vec::<DocTag>::new()]);
}

#[test]
fn arguments_and_options_keep_the_order_of_their_tags() {
    let command = build_script_command(
        PathBuf::from("run.sh"),
        "run".to_string(),
        "# @arg b\n# @opt z\n# @arg a\n# @opt y\n# @vararg c\n\
         # @sub inner\n# @opt o2\n# @arg a2\n# @opt o1\n# @arg a1\n",
    )
    .unwrap()
    .unwrap();

    let names = |args: &Vec<CommandArg>| -> Vec<String> {
        args.iter().map(|arg| arg.name.clone()).collect()
    };
    let flags = |options: &Vec<CommandOption>| -> Vec<String> {
        options.iter().map(|option| option.name.clone()).collect()
    };

    assert_eq!(names(command.args()), vec!["b", "a", "c"]);
    assert_eq!(flags(command.options()), vec!["z", "y"]);
    assert!(command.args()[2].var_arg);

    let inner = &command.sub_commands()[0];
    assert_eq!(inner.name(), "inner");
    assert_eq!(names(inner.args()), vec!["a2", "a1"]);
    assert_eq!(flags(inner.options()), vec!["o2", "o1"]);
}

#[test]
fn last_name_and_last_about_win() {
    let command = build_script_command(
        PathBuf::from("run.sh"),
        "run".to_string(),
        "# @name one\n# @about first\n# @name two\n# @about second\n\
         # @sub inner\n# @about third\n# @name ignored\n# @about fourth\n",
    )
    .unwrap()
    .unwrap();

    assert_eq!(command.name, "two");
    assert_eq!(command.description, Some("second".to_string()));
    let inner = &command.sub_commands()[0];
    assert_eq!(inner.name(), "inner");
    assert_eq!(inner.description(), Some("fourth"));
    assert!(inner.get_path().is_none());
    assert!(inner.sub_commands().is_empty());
}

#[test]
fn assemble_refuses_a_later_group_without_sub_tag() {
    let refused = assemble(
        vec![vec![], vec![about("x")]],
        "run".to_string(),
        PathBuf::from("run.sh"),
    );
    assert_eq!(refused.err(), Some("No sub tag found".to_string()));

    let empty_later = assemble(
        vec![vec![name("n")], vec![sub("s")], vec![]],
        "run".to_string(),
        PathBuf::from("run.sh"),
    );
    assert_eq!(empty_later.err(), Some("No sub tag found".to_string()));
}

#[test]
fn assemble_checks_in_order_of_precedence() {
    let none_at_all = assemble(vec![], "run".to_string(), PathBuf::from("run.sh"))
        .unwrap()
        .unwrap();
    assert_eq!(none_at_all.args().len(), 1);
    assert_eq!(none_at_all.args()[0].name, "args");

    let ignored = assemble(
        vec![vec![DocTag::Ignore], vec![about("stray")]],
        "run".to_string(),
        PathBuf::from("run.sh"),
    );
    assert_eq!(ignored.unwrap().map(|command| command.name), None);

    let empty_first = assemble(
        vec![vec![], vec![sub("s"), opt("o")]],
        "run".to_string(),
        PathBuf::from("run.sh"),
    )
    .unwrap()
    .unwrap();
    assert_eq!(empty_first.name, "run");
    assert!(empty_first.args().is_empty());
    assert_eq!(empty_first.sub_commands()[0].options()[0].name, "o");
}

#[test]
fn read_group_takes_a_group_apart() {
    let parts = read_group(vec![
        sub("s"),
        arg("a"),
        name("n1"),
        opt("o"),
        sub("later"),
        about("t"),
        name("n2"),
        DocTag::Ignore,
    ]);
    assert_eq!(parts.sub_name, Some("s".to_string()));
    assert_eq!(parts.name, Some("n2".to_string()));
    assert_eq!(parts.description, Some("t".to_string()));
    assert_eq!(parts.args.len(), 1);
    assert_eq!(parts.options.len(), 1);

    let plain = read_group(vec![arg("a"), sub("not leading")]);
    assert_eq!(plain.sub_name, None);
    assert_eq!(plain.name, None);
    assert_eq!(plain.description, None);
}

#[test]
fn a_tag_on_the_last_line_needs_no_line_end() {
    for text in [
        "# @name x\n# @about last",
        "# @name x\n# @about last\n",
        "# @name x\r\n# @about last\r\n",
        "# @name x\r# @about last\r",
    ] {
        assert_eq!(tags(text), vec![name("x"), about("last")]);
    }
}

#[test]
fn a_tag_never_reaches_into_the_next_line() {
    assert_eq!(tags("#\n@about x\n"), vec![]);
    assert_eq!(tags("# @\nabout x\n"), vec![]);
    assert_eq!(tags("# @name\nfoo\n"), vec![]);
    assert_eq!(tags("# @sub\n# @about x\n"), vec![about("x")]);
    assert_eq!(tags("# @about\nfoo\n"), vec![about("")]);
    assert_eq!(tags("# @arg\n# @opt\nname"), vec![]);
}

#[test]
fn lines_that_are_no_annotation_are_passed_over() {
    assert_eq!(
        tags(
            "#!/bin/sh\n# plain comment\necho # @name inline\n  \t# @name x\n#@sub y\n\
             # @wrong z\n# @ name w\n# -@name v\n## @name u\n#  \t @about t\n"
        ),
        vec![name("x"), sub("y"), about("t")]
    );
}

#[test]
fn a_keyword_ends_at_whitespace_or_hyphen() {
    assert_eq!(string_of(identifier(&chars_of("ignore-at-root x"))), "ignore");
    assert_eq!(string_of(identifier(&chars_of("about\tx"))), "about");
    assert_eq!(string_of(identifier(&chars_of("-x"))), "");
    assert_eq!(string_of(identifier(&chars_of(""))), "");

    assert_eq!(doc_tag(&chars_of("about-this")), Some(about("-this")));
    assert_eq!(doc_tag(&chars_of("ignore-at-root")), Some(DocTag::Ignore));
    assert_eq!(doc_tag(&chars_of("name-x")), Some(name("-x")));
    assert_eq!(doc_tag(&chars_of("names x")), None);
    assert_eq!(doc_tag(&chars_of("Name x")), None);
    assert_eq!(doc_tag(&chars_of("")), None);
}

#[test]
fn parser_for_tag_knows_seven_keywords() {
    let kind = |word: &str| parser_for_tag(&chars_of(word));
    assert!(matches!(kind("ignore"), TagKind::Ignore));
    assert!(matches!(kind("name"), TagKind::Name));
    assert!(matches!(kind("sub"), TagKind::Sub));
    assert!(matches!(kind("about"), TagKind::About));
    assert!(matches!(kind("arg"), TagKind::Arg));
    assert!(matches!(kind("vararg"), TagKind::VarArg));
    assert!(matches!(kind("opt"), TagKind::Opt));
    assert!(matches!(kind(""), TagKind::Unknown));
    assert!(matches!(kind("option"), TagKind::Unknown));
    assert!(matches!(kind("ARG"), TagKind::Unknown));
}

#[test]
fn name_and_sub_take_the_first_word() {
    assert_eq!(name_tag(&chars_of("  my-tool rest of line\nnext")), Some(name("my-tool")));
    assert_eq!(sub_tag(&chars_of("\tsub-1\tx")), Some(sub("sub-1")));
    assert_eq!(name_tag(&chars_of("   \n")), None);
    assert_eq!(sub_tag(&chars_of("")), None);
    assert_eq!(ignore_tag(&chars_of("anything")), Some(DocTag::Ignore));
    assert_eq!(unknown_tag(&chars_of("anything")), None);
}

#[test]
fn about_keeps_the_line_but_for_leading_whitespace() {
    assert_eq!(about_tag(&chars_of(" \t text  with  gaps \t\nnext")), Some(about("text  with  gaps \t")));
    assert_eq!(about_tag(&chars_of("")), Some(about("")));
    assert_eq!(about_tag(&chars_of("   ")), Some(about("")));
}

#[test]
fn arg_details_are_read_word_by_word() {
    let details = |text: &str| arg_details("x".to_string(), false, &chars_of(text));

    assert_eq!(
        details("  FALSE   <Dir>   The  place \t"),
        CommandArg::new("x".to_string(), false, false, ArgType::Dir, Some("The  place".to_string()))
    );
    assert_eq!(
        details("truest value"),
        CommandArg::new("x".to_string(), false, false, ArgType::Unknown, Some("truest value".to_string()))
    );
    assert_eq!(
        details("<dir>rest"),
        CommandArg::new("x".to_string(), false, false, ArgType::Unknown, Some("<dir>rest".to_string()))
    );
    assert_eq!(
        details("<> empty"),
        CommandArg::new("x".to_string(), false, false, ArgType::Unknown, Some("<> empty".to_string()))
    );
    assert_eq!(
        details("<number> true"),
        CommandArg::new("x".to_string(), false, false, ArgType::Unknown, Some("true".to_string()))
    );
    assert_eq!(
        details("<file> <dir>"),
        CommandArg::new("x".to_string(), false, false, ArgType::File, Some("<dir>".to_string()))
    );
    assert_eq!(
        details("   "),
        CommandArg::new("x".to_string(), false, false, ArgType::Unknown, None)
    );
}

#[test]
fn opt_details_are_read_word_by_word() {
    let details = |text: &str| opt_details("x".to_string(), &chars_of(text));

    assert_eq!(
        details(" '\u{e9}'  TRUE  Takes a value  "),
        CommandOption::new("x".to_string(), Some('\u{e9}'), true, Some("Takes a value".to_string()))
    );
    assert_eq!(
        details("true 'e'"),
        CommandOption::new("x".to_string(), None, true, Some("'e'".to_string()))
    );
    assert_eq!(
        details("'ab' false"),
        CommandOption::new("x".to_string(), None, false, Some("'ab' false".to_string()))
    );
    assert_eq!(
        details("'e'true"),
        CommandOption::new("x".to_string(), None, false, Some("'e'true".to_string()))
    );
    assert_eq!(
        details("'''"),
        CommandOption::new("x".to_string(), Some('\''), false, None)
    );
    assert_eq!(details(""), CommandOption::new("x".to_string(), None, false, None));
}

#[test]
fn names_may_hold_hyphens() {
    assert_eq!(
        opt_tag(&chars_of("dry-run 'd' Does nothing\n")),
        Some(DocTag::Opt(CommandOption::new(
            "dry-run".to_string(),
            Some('d'),
            false,
            Some("Does nothing".to_string())
        )))
    );
    assert_eq!(
        arg_var_arg(true, &chars_of("in-files <path>")),
        Some(DocTag::Arg(CommandArg::new(
            "in-files".to_string(),
            false,
            true,
            ArgType::Path,
            None
        )))
    );
    assert_eq!(arg_var_arg(false, &chars_of("  \n")), None);
    assert_eq!(opt_tag(&chars_of("")), None);
}

#[test]
fn field_readers_say_what_is_left() {
    let input = chars_of("  True  rest");
    let (value, rest) = padded_bool(&input).unwrap();
    assert!(value);
    assert_eq!(string_of(rest), "  rest");
    assert!(padded_bool(&chars_of("yes")).is_none());
    assert!(padded_bool(&chars_of("")).is_none());

    let input = chars_of(" maybe x");
    let (value, rest) = padded_bool_default_false(&input);
    assert!(!value);
    assert_eq!(string_of(rest), " maybe x");
    let input = chars_of(" false x");
    let (value, rest) = padded_bool_default_false(&input);
    assert!(!value);
    assert_eq!(string_of(rest), " x");

    let input = chars_of(" <PATH> x");
    let (kind, rest) = arg_type(&input).unwrap();
    assert_eq!(kind, ArgType::Path);
    assert_eq!(string_of(rest), " x");
    assert!(arg_type(&chars_of("<path x")).is_none());
    assert!(arg_type(&chars_of("path>")).is_none());

    let input = chars_of("'x' y");
    let (flag, rest) = short_option(&input).unwrap();
    assert_eq!(flag, 'x');
    assert_eq!(string_of(rest), " y");
    assert!(short_option(&chars_of("x")).is_none());
    assert!(short_option(&chars_of("''")).is_none());

    let input = chars_of("  one  two ");
    let (word, rest) = split_first_word(&input);
    assert_eq!(string_of(word), "one");
    assert_eq!(string_of(rest), "  two ");

    assert_eq!(none_if_empty(&chars_of("")), None);
    assert_eq!(none_if_empty(&chars_of(" ")), Some(" ".to_string()));
}

#[test]
fn comment_or_not_reads_the_first_line_only() {
    assert_eq!(
        comment_or_not(&chars_of("# @vararg files true <path> Many files\n# @name x")),
        Some(DocTag::Arg(CommandArg::new(
            "files".to_string(),
            true,
            true,
            ArgType::Path,
            Some("Many files".to_string())
        )))
    );
    assert_eq!(comment_or_not(&chars_of("\n# @name x")), None);
    assert_eq!(comment_or_not(&chars_of("")), None);
}

#[test]
fn collect_cuts_at_every_sub_tag() {
    let groups = collect(&chars_of(
        "# @about top\n# @sub one\n# @arg a\n# @sub two\n# @sub three\n# @opt o\n",
    ));
    assert_eq!(
        groups,
        vec![
            vec![about("top")],
            vec![sub("one"), arg("a")],
            vec![sub("two")],
            vec![sub("three"), opt("o")],
        ]
    );
    assert_eq!(collect(&chars_of("")), vec![Vec::<DocTag>::new()]);
}

#[test]
fn build_model_lists_scripts() {
    let model = build_model(vec![script("script1.sh", ""), script("script2.sh", "")]);

    assert_eq!(model.commands.len(), 2);

    let mut names: Vec<String> = model
        .commands
        .iter()
        .map(|command| command.name().to_owned())
        .collect();

    names.sort();

    assert_eq!(names.join(","), "script1,script2");
}

#[test]
fn build_model_includes_function_commands() {
    let model = build_model(vec![script(
        "script1.sh",
        "# @sub sub1\nfunction sub1(){}\n# @sub sub2\nfunction sub2(){}\n",
    )]);

    assert_eq!(model.commands.len(), 1);
    assert_eq!(model.commands[0].sub_commands().len(), 2);

    let mut names: Vec<String> = model.commands[0]
        .sub_commands()
        .iter()
        .map(|command| command.name().to_owned())
        .collect();

    names.sort();

    assert_eq!(names.join(","), "sub1,sub2");
}

#[test]
fn build_model_includes_script_commands() {
    let model = build_model(vec![
        script(
            "script1.sh",
            "# @sub sub1\nfunction sub1(){}\n# @sub sub2 script2.sh\nfunction sub2(){}\n",
        ),
        script("script2.sh", "# @ignore-at-root\n"),
    ]);

    assert_eq!(model.commands.len(), 1);
    assert_eq!(model.commands[0].sub_commands().len(), 2);

    let mut names: Vec<String> = model.commands[0]
        .sub_commands()
        .iter()
        .map(|command| command.name().to_owned())
        .collect();

    names.sort();

    assert_eq!(names.join(","), "sub1,sub2");
}

#[test]
fn build_model_keeps_the_order_of_the_scripts() {
    let model = build_model(vec![
        script("b.sh", "# @name second\n"),
        script("skip.sh", "# @ignore\n"),
        script("a.sh", ""),
    ]);

    let names: Vec<&str> = model.commands.iter().map(|command| command.name()).collect();
    assert_eq!(names, vec!["second", "a"]);
    assert_eq!(
        model.commands[1].get_path(),
        Some(&PathBuf::from("scripts").join("a.sh"))
    );
    assert!(build_model(vec![]).commands.is_empty());
}
