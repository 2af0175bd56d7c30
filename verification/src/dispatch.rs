//! From a parsed command line to the script that is to run.
//!
//! A command line that was matched against the interface of a tool names a
//! chain of commands, the top-level command first, and gives each of them
//! some arguments. The chain is followed through the model; what is found is
//! rendered as shell text, or handed to the script as its argument list.

use crate::model::{
    arg_named, command_named, find_command, option_named, Command, CommandView, Model,
};
use std::path::PathBuf;
use vstd::prelude::*;
use vstd::string::StringExecFns;

verus! {

pub const DEFAULT_CLI_NAME: &'static str = "cli";

/// What the launcher is asked to do.
#[derive(Debug, Clone, PartialEq)]
pub enum Mode {
    /// Run the script.
    Executed,
    /// Print shell text that runs the script when it is evaluated.
    Evaluated,
    /// Print completions for the named shell.
    Completions(String),
}

/// What the launcher is asked to do, its text as a character sequence.
pub enum ModeView {
    Executed,
    Evaluated,
    Completions(Seq<char>),
}

impl View for Mode {
    type V = ModeView;

    open spec fn view(&self) -> ModeView {
        match *self {
            Mode::Executed => ModeView::Executed,
            Mode::Evaluated => ModeView::Evaluated,
            Mode::Completions(shell) => ModeView::Completions(shell@),
        }
    }
}

/// The mode that the launcher's own arguments ask for: completions where a
/// shell is named, whatever else is given; otherwise running the script where
/// that was asked for, and printing shell text where it was not.
pub fn select_mode(executed: bool, shell_for_completions: Option<String>) -> (r: Mode)
    ensures
        r@ == match shell_for_completions {
            Some(shell) => ModeView::Completions(shell@),
            None => if executed {
                ModeView::Executed
            } else {
                ModeView::Evaluated
            },
        },
{
    match shell_for_completions {
        None => {
            if executed {
                Mode::Executed
            } else {
                Mode::Evaluated
            }
        },
        Some(shell) => Mode::Completions(shell),
    }
}

/// The texts of a list of strings.
pub open spec fn texts_view(texts: Seq<String>) -> Seq<Seq<char>> {
    Seq::new(texts.len(), |i: int| texts[i]@)
}

/// The command line for the tool's own interface: the name of the tool, then
/// the arguments that were left for it, in their order.
pub fn build_cli_args(name: String, command_args: Option<Vec<String>>) -> (r: Vec<String>)
    ensures
        texts_view(r@) == seq![name@] + match command_args {
            Some(args) => texts_view(args@),
            None => Seq::empty(),
        },
{
    let mut cli_args: Vec<String> = Vec::new();
    cli_args.push(name);
    match command_args {
        Some(args) => {
            let ghost all = args@;
            for arg in it: args
                invariant
                    it.seq() == all,
                    texts_view(cli_args@) == seq![name@] + texts_view(all.take(it.index())),
            {
                let ghost before = texts_view(cli_args@);
                cli_args.push(arg);
                assert(texts_view(cli_args@) == before.push(arg@));
            }
        },
        None => {},
    }
    cli_args
}

/// One argument that was found on the command line.
#[derive(Debug, Clone, PartialEq)]
pub struct MatchedArg {
    /// The name the argument is found by.
    pub id: String,
    /// Whether it was given, where it is a flag.
    pub flag: bool,
    /// Its values as they were written, where it has any.
    pub values: Option<Vec<String>>,
}

/// One matched argument, its texts as character sequences.
pub struct MatchedArgView {
    pub id: Seq<char>,
    pub flag: bool,
    pub values: Option<Seq<Seq<char>>>,
}

impl View for MatchedArg {
    type V = MatchedArgView;

    open spec fn view(&self) -> MatchedArgView {
        MatchedArgView {
            id: self.id@,
            flag: self.flag,
            values: match self.values {
                Some(values) => Some(texts_view(values@)),
                None => None,
            },
        }
    }
}

/// One command that was named on the command line, with the arguments that
/// were found for it, in the order they are reported.
#[derive(Debug, Clone, PartialEq)]
pub struct MatchedCommand {
    pub name: String,
    pub args: Vec<MatchedArg>,
}

/// One matched command, its texts as character sequences.
pub struct MatchedCommandView {
    pub name: Seq<char>,
    pub args: Seq<MatchedArgView>,
}

/// The views of a list of matched arguments.
pub open spec fn matched_args_view(args: Seq<MatchedArg>) -> Seq<MatchedArgView> {
    Seq::new(args.len(), |i: int| args[i]@)
}

impl View for MatchedCommand {
    type V = MatchedCommandView;

    open spec fn view(&self) -> MatchedCommandView {
        MatchedCommandView { name: self.name@, args: matched_args_view(self.args@) }
    }
}

/// The views of a chain of matched commands.
pub open spec fn chain_view(chain: Seq<MatchedCommand>) -> Seq<MatchedCommandView> {
    Seq::new(chain.len(), |i: int| chain[i]@)
}

/// Why a command line leads to no script.
#[derive(Debug, Clone, Copy, PartialEq, Eq)]
pub enum DispatchError {
    /// The command line names no command.
    NoCommand,
    /// A command of the chain is not in the model, at its place.
    UnknownCommand,
    /// The top-level command has no script.
    NoScript,
    /// An option with a parameter was given: these are not handled yet.
    OptionWithParameter,
}

/// `parts` laid end to end, with `separator` between each two.
pub open spec fn joined(parts: Seq<Seq<char>>, separator: Seq<char>) -> Seq<char>
    decreases parts.len(),
{
    if parts.len() == 0 {
        Seq::empty()
    } else if parts.len() == 1 {
        parts[0]
    } else {
        joined(parts.drop_last(), separator) + separator + parts.last()
    }
}

/// `parts` laid end to end, with `separator` between each two.
pub fn join(parts: &Vec<String>, separator: &str) -> (r: String)
    ensures
        r@ == joined(texts_view(parts@), separator@),
{
    let ghost all = texts_view(parts@);
    let mut text = String::new();
    let mut i: usize = 0;
    while i < parts.len()
        invariant
            i <= parts@.len(),
            all == texts_view(parts@),
            text@ == joined(all.take(i as int), separator@),
        decreases parts@.len() - i,
    {
        let ghost now = all.take(i + 1);
        assert(now.drop_last() == all.take(i as int));
        if i > 0 {
            text.append(separator);
        }
        text.append(parts[i].as_str());
        i += 1;
    }
    assert(all.take(all.len() as int) == all);
    text
}

/// The flags that a command finds among the matched arguments: for each
/// matched argument that names one of its options, in order, the name and
/// whether the flag was given.
pub open spec fn flags_of(command: CommandView, matched: Seq<MatchedArgView>) -> Seq<
    (Seq<char>, bool),
>
    decreases matched.len(),
{
    if matched.len() == 0 {
        Seq::empty()
    } else {
        let before = flags_of(command, matched.drop_last());
        let arg = matched.last();
        if option_named(command.options, arg.id) is Some {
            before.push((arg.id, arg.flag))
        } else {
            before
        }
    }
}

/// The text of the values of a matched argument: joined by commas, empty where
/// it has none.
pub open spec fn value_text(arg: MatchedArgView) -> Seq<char> {
    match arg.values {
        Some(values) => joined(values, COMMA@),
        None => Seq::empty(),
    }
}

/// The values that a command finds among the matched arguments: for each
/// matched argument that names one of its positional arguments, in order, the
/// name and the text of its values.
pub open spec fn values_of(command: CommandView, matched: Seq<MatchedArgView>) -> Seq<
    (Seq<char>, Seq<char>),
>
    decreases matched.len(),
{
    if matched.len() == 0 {
        Seq::empty()
    } else {
        let before = values_of(command, matched.drop_last());
        let arg = matched.last();
        if arg_named(command.args, arg.id) is Some {
            before.push((arg.id, value_text(arg)))
        } else {
            before
        }
    }
}

/// Whether a matched argument names an option of the command that has a
/// parameter.
pub open spec fn has_valued_option(command: CommandView, matched: Seq<MatchedArgView>) -> bool {
    exists|i: int|
        0 <= i < matched.len() && (#[trigger] option_named(command.options, matched[i].id)
            matches Some(option) && option.has_param)
}

pub const COMMA: &'static str = ",";

/// The views of a list of flags.
pub open spec fn flags_view(flags: Seq<(String, bool)>) -> Seq<(Seq<char>, bool)> {
    Seq::new(flags.len(), |i: int| (flags[i].0@, flags[i].1))
}

/// The views of a list of named values.
pub open spec fn values_view(values: Seq<(String, String)>) -> Seq<(Seq<char>, Seq<char>)> {
    Seq::new(values.len(), |i: int| (values[i].0@, values[i].1@))
}

/// Whether a matched argument names an option of the command that has a
/// parameter.
pub fn names_valued_option(matched: &Vec<MatchedArg>, command: &Command) -> (r: bool)
    ensures
        r == has_valued_option(command@, matched_args_view(matched@)),
{
    let ghost all = matched_args_view(matched@);
    let mut i: usize = 0;
    while i < matched.len()
        invariant
            i <= matched@.len(),
            all == matched_args_view(matched@),
            forall|k: int|
                0 <= k < i ==> !(#[trigger] option_named(command@.options, all[k].id)
                    matches Some(option) && option.has_param),
        decreases matched@.len() - i,
    {
        match command.get_option(matched[i].id.as_str()) {
            Some(option) => {
                if option.has_param {
                    assert(option_named(command@.options, all[i as int].id) == Some(option@));
                    return true;
                }
            },
            None => {},
        }
        i += 1;
    }
    false
}

/// Adds to `opts` and `args` what `command` finds among the matched
/// arguments. Where an option with a parameter is among them it fails, and
/// leaves `opts` and `args` as they were.
pub fn add_opts_and_args(
    matched: &Vec<MatchedArg>,
    command: &Command,
    opts: &mut Vec<(String, bool)>,
    args: &mut Vec<(String, String)>,
) -> (r: Result<(), DispatchError>)
    ensures
        match r {
            Ok(_) => {
                &&& !has_valued_option(command@, matched_args_view(matched@))
                &&& flags_view(final(opts)@) == flags_view(old(opts)@) + flags_of(
                    command@,
                    matched_args_view(matched@),
                )
                &&& values_view(final(args)@) == values_view(old(args)@) + values_of(
                    command@,
                    matched_args_view(matched@),
                )
            },
            Err(e) => {
                &&& e == DispatchError::OptionWithParameter
                &&& has_valued_option(command@, matched_args_view(matched@))
                &&& final(opts)@ == old(opts)@
                &&& final(args)@ == old(args)@
            },
        },
{
    if names_valued_option(matched, command) {
        return Err(DispatchError::OptionWithParameter);
    }
    let ghost all = matched_args_view(matched@);
    let ghost opts0 = flags_view(opts@);
    let ghost args0 = values_view(args@);
    let mut i: usize = 0;
    while i < matched.len()
        invariant
            i <= matched@.len(),
            all == matched_args_view(matched@),
            flags_view(opts@) == opts0 + flags_of(command@, all.take(i as int)),
            values_view(args@) == args0 + values_of(command@, all.take(i as int)),
        decreases matched@.len() - i,
    {
        let ghost now = all.take(i + 1);
        let ghost old_opts = flags_view(opts@);
        let ghost old_args = values_view(args@);
        assert(now.drop_last() == all.take(i as int));
        let arg = &matched[i];
        match command.get_option(arg.id.as_str()) {
            Some(_) => {
                opts.push((arg.id.clone(), arg.flag));
                assert(flags_view(opts@) == old_opts.push((arg.id@, arg.flag)));
            },
            None => {},
        }
        match command.get_arg(arg.id.as_str()) {
            Some(_) => {
                let text = match &arg.values {
                    Some(values) => join(values, COMMA),
                    None => String::new(),
                };
                args.push((arg.id.clone(), text));
                assert(values_view(args@) == old_args.push((arg.id@, text@)));
            },
            None => {},
        }
        i += 1;
    }
    assert(all.take(all.len() as int) == all);
    Ok(())
}

/// What is to run: the script, the function of the script where the command
/// that was asked for lives inside it, and the flags and values that go with
/// the call.
pub struct Invocation<'a> {
    pub opts: Vec<(String, bool)>,
    pub args: Vec<(String, String)>,
    pub path: &'a PathBuf,
    pub function: Option<String>,
}

/// What is to run, its texts as character sequences.
pub struct InvocationView {
    pub opts: Seq<(Seq<char>, bool)>,
    pub args: Seq<(Seq<char>, Seq<char>)>,
    pub path: PathBuf,
    pub function: Option<Seq<char>>,
}

impl<'a> View for Invocation<'a> {
    type V = InvocationView;

    open spec fn view(&self) -> InvocationView {
        InvocationView {
            opts: flags_view(self.opts@),
            args: values_view(self.args@),
            path: *self.path,
            function: match self.function {
                Some(name) => Some(name@),
                None => None,
            },
        }
    }
}

/// The view of what following a chain returns.
pub open spec fn outcome_view(r: Result<Invocation, DispatchError>) -> Result<
    InvocationView,
    DispatchError,
> {
    match r {
        Ok(invocation) => Ok(invocation@),
        Err(e) => Err(e),
    }
}

/// Follows the chain from `level` on, `current` being the command at that
/// level, `path` the script of the nearest command at or above it that has
/// one, and `opts` and `args` what the levels above have found. At each level
/// the command takes its flags and values from the matched arguments, and
/// fails on an option with a parameter; the command of the next level is
/// looked up among its nested commands. At the end of the chain the function
/// to call is the last command, where that has no script of its own.
pub open spec fn followed(
    current: CommandView,
    path: PathBuf,
    chain: Seq<MatchedCommandView>,
    level: int,
    opts: Seq<(Seq<char>, bool)>,
    args: Seq<(Seq<char>, Seq<char>)>,
) -> Result<InvocationView, DispatchError>
    recommends
        0 <= level < chain.len(),
    decreases chain.len() - level,
{
    if has_valued_option(current, chain[level].args) {
        Err(DispatchError::OptionWithParameter)
    } else {
        let opts = opts + flags_of(current, chain[level].args);
        let args = args + values_of(current, chain[level].args);
        if level >= chain.len() - 1 {
            Ok(
                InvocationView {
                    opts,
                    args,
                    path,
                    function: if current.path is None {
                        Some(current.name)
                    } else {
                        None
                    },
                },
            )
        } else {
            match command_named(current.sub_commands, chain[level + 1].name) {
                Some(next) => followed(
                    next,
                    match next.path {
                        Some(own) => own,
                        None => path,
                    },
                    chain,
                    level + 1,
                    opts,
                    args,
                ),
                None => Err(DispatchError::UnknownCommand),
            }
        }
    }
}

/// What a chain of matched commands leads to in a model. The first command of
/// the chain is looked up among the commands of the model and must have a
/// script; the chain is followed from there.
pub open spec fn invocation_of(commands: Seq<CommandView>, chain: Seq<MatchedCommandView>) -> Result<
    InvocationView,
    DispatchError,
> {
    if chain.len() == 0 {
        Err(DispatchError::NoCommand)
    } else {
        match command_named(commands, chain[0].name) {
            Some(command) => match command.path {
                Some(path) => followed(command, path, chain, 0, Seq::empty(), Seq::empty()),
                None => Err(DispatchError::NoScript),
            },
            None => Err(DispatchError::UnknownCommand),
        }
    }
}

/// Follows a chain of matched commands through the model to what is to run.
pub fn find_invocation<'a>(model: &'a Model, chain: &Vec<MatchedCommand>) -> (r: Result<
    Invocation<'a>,
    DispatchError,
>)
    ensures
        outcome_view(r) == invocation_of(model@, chain_view(chain@)),
{
    let ghost views = chain_view(chain@);
    if chain.len() == 0 {
        return Err(DispatchError::NoCommand);
    }
    let mut current: &Command = match find_command(&model.commands, chain[0].name.as_str()) {
        Some(command) => command,
        None => {
            return Err(DispatchError::UnknownCommand);
        },
    };
    let mut path: &PathBuf = match current.get_path() {
        Some(path) => path,
        None => {
            return Err(DispatchError::NoScript);
        },
    };
    let mut opts: Vec<(String, bool)> = Vec::new();
    let mut args: Vec<(String, String)> = Vec::new();
    let mut level: usize = 0;
    loop
        invariant
            level < chain@.len(),
            views == chain_view(chain@),
            invocation_of(model@, views) == followed(
                current@,
                *path,
                views,
                level as int,
                flags_view(opts@),
                values_view(args@),
            ),
        decreases chain@.len() - level,
    {
        match add_opts_and_args(&chain[level].args, current, &mut opts, &mut args) {
            Ok(_) => {},
            Err(e) => {
                return Err(e);
            },
        }
        if level >= chain.len() - 1 {
            let function = match current.get_path() {
                Some(_) => None,
                None => Some(current.name().to_owned()),
            };
            return Ok(Invocation { opts, args, path, function });
        }
        let next: &Command = match find_command(
            current.sub_commands(),
            chain[level + 1].name.as_str(),
        ) {
            Some(command) => command,
            None => {
                return Err(DispatchError::UnknownCommand);
            },
        };
        match next.get_path() {
            Some(own) => {
                path = own;
            },
            None => {},
        }
        current = next;
        level += 1;
    }
}

pub const EVAL_MARK: &'static str = "#eval\n";

pub const ARGS_HEAD: &'static str = "typeset -A cli_args\ncli_args=(";

pub const OPTS_HEAD: &'static str = ")\ntypeset -A cli_opts\ncli_opts=(";

pub const SOURCE_HEAD: &'static str = ")\nsource \"";

pub const SOURCE_TAIL: &'static str = "\"\n";

pub const LINE_END: &'static str = "\n";

pub const QUOTE: &'static str = "\"";

pub const SPACE: &'static str = " ";

pub const YES: &'static str = "true";

pub const NO: &'static str = "false";

pub const ECHO_HEAD: &'static str = "echo \"";

/// The shell words of a list of named values: each as its name and its value,
/// both in double quotes, with one space between all of them.
pub open spec fn value_words(args: Seq<(Seq<char>, Seq<char>)>) -> Seq<char>
    decreases args.len(),
{
    if args.len() == 0 {
        Seq::empty()
    } else {
        let word = QUOTE@ + args.last().0 + QUOTE@ + SPACE@ + QUOTE@ + args.last().1 + QUOTE@;
        if args.len() == 1 {
            word
        } else {
            value_words(args.drop_last()) + SPACE@ + word
        }
    }
}

/// The shell words of a list of flags: each as its name in double quotes and
/// `true` or `false`, with one space between all of them.
pub open spec fn flag_words(opts: Seq<(Seq<char>, bool)>) -> Seq<char>
    decreases opts.len(),
{
    if opts.len() == 0 {
        Seq::empty()
    } else {
        let word = QUOTE@ + opts.last().0 + QUOTE@ + SPACE@ + if opts.last().1 {
            YES@
        } else {
            NO@
        };
        if opts.len() == 1 {
            word
        } else {
            flag_words(opts.drop_last()) + SPACE@ + word
        }
    }
}

/// The shell text that runs a script: it sets the associative arrays
/// `cli_args` and `cli_opts`, sources the script at `path` and, where a
/// function is to be called, calls it.
pub open spec fn script_text(
    opts: Seq<(Seq<char>, bool)>,
    args: Seq<(Seq<char>, Seq<char>)>,
    path: Seq<char>,
    function: Option<Seq<char>>,
) -> Seq<char> {
    EVAL_MARK@ + ARGS_HEAD@ + value_words(args) + OPTS_HEAD@ + flag_words(opts) + SOURCE_HEAD@
        + path + SOURCE_TAIL@ + match function {
        Some(name) => name + LINE_END@,
        None => Seq::empty(),
    }
}

/// Renders the shell text that runs the script at `path`.
pub fn render_script(
    opts: &Vec<(String, bool)>,
    args: &Vec<(String, String)>,
    path: &str,
    function: Option<&str>,
) -> (r: String)
    ensures
        r@ == script_text(
            flags_view(opts@),
            values_view(args@),
            path@,
            match function {
                Some(name) => Some(name@),
                None => None,
            },
        ),
{
    let ghost opt_views = flags_view(opts@);
    let ghost arg_views = values_view(args@);
    let mut text = EVAL_MARK.to_owned();
    text.append(ARGS_HEAD);
    let ghost head = text@;
    let mut i: usize = 0;
    while i < args.len()
        invariant
            i <= args@.len(),
            arg_views == values_view(args@),
            text@ == head + value_words(arg_views.take(i as int)),
        decreases args@.len() - i,
    {
        let ghost now = arg_views.take(i + 1);
        assert(now.drop_last() == arg_views.take(i as int));
        if i > 0 {
            text.append(SPACE);
        }
        text.append(QUOTE);
        text.append(args[i].0.as_str());
        text.append(QUOTE);
        text.append(SPACE);
        text.append(QUOTE);
        text.append(args[i].1.as_str());
        text.append(QUOTE);
        assert(text@ == head + value_words(now));
        i += 1;
    }
    assert(arg_views.take(arg_views.len() as int) == arg_views);
    text.append(OPTS_HEAD);
    let ghost middle = text@;
    let mut j: usize = 0;
    while j < opts.len()
        invariant
            j <= opts@.len(),
            opt_views == flags_view(opts@),
            text@ == middle + flag_words(opt_views.take(j as int)),
        decreases opts@.len() - j,
    {
        let ghost now = opt_views.take(j + 1);
        assert(now.drop_last() == opt_views.take(j as int));
        if j > 0 {
            text.append(SPACE);
        }
        text.append(QUOTE);
        text.append(opts[j].0.as_str());
        text.append(QUOTE);
        text.append(SPACE);
        if opts[j].1 {
            text.append(YES);
        } else {
            text.append(NO);
        }
        assert(text@ == middle + flag_words(now));
        j += 1;
    }
    assert(opt_views.take(opt_views.len() as int) == opt_views);
    text.append(SOURCE_HEAD);
    text.append(path);
    text.append(SOURCE_TAIL);
    match function {
        Some(name) => {
            text.append(name);
            text.append(LINE_END);
        },
        None => {},
    }
    text
}

/// The shell text that prints `message`.
pub fn echo_error_script(message: &str) -> (r: String)
    ensures
        r@ == ECHO_HEAD@ + message@ + QUOTE@,
{
    let mut text = ECHO_HEAD.to_owned();
    text.append(message);
    text.append(QUOTE);
    text
}


/// The values of the matched arguments as they were written, argument by
/// argument in order.
pub open spec fn raw_values(matched: Seq<MatchedArgView>) -> Seq<Seq<char>>
    decreases matched.len(),
{
    if matched.len() == 0 {
        Seq::empty()
    } else {
        raw_values(matched.drop_last()) + match matched.last().values {
            Some(values) => values,
            None => Seq::empty(),
        }
    }
}

/// The names of the commands of a chain, in order.
pub open spec fn chain_names(chain: Seq<MatchedCommandView>) -> Seq<Seq<char>> {
    Seq::new(chain.len(), |i: int| chain[i].name)
}

/// The argument list that a script is run with: the names of the nested
/// commands that were asked for, then the values of the last of them as they
/// were written.
pub open spec fn script_arguments(chain: Seq<MatchedCommandView>) -> Seq<Seq<char>>
    recommends
        chain.len() > 0,
{
    chain_names(chain).skip(1) + raw_values(chain.last().args)
}

/// Whether, somewhere along the chain, a matched argument names an option of
/// `command` that has a parameter.
pub open spec fn chain_has_valued_option(command: CommandView, chain: Seq<MatchedCommandView>) -> bool {
    exists|level: int|
        0 <= level < chain.len() && has_valued_option(command, (#[trigger] chain[level]).args)
}

/// The command to run for a chain of matched commands, and the argument list
/// to run its script with. The first command of the chain is looked up among
/// the commands of the model; it is the one that runs, whatever nested
/// commands follow.
pub open spec fn execution_of(commands: Seq<CommandView>, chain: Seq<MatchedCommandView>) -> Result<
    (CommandView, Seq<Seq<char>>),
    DispatchError,
> {
    if chain.len() == 0 {
        Err(DispatchError::NoCommand)
    } else {
        match command_named(commands, chain[0].name) {
            Some(command) => if chain_has_valued_option(command, chain) {
                Err(DispatchError::OptionWithParameter)
            } else {
                Ok((command, script_arguments(chain)))
            },
            None => Err(DispatchError::UnknownCommand),
        }
    }
}

/// The view of a command to run and its argument list.
pub open spec fn execution_view(r: Result<(&Command, Vec<String>), DispatchError>) -> Result<
    (CommandView, Seq<Seq<char>>),
    DispatchError,
> {
    match r {
        Ok((command, arguments)) => Ok((command@, texts_view(arguments@))),
        Err(e) => Err(e),
    }
}

/// Finds the command to run for a chain of matched commands, and the argument
/// list to run its script with.
pub fn find_execution<'a>(model: &'a Model, chain: &Vec<MatchedCommand>) -> (r: Result<
    (&'a Command, Vec<String>),
    DispatchError,
>)
    ensures
        execution_view(r) == execution_of(model@, chain_view(chain@)),
{
    let ghost views = chain_view(chain@);
    if chain.len() == 0 {
        return Err(DispatchError::NoCommand);
    }
    let command: &Command = match find_command(&model.commands, chain[0].name.as_str()) {
        Some(command) => command,
        None => {
            return Err(DispatchError::UnknownCommand);
        },
    };
    let mut opts: Vec<(String, bool)> = Vec::new();
    let mut args: Vec<(String, String)> = Vec::new();
    let mut result: Vec<String> = Vec::new();
    let mut level: usize = 0;
    while level < chain.len()
        invariant
            0 < chain@.len(),
            level <= chain@.len(),
            views == chain_view(chain@),
            command_named(model@, views[0].name) == Some(command@),
            forall|k: int| 0 <= k < level ==> !has_valued_option(command@, (#[trigger] views[k]).args),
            texts_view(result@) == chain_names(views).skip(1).take(
                if level == 0 {
                    0int
                } else {
                    level - 1
                },
            ),
        decreases chain@.len() - level,
    {
        assert(views[level as int] == chain@[level as int]@);
        match add_opts_and_args(&chain[level].args, command, &mut opts, &mut args) {
            Ok(_) => {},
            Err(e) => {
                return Err(e);
            },
        }
        if level > 0 {
            let ghost before = texts_view(result@);
            let name = chain[level].name.clone();
            result.push(name);
            assert(texts_view(result@) == before.push(name@));
        }
        level += 1;
    }
    assert(chain_names(views).skip(1).take(chain@.len() - 1) == chain_names(views).skip(1));
    let last = &chain[chain.len() - 1].args;
    let ghost names = texts_view(result@);
    let ghost matched = matched_args_view(last@);
    let mut i: usize = 0;
    while i < last.len()
        invariant
            i <= last@.len(),
            matched == matched_args_view(last@),
            texts_view(result@) == names + raw_values(matched.take(i as int)),
        decreases last@.len() - i,
    {
        let ghost now = matched.take(i + 1);
        assert(now.drop_last() == matched.take(i as int));
        match &last[i].values {
            Some(values) => {
                let ghost so_far = texts_view(result@);
                let ghost written = texts_view(values@);
                let mut j: usize = 0;
                while j < values.len()
                    invariant
                        j <= values@.len(),
                        written == texts_view(values@),
                        texts_view(result@) == so_far + written.take(j as int),
                    decreases values@.len() - j,
                {
                    let ghost before = texts_view(result@);
                    let value = values[j].clone();
                    result.push(value);
                    assert(texts_view(result@) == before.push(value@));
                    j += 1;
                }
            },
            None => {},
        }
        i += 1;
    }
    assert(matched.take(matched.len() as int) == matched);
    Ok((command, result))
}

} // verus!
