//! From the command model to the description of a command-line interface:
//! which commands it has, and how each argument and option is to be parsed.
//!
//! The description is plain data. Whoever builds the actual parser reads it
//! field by field.

use crate::model::{
    commands_view, text_view, ArgType, Command, CommandArg, CommandArgView, CommandOption,
    CommandOptionView, CommandView, EmbeddedCommand, Model, ScriptCommand,
};
use vstd::prelude::*;
use vstd::string::StringExecFns;

verus! {

pub const TOOL_NAME: &'static str = "easy-cli";

pub const TOOL_VERSION: &'static str = "0.1.0";

pub const ABOUT_HEAD: &'static str = "Runs the ";

pub const ABOUT_TAIL: &'static str = " script";

pub const NO_HELP: &'static str = "";

/// What a value is expected to be, as a hint for completion.
#[derive(Debug, Clone, Copy, PartialEq, Eq)]
pub enum ValueHint {
    Unknown,
    AnyPath,
    FilePath,
    DirPath,
}

/// How many values an argument takes.
#[derive(Debug, Clone, Copy, PartialEq, Eq)]
pub enum ValueCount {
    /// This many, no more and no fewer.
    Exactly(usize),
    /// This many or more.
    AtLeast(usize),
}

/// How one argument or option of the interface is to be parsed.
#[derive(Debug, Clone, PartialEq)]
pub struct CliArg {
    /// The name the argument is found by.
    pub id: String,
    /// Whether the nested commands take it too.
    pub global: bool,
    pub short: Option<char>,
    pub long: Option<String>,
    pub help: Option<String>,
    pub required: bool,
    pub num_args: Option<ValueCount>,
    /// Whether everything behind it on the command line belongs to it.
    pub trailing_var_arg: bool,
    /// Whether it is a flag that is true where it is given.
    pub set_true: bool,
    /// Whether its values are taken as strings.
    pub string_values: bool,
    pub value_hint: Option<ValueHint>,
}

/// An argument of the interface, its texts as character sequences.
pub struct CliArgView {
    pub id: Seq<char>,
    pub global: bool,
    pub short: Option<char>,
    pub long: Option<Seq<char>>,
    pub help: Option<Seq<char>>,
    pub required: bool,
    pub num_args: Option<ValueCount>,
    pub trailing_var_arg: bool,
    pub set_true: bool,
    pub string_values: bool,
    pub value_hint: Option<ValueHint>,
}

impl View for CliArg {
    type V = CliArgView;

    open spec fn view(&self) -> CliArgView {
        CliArgView {
            id: self.id@,
            global: self.global,
            short: self.short,
            long: text_view(self.long),
            help: text_view(self.help),
            required: self.required,
            num_args: self.num_args,
            trailing_var_arg: self.trailing_var_arg,
            set_true: self.set_true,
            string_values: self.string_values,
            value_hint: self.value_hint,
        }
    }
}

/// One command of the interface, with its arguments and its nested commands.
#[derive(Debug, PartialEq)]
pub struct CliCommand {
    pub name: String,
    pub about: Option<String>,
    pub version: Option<String>,
    /// Whether one of the nested commands must be given.
    pub subcommand_required: bool,
    pub args: Vec<CliArg>,
    pub subcommands: Vec<CliCommand>,
}

/// A command of the interface, its texts as character sequences.
pub struct CliCommandView {
    pub name: Seq<char>,
    pub about: Option<Seq<char>>,
    pub version: Option<Seq<char>>,
    pub subcommand_required: bool,
    pub args: Seq<CliArgView>,
    pub subcommands: Seq<CliCommandView>,
}

/// The views of a list of interface arguments.
pub open spec fn cli_args_view(args: Seq<CliArg>) -> Seq<CliArgView> {
    Seq::new(args.len(), |i: int| args[i]@)
}

/// The views of a list of interface commands.
pub open spec fn cli_commands_view(commands: Seq<CliCommand>) -> Seq<CliCommandView>
    decreases commands,
{
    Seq::new(
        commands.len(),
        |i: int|
            if 0 <= i < commands.len() {
                cli_command_view(commands[i])
            } else {
                arbitrary()
            },
    )
}

/// The view of an interface command.
pub open spec fn cli_command_view(command: CliCommand) -> CliCommandView
    decreases command,
{
    CliCommandView {
        name: command.name@,
        about: text_view(command.about),
        version: text_view(command.version),
        subcommand_required: command.subcommand_required,
        args: cli_args_view(command.args@),
        subcommands: cli_commands_view(command.subcommands@),
    }
}

impl View for CliCommand {
    type V = CliCommandView;

    open spec fn view(&self) -> CliCommandView {
        cli_command_view(*self)
    }
}

/// The hint that goes with a kind of argument.
pub open spec fn value_hint_of(kind: ArgType) -> ValueHint {
    match kind {
        ArgType::File => ValueHint::FilePath,
        ArgType::Dir => ValueHint::DirPath,
        ArgType::Path => ValueHint::AnyPath,
        ArgType::Unknown => ValueHint::Unknown,
    }
}

/// How a positional argument is parsed: under its name, as strings, required
/// unless it is optional, with its description as help where it has one. A
/// variadic argument takes everything behind it, none or more values; any
/// other takes exactly one.
pub open spec fn cli_arg_of(arg: CommandArgView) -> CliArgView {
    CliArgView {
        id: arg.name,
        global: false,
        short: None,
        long: None,
        help: arg.description,
        required: !arg.optional,
        num_args: if arg.var_arg {
            Some(ValueCount::AtLeast(0))
        } else {
            Some(ValueCount::Exactly(1))
        },
        trailing_var_arg: arg.var_arg,
        set_true: false,
        string_values: true,
        value_hint: Some(value_hint_of(arg.arg_type)),
    }
}

/// How an option is parsed: under its name, which is its long flag too, with
/// its short flag where it has one and its description, or an empty text, as
/// help. With a parameter its value is taken as a string; without one it is a
/// flag that takes no value and is true where it is given.
pub open spec fn cli_option_of(option: CommandOptionView, global: bool) -> CliArgView {
    CliArgView {
        id: option.name,
        global,
        short: option.short,
        long: Some(option.name),
        help: Some(
            match option.description {
                Some(text) => text,
                None => NO_HELP@,
            },
        ),
        required: false,
        num_args: if option.has_param {
            None
        } else {
            Some(ValueCount::Exactly(0))
        },
        trailing_var_arg: false,
        set_true: !option.has_param,
        string_values: option.has_param,
        value_hint: None,
    }
}

/// The arguments of a command's interface: its options first, global where
/// `global` says so, then its positional arguments, each list in its order.
pub open spec fn cli_args_of(command: CommandView, global: bool) -> Seq<CliArgView> {
    Seq::new(command.options.len(), |i: int| cli_option_of(command.options[i], global)) + Seq::new(
        command.args.len(),
        |i: int| cli_arg_of(command.args[i]),
    )
}

/// What a command is said to do where it has no description.
pub open spec fn default_about(name: Seq<char>) -> Seq<char> {
    ABOUT_HEAD@ + name + ABOUT_TAIL@
}

/// The interface of a command. Its options are global where it has nested
/// commands; the nested commands follow in their order.
pub open spec fn cli_command_of(command: CommandView) -> CliCommandView
    decreases command,
{
    CliCommandView {
        name: command.name,
        about: Some(
            match command.description {
                Some(text) => text,
                None => default_about(command.name),
            },
        ),
        version: None,
        subcommand_required: false,
        args: cli_args_of(command, command.sub_commands.len() > 0),
        subcommands: Seq::new(
            command.sub_commands.len(),
            |i: int|
                if 0 <= i < command.sub_commands.len() {
                    cli_command_of(command.sub_commands[i])
                } else {
                    arbitrary()
                },
        ),
    }
}

/// The interface of a whole tool: one command for each command of the model,
/// in order, one of which must be given.
pub open spec fn cli_of(commands: Seq<CommandView>) -> CliCommandView {
    CliCommandView {
        name: TOOL_NAME@,
        about: None,
        version: Some(TOOL_VERSION@),
        subcommand_required: true,
        args: Seq::empty(),
        subcommands: Seq::new(commands.len(), |i: int| cli_command_of(commands[i])),
    }
}

/// Something that describes one argument of a command-line interface.
pub trait ToArg {
    /// The argument that is described; `global` says whether nested commands
    /// take it too.
    spec fn arg_of(&self, global: bool) -> CliArgView;

    fn to_arg(&self, global: bool) -> (r: CliArg)
        ensures
            r@ == self.arg_of(global),
    ;
}

/// Something that has a hint for the values it takes.
pub trait ToValueHint {
    spec fn hint_of(&self) -> ValueHint;

    fn to_value_hint(&self) -> (r: ValueHint)
        ensures
            r == self.hint_of(),
    ;
}

/// Something that describes a command of a command-line interface.
pub trait ToCliCommand {
    /// The command that is described.
    spec fn command_of(&self) -> CliCommandView;

    fn to_cli(&self) -> (r: CliCommand)
        ensures
            r@ == self.command_of(),
    ;
}

impl ToValueHint for ArgType {
    open spec fn hint_of(&self) -> ValueHint {
        value_hint_of(*self)
    }

    fn to_value_hint(&self) -> (r: ValueHint) {
        match self {
            ArgType::File => ValueHint::FilePath,
            ArgType::Dir => ValueHint::DirPath,
            ArgType::Path => ValueHint::AnyPath,
            ArgType::Unknown => ValueHint::Unknown,
        }
    }
}

/// A copy of an optional text.
fn clone_text(text: &Option<String>) -> (r: Option<String>)
    ensures
        text_view(r) == text_view(*text),
{
    match text {
        Some(s) => Some(s.clone()),
        None => None,
    }
}

impl ToArg for CommandArg {
    open spec fn arg_of(&self, global: bool) -> CliArgView {
        cli_arg_of(self@)
    }

    fn to_arg(&self, _global: bool) -> (r: CliArg) {
        let num_args = if self.var_arg {
            ValueCount::AtLeast(0)
        } else {
            ValueCount::Exactly(1)
        };
        CliArg {
            id: self.name.clone(),
            global: false,
            short: None,
            long: None,
            help: clone_text(&self.description),
            required: !self.optional,
            num_args: Some(num_args),
            trailing_var_arg: self.var_arg,
            set_true: false,
            string_values: true,
            value_hint: Some(self.arg_type.to_value_hint()),
        }
    }
}

impl ToArg for CommandOption {
    open spec fn arg_of(&self, global: bool) -> CliArgView {
        cli_option_of(self@, global)
    }

    fn to_arg(&self, global: bool) -> (r: CliArg) {
        let help = match &self.description {
            Some(text) => text.clone(),
            None => NO_HELP.to_owned(),
        };
        let num_args = if self.has_param {
            None
        } else {
            Some(ValueCount::Exactly(0))
        };
        CliArg {
            id: self.name.clone(),
            global,
            short: self.short,
            long: Some(self.name.clone()),
            help: Some(help),
            required: false,
            num_args,
            trailing_var_arg: false,
            set_true: !self.has_param,
            string_values: self.has_param,
            value_hint: None,
        }
    }
}

/// The arguments of the interface of a command with these options and these
/// positional arguments.
fn args_to_cli(options: &Vec<CommandOption>, args: &Vec<CommandArg>, global: bool) -> (r: Vec<
    CliArg,
>)
    ensures
        cli_args_view(r@) == Seq::new(
            options@.len(),
            |i: int| cli_option_of(options@[i]@, global),
        ) + Seq::new(args@.len(), |i: int| cli_arg_of(args@[i]@)),
{
    let mut cli_args: Vec<CliArg> = Vec::new();
    let mut i: usize = 0;
    while i < options.len()
        invariant
            i <= options@.len(),
            cli_args_view(cli_args@) == Seq::new(
                i as nat,
                |k: int| cli_option_of(options@[k]@, global),
            ),
        decreases options@.len() - i,
    {
        let ghost before = cli_args_view(cli_args@);
        let cli_arg = options[i].to_arg(global);
        cli_args.push(cli_arg);
        assert(cli_args_view(cli_args@) == before.push(cli_arg@));
        i += 1;
    }
    let ghost first = cli_args_view(cli_args@);
    let mut j: usize = 0;
    while j < args.len()
        invariant
            j <= args@.len(),
            cli_args_view(cli_args@) == first + Seq::new(j as nat, |k: int| cli_arg_of(args@[k]@)),
        decreases args@.len() - j,
    {
        let ghost before = cli_args_view(cli_args@);
        let cli_arg = args[j].to_arg(false);
        cli_args.push(cli_arg);
        assert(cli_args_view(cli_args@) == before.push(cli_arg@));
        j += 1;
    }
    cli_args
}

/// What a command is said to do: its description, or the default text.
fn about_of(name: &str, description: Option<&str>) -> (r: String)
    ensures
        r@ == match description {
            Some(text) => text@,
            None => default_about(name@),
        },
{
    match description {
        Some(text) => text.to_owned(),
        None => {
            let mut about = ABOUT_HEAD.to_owned();
            about.append(name);
            about.append(ABOUT_TAIL);
            about
        },
    }
}

impl ToCliCommand for Command {
    open spec fn command_of(&self) -> CliCommandView {
        cli_command_of(self@)
    }

    fn to_cli(&self) -> (r: CliCommand)
        decreases self,
    {
        let subs = self.sub_commands();
        let make_opts_global: bool = subs.len() > 0;
        let ghost view = self@;
        let mut subcommands: Vec<CliCommand> = Vec::new();
        let mut i: usize = 0;
        while i < subs.len()
            invariant
                i <= subs@.len(),
                commands_view(subs@) == view.sub_commands,
                forall|k: int| 0 <= k < subs@.len() ==> decreases_to!(self => #[trigger] subs@[k]),
                cli_commands_view(subcommands@) == Seq::new(
                    i as nat,
                    |k: int| cli_command_of(view.sub_commands[k]),
                ),
            decreases subs@.len() - i,
        {
            let ghost before = cli_commands_view(subcommands@);
            let sub = subs[i].to_cli();
            subcommands.push(sub);
            assert(cli_commands_view(subcommands@) == before.push(sub@));
            i += 1;
        }
        let args = args_to_cli(self.options(), self.args(), make_opts_global);
        let r = CliCommand {
            name: self.name().to_owned(),
            about: Some(about_of(self.name(), self.description())),
            version: None,
            subcommand_required: false,
            args,
            subcommands,
        };
        assert(r@.args == cli_command_of(view).args);
        assert(r@.subcommands == cli_command_of(view).subcommands);
        r
    }
}


/// The interfaces of a list of commands, in order.
fn commands_to_cli(commands: &Vec<Command>) -> (r: Vec<CliCommand>)
    ensures
        cli_commands_view(r@) == Seq::new(
            commands@.len(),
            |k: int| cli_command_of(commands_view(commands@)[k]),
        ),
{
    let ghost views = commands_view(commands@);
    let mut cli_commands: Vec<CliCommand> = Vec::new();
    let mut i: usize = 0;
    while i < commands.len()
        invariant
            i <= commands@.len(),
            views == commands_view(commands@),
            cli_commands_view(cli_commands@) == Seq::new(
                i as nat,
                |k: int| cli_command_of(views[k]),
            ),
        decreases commands@.len() - i,
    {
        let ghost before = cli_commands_view(cli_commands@);
        let cli_command = commands[i].to_cli();
        cli_commands.push(cli_command);
        assert(cli_commands_view(cli_commands@) == before.push(cli_command@));
        i += 1;
    }
    cli_commands
}

impl ToCliCommand for ScriptCommand {
    open spec fn command_of(&self) -> CliCommandView {
        cli_command_of(self@)
    }

    fn to_cli(&self) -> (r: CliCommand) {
        let subs = self.sub_commands();
        let r = CliCommand {
            name: self.name().to_owned(),
            about: Some(about_of(self.name(), self.description())),
            version: None,
            subcommand_required: false,
            args: args_to_cli(self.options(), self.args(), subs.len() > 0),
            subcommands: commands_to_cli(subs),
        };
        assert(r@.args == cli_command_of(self@).args);
        assert(r@.subcommands == cli_command_of(self@).subcommands);
        r
    }
}

impl ToCliCommand for EmbeddedCommand {
    open spec fn command_of(&self) -> CliCommandView {
        cli_command_of(self@)
    }

    fn to_cli(&self) -> (r: CliCommand) {
        let subs = self.sub_commands();
        let r = CliCommand {
            name: self.name().to_owned(),
            about: Some(about_of(self.name(), self.description())),
            version: None,
            subcommand_required: false,
            args: args_to_cli(self.options(), self.args(), subs.len() > 0),
            subcommands: commands_to_cli(subs),
        };
        assert(r@.args == cli_command_of(self@).args);
        assert(r@.subcommands == cli_command_of(self@).subcommands);
        r
    }
}

/// The interface of a tool that has no command yet.
pub fn top_level() -> (r: CliCommand)
    ensures
        r@ == cli_of(Seq::empty()),
{
    let r = CliCommand {
        name: TOOL_NAME.to_owned(),
        about: None,
        version: Some(TOOL_VERSION.to_owned()),
        subcommand_required: true,
        args: Vec::new(),
        subcommands: Vec::new(),
    };
    assert(r@.args == cli_of(Seq::empty()).args);
    assert(r@.subcommands == cli_of(Seq::empty()).subcommands);
    r
}

impl ToCliCommand for Model {
    open spec fn command_of(&self) -> CliCommandView {
        cli_of(self@)
    }

    fn to_cli(&self) -> (r: CliCommand) {
        let mut cli = top_level();
        cli.subcommands = commands_to_cli(&self.commands);
        cli
    }
}

} // verus!
