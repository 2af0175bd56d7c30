//! The command model: a tool is a list of commands, a command has options,
//! positional arguments and nested commands.

use crate::text::{chars_of, eq_ignore_case, equals_ignore_case};
use std::path::PathBuf;
use vstd::prelude::*;

verus! {

/// `std::path::PathBuf`, carried through the model as it was handed in.
#[verifier::external_type_specification]
#[verifier::external_body]
pub struct ExPathBuf(std::path::PathBuf);

/// What kind of value a positional argument takes.
#[derive(Debug, Clone, PartialEq)]
pub enum ArgType {
    Unknown,
    Path,
    File,
    Dir,
}

/// The kind that a type name stands for, ASCII case ignored; `Unknown` for any other name.
pub open spec fn arg_type_of(name: Seq<char>) -> ArgType {
    if eq_ignore_case(name, "path"@) {
        ArgType::Path
    } else if eq_ignore_case(name, "file"@) {
        ArgType::File
    } else if eq_ignore_case(name, "dir"@) {
        ArgType::Dir
    } else {
        ArgType::Unknown
    }
}

impl ArgType {
    /// The kind that the type name `name` stands for.
    pub fn of_name(name: &[char]) -> (r: ArgType)
        ensures
            r == arg_type_of(name@),
    {
        if equals_ignore_case(name, "path") {
            ArgType::Path
        } else if equals_ignore_case(name, "file") {
            ArgType::File
        } else if equals_ignore_case(name, "dir") {
            ArgType::Dir
        } else {
            ArgType::Unknown
        }
    }
}

impl From<&str> for ArgType {
    fn from(s: &str) -> (r: ArgType)
        ensures
            r == arg_type_of(s@),
    {
        let chars = chars_of(s);
        ArgType::of_name(chars.as_slice())
    }
}

impl vstd::std_specs::convert::FromSpecImpl<&str> for ArgType {
    open spec fn obeys_from_spec() -> bool {
        true
    }

    open spec fn from_spec(s: &str) -> ArgType {
        arg_type_of(s@)
    }
}

/// The text that an optional string holds.
pub open spec fn text_view(text: Option<String>) -> Option<Seq<char>> {
    match text {
        Some(s) => Some(s@),
        None => None,
    }
}

/// A positional argument of a command.
#[derive(Debug, Clone, PartialEq)]
pub struct CommandArg {
    pub name: String,
    pub optional: bool,
    pub var_arg: bool,
    pub arg_type: ArgType,
    pub description: Option<String>,
}

/// A positional argument, its texts as character sequences.
pub struct CommandArgView {
    pub name: Seq<char>,
    pub optional: bool,
    pub var_arg: bool,
    pub arg_type: ArgType,
    pub description: Option<Seq<char>>,
}

impl View for CommandArg {
    type V = CommandArgView;

    open spec fn view(&self) -> CommandArgView {
        CommandArgView {
            name: self.name@,
            optional: self.optional,
            var_arg: self.var_arg,
            arg_type: self.arg_type,
            description: text_view(self.description),
        }
    }
}

impl CommandArg {
    pub fn new(
        name: String,
        optional: bool,
        var_arg: bool,
        arg_type: ArgType,
        description: Option<String>,
    ) -> (r: Self)
        ensures
            r == (CommandArg { name, optional, var_arg, arg_type, description }),
    {
        CommandArg { name, optional, var_arg, arg_type, description }
    }
}

/// A flag or an option of a command.
#[derive(Debug, Clone, PartialEq)]
pub struct CommandOption {
    pub name: String,
    pub short: Option<char>,
    pub has_param: bool,
    pub description: Option<String>,
}

/// A flag or an option, its texts as character sequences.
pub struct CommandOptionView {
    pub name: Seq<char>,
    pub short: Option<char>,
    pub has_param: bool,
    pub description: Option<Seq<char>>,
}

impl View for CommandOption {
    type V = CommandOptionView;

    open spec fn view(&self) -> CommandOptionView {
        CommandOptionView {
            name: self.name@,
            short: self.short,
            has_param: self.has_param,
            description: text_view(self.description),
        }
    }
}

impl CommandOption {
    pub fn new(name: String, short: Option<char>, has_param: bool, description: Option<String>) -> (r:
        Self)
        ensures
            r == (CommandOption { name, short, has_param, description }),
    {
        CommandOption { name, short, has_param, description }
    }
}

/// The views of a list of arguments.
pub open spec fn args_view(args: Seq<CommandArg>) -> Seq<CommandArgView> {
    Seq::new(args.len(), |i: int| args[i]@)
}

/// The views of a list of options.
pub open spec fn options_view(options: Seq<CommandOption>) -> Seq<CommandOptionView> {
    Seq::new(options.len(), |i: int| options[i]@)
}

/// A command as a value: its name, its description, its options and arguments
/// in the order they were given, its nested commands, and the script behind it
/// where there is one.
pub struct CommandView {
    pub name: Seq<char>,
    pub description: Option<Seq<char>>,
    pub options: Seq<CommandOptionView>,
    pub args: Seq<CommandArgView>,
    pub sub_commands: Seq<CommandView>,
    pub path: Option<PathBuf>,
}

/// A command backed by a script file.
pub struct ScriptCommand {
    pub name: String,
    pub description: Option<String>,
    sub_commands: Vec<Command>,
    path: PathBuf,
    options: Vec<CommandOption>,
    args: Vec<CommandArg>,
}

/// A command that lives inside the script of the command above it.
pub struct EmbeddedCommand {
    name: String,
    description: Option<String>,
    options: Vec<CommandOption>,
    args: Vec<CommandArg>,
    sub_commands: Vec<Command>,
}

/// A command of either kind.
pub enum Command {
    Script(ScriptCommand),
    Embedded(EmbeddedCommand),
}

/// The views of a list of commands.
pub open spec fn commands_view(commands: Seq<Command>) -> Seq<CommandView>
    decreases commands,
{
    Seq::new(
        commands.len(),
        |i: int|
            if 0 <= i < commands.len() {
                command_view(commands[i])
            } else {
                arbitrary()
            },
    )
}

/// The view of a command of either kind.
pub open spec fn command_view(command: Command) -> CommandView
    decreases command,
{
    match command {
        Command::Script(script) => script_view(script),
        Command::Embedded(embedded) => embedded_view(embedded),
    }
}

/// The view of a script command: its `path` is the script's.
pub closed spec fn script_view(script: ScriptCommand) -> CommandView
    decreases script,
{
    CommandView {
        name: script.name@,
        description: text_view(script.description),
        options: options_view(script.options@),
        args: args_view(script.args@),
        sub_commands: commands_view(script.sub_commands@),
        path: Some(script.path),
    }
}

/// The view of an embedded command: it has no `path`.
pub closed spec fn embedded_view(embedded: EmbeddedCommand) -> CommandView
    decreases embedded,
{
    CommandView {
        name: embedded.name@,
        description: text_view(embedded.description),
        options: options_view(embedded.options@),
        args: args_view(embedded.args@),
        sub_commands: commands_view(embedded.sub_commands@),
        path: None,
    }
}

impl View for ScriptCommand {
    type V = CommandView;

    open spec fn view(&self) -> CommandView {
        script_view(*self)
    }
}

impl View for EmbeddedCommand {
    type V = CommandView;

    open spec fn view(&self) -> CommandView {
        embedded_view(*self)
    }
}

impl View for Command {
    type V = CommandView;

    open spec fn view(&self) -> CommandView {
        command_view(*self)
    }
}


/// The text that an optional string slice holds.
pub open spec fn str_view(text: Option<&str>) -> Option<Seq<char>> {
    match text {
        Some(s) => Some(s@),
        None => None,
    }
}

/// The names of a list of options, in order.
pub open spec fn option_names(options: Seq<CommandOptionView>) -> Seq<Seq<char>> {
    Seq::new(options.len(), |i: int| options[i].name)
}

/// The names of a list of arguments, in order.
pub open spec fn arg_names(args: Seq<CommandArgView>) -> Seq<Seq<char>> {
    Seq::new(args.len(), |i: int| args[i].name)
}

/// The names of a list of commands, in order.
pub open spec fn command_names(commands: Seq<CommandView>) -> Seq<Seq<char>> {
    Seq::new(commands.len(), |i: int| commands[i].name)
}

/// Whether `i` is the first position of `names` that holds `name`.
pub open spec fn is_first_at(names: Seq<Seq<char>>, name: Seq<char>, i: int) -> bool {
    &&& 0 <= i < names.len()
    &&& names[i] == name
    &&& forall|j: int| 0 <= j < i ==> names[j] != name
}

/// The first position of `names` that holds `name`, if any does.
pub open spec fn first_index_of(names: Seq<Seq<char>>, name: Seq<char>) -> Option<int>
    decreases names.len(),
{
    if names.len() == 0 {
        None
    } else if names[0] == name {
        Some(0)
    } else {
        match first_index_of(names.drop_first(), name) {
            Some(i) => Some(i + 1),
            None => None,
        }
    }
}

/// `first_index_of` finds the first position that holds `name`, and finds none
/// only where no position holds it.
pub proof fn lemma_first_index_of(names: Seq<Seq<char>>, name: Seq<char>)
    ensures
        match first_index_of(names, name) {
            Some(i) => is_first_at(names, name, i),
            None => forall|j: int| 0 <= j < names.len() ==> names[j] != name,
        },
    decreases names.len(),
{
    if names.len() > 0 && names[0] != name {
        let rest = names.drop_first();
        lemma_first_index_of(rest, name);
        match first_index_of(rest, name) {
            Some(i) => {
                assert forall|j: int| 0 <= j < i + 1 implies names[j] != name by {
                    if j > 0 {
                        assert(names[j] == rest[j - 1]);
                    }
                }
            },
            None => {
                assert forall|j: int| 0 <= j < names.len() implies names[j] != name by {
                    if j > 0 {
                        assert(names[j] == rest[j - 1]);
                    }
                }
            },
        }
    }
}

/// A position that is the first to hold `name` is the one `first_index_of` gives.
pub proof fn lemma_first_at_is_first_index(names: Seq<Seq<char>>, name: Seq<char>, i: int)
    requires
        is_first_at(names, name, i),
    ensures
        first_index_of(names, name) == Some(i),
{
    lemma_first_index_of(names, name);
}

/// The option at position `at`, if there is a position.
pub open spec fn option_at(options: Seq<CommandOptionView>, at: Option<int>) -> Option<
    CommandOptionView,
> {
    match at {
        Some(i) => Some(options[i]),
        None => None,
    }
}

/// The argument at position `at`, if there is a position.
pub open spec fn arg_at(args: Seq<CommandArgView>, at: Option<int>) -> Option<CommandArgView> {
    match at {
        Some(i) => Some(args[i]),
        None => None,
    }
}

/// The command at position `at`, if there is a position.
pub open spec fn command_at(commands: Seq<CommandView>, at: Option<int>) -> Option<CommandView> {
    match at {
        Some(i) => Some(commands[i]),
        None => None,
    }
}

/// The first of `options` whose name is `name`.
pub open spec fn option_named(options: Seq<CommandOptionView>, name: Seq<char>) -> Option<
    CommandOptionView,
> {
    option_at(options, first_index_of(option_names(options), name))
}

/// The first of `args` whose name is `name`.
pub open spec fn arg_named(args: Seq<CommandArgView>, name: Seq<char>) -> Option<CommandArgView> {
    arg_at(args, first_index_of(arg_names(args), name))
}

/// The first of `commands` whose name is `name`.
pub open spec fn command_named(commands: Seq<CommandView>, name: Seq<char>) -> Option<CommandView> {
    command_at(commands, first_index_of(command_names(commands), name))
}

/// The view of an option that was looked up.
pub open spec fn found_option_view(found: Option<&CommandOption>) -> Option<CommandOptionView> {
    match found {
        Some(option) => Some(option@),
        None => None,
    }
}

/// The view of an argument that was looked up.
pub open spec fn found_arg_view(found: Option<&CommandArg>) -> Option<CommandArgView> {
    match found {
        Some(arg) => Some(arg@),
        None => None,
    }
}

/// The view of a command that was looked up.
pub open spec fn found_command_view(found: Option<&Command>) -> Option<CommandView> {
    match found {
        Some(command) => Some(command@),
        None => None,
    }
}

/// The first of `options` whose name is `name`.
pub fn find_option<'a>(options: &'a Vec<CommandOption>, name: &str) -> (r: Option<&'a CommandOption>)
    ensures
        found_option_view(r) == option_named(options_view(options@), name@),
{
    let wanted: String = name.to_owned();
    let ghost names = option_names(options_view(options@));
    let mut i: usize = 0;
    while i < options.len()
        invariant
            i <= options@.len(),
            wanted@ == name@,
            names == option_names(options_view(options@)),
            forall|j: int| 0 <= j < i ==> names[j] != name@,
        decreases options@.len() - i,
    {
        if options[i].name == wanted {
            proof {
                lemma_first_at_is_first_index(names, name@, i as int);
            }
            return Some(&options[i]);
        }
        i += 1;
    }
    proof {
        lemma_first_index_of(names, name@);
    }
    None
}

/// The first of `args` whose name is `name`.
pub fn find_arg<'a>(args: &'a Vec<CommandArg>, name: &str) -> (r: Option<&'a CommandArg>)
    ensures
        found_arg_view(r) == arg_named(args_view(args@), name@),
{
    let wanted: String = name.to_owned();
    let ghost names = arg_names(args_view(args@));
    let mut i: usize = 0;
    while i < args.len()
        invariant
            i <= args@.len(),
            wanted@ == name@,
            names == arg_names(args_view(args@)),
            forall|j: int| 0 <= j < i ==> names[j] != name@,
        decreases args@.len() - i,
    {
        if args[i].name == wanted {
            proof {
                lemma_first_at_is_first_index(names, name@, i as int);
            }
            return Some(&args[i]);
        }
        i += 1;
    }
    proof {
        lemma_first_index_of(names, name@);
    }
    None
}

/// The first of `commands` whose name is `name`.
pub fn find_command<'a>(commands: &'a Vec<Command>, name: &str) -> (r: Option<&'a Command>)
    ensures
        found_command_view(r) == command_named(commands_view(commands@), name@),
{
    let wanted: String = name.to_owned();
    let ghost names = command_names(commands_view(commands@));
    let mut i: usize = 0;
    while i < commands.len()
        invariant
            i <= commands@.len(),
            wanted@ == name@,
            names == command_names(commands_view(commands@)),
            forall|j: int| 0 <= j < i ==> names[j] != name@,
        decreases commands@.len() - i,
    {
        if commands[i].is_named(&wanted) {
            proof {
                lemma_first_at_is_first_index(names, name@, i as int);
            }
            return Some(&commands[i]);
        }
        i += 1;
    }
    proof {
        lemma_first_index_of(names, name@);
    }
    None
}

impl ScriptCommand {
    pub fn new(
        name: String,
        description: Option<String>,
        path: PathBuf,
        options: Vec<CommandOption>,
        args: Vec<CommandArg>,
        sub_commands: Vec<Command>,
    ) -> (r: ScriptCommand)
        ensures
            r@ == (CommandView {
                name: name@,
                description: text_view(description),
                options: options_view(options@),
                args: args_view(args@),
                sub_commands: commands_view(sub_commands@),
                path: Some(path),
            }),
    {
        ScriptCommand { name, description, path, options, args, sub_commands }
    }

    pub fn name(&self) -> (r: &str)
        ensures
            r@ == self@.name,
    {
        self.name.as_str()
    }

    pub fn description(&self) -> (r: Option<&str>)
        ensures
            str_view(r) == self@.description,
    {
        match &self.description {
            Some(text) => Some(text.as_str()),
            None => None,
        }
    }

    pub fn sub_commands(&self) -> (r: &Vec<Command>)
        ensures
            commands_view(r@) == self@.sub_commands,
    {
        &self.sub_commands
    }

    pub fn options(&self) -> (r: &Vec<CommandOption>)
        ensures
            options_view(r@) == self@.options,
    {
        &self.options
    }

    pub fn args(&self) -> (r: &Vec<CommandArg>)
        ensures
            args_view(r@) == self@.args,
    {
        &self.args
    }

    pub fn get_path(&self) -> (r: Option<&PathBuf>)
        ensures
            r matches Some(path) && self@.path == Some(*path),
    {
        Some(&self.path)
    }
}

impl EmbeddedCommand {
    pub fn new(
        name: String,
        description: Option<String>,
        options: Vec<CommandOption>,
        args: Vec<CommandArg>,
    ) -> (r: EmbeddedCommand)
        ensures
            r@ == (CommandView {
                name: name@,
                description: text_view(description),
                options: options_view(options@),
                args: args_view(args@),
                sub_commands: Seq::empty(),
                path: None,
            }),
    {
        let r = EmbeddedCommand { name, description, options, args, sub_commands: Vec::new() };
        assert(commands_view(r.sub_commands@) =~= Seq::empty());
        r
    }

    pub fn name(&self) -> (r: &str)
        ensures
            r@ == self@.name,
    {
        self.name.as_str()
    }

    pub fn description(&self) -> (r: Option<&str>)
        ensures
            str_view(r) == self@.description,
    {
        match &self.description {
            Some(text) => Some(text.as_str()),
            None => None,
        }
    }

    pub fn sub_commands(&self) -> (r: &Vec<Command>)
        ensures
            commands_view(r@) == self@.sub_commands,
    {
        &self.sub_commands
    }

    pub fn options(&self) -> (r: &Vec<CommandOption>)
        ensures
            options_view(r@) == self@.options,
    {
        &self.options
    }

    pub fn args(&self) -> (r: &Vec<CommandArg>)
        ensures
            args_view(r@) == self@.args,
    {
        &self.args
    }

    pub fn get_path(&self) -> (r: Option<&PathBuf>)
        ensures
            r is None,
            self@.path is None,
    {
        None
    }
}

impl Command {
    /// Whether the command's name is `name`.
    fn is_named(&self, name: &String) -> (r: bool)
        ensures
            r == (self@.name == name@),
    {
        match self {
            Command::Script(script) => script.name == *name,
            Command::Embedded(embedded) => embedded.name == *name,
        }
    }

    pub fn name(&self) -> (r: &str)
        ensures
            r@ == self@.name,
    {
        match self {
            Command::Script(script) => script.name(),
            Command::Embedded(embedded) => embedded.name(),
        }
    }

    pub fn description(&self) -> (r: Option<&str>)
        ensures
            str_view(r) == self@.description,
    {
        match self {
            Command::Script(script) => script.description(),
            Command::Embedded(embedded) => embedded.description(),
        }
    }

    pub fn sub_commands(&self) -> (r: &Vec<Command>)
        ensures
            commands_view(r@) == self@.sub_commands,
            forall|i: int| 0 <= i < r@.len() ==> decreases_to!(self => #[trigger] r@[i]),
    {
        broadcast use vstd::std_specs::vec::axiom_vec_index_decreases;
        match self {
            Command::Script(script) => &script.sub_commands,
            Command::Embedded(embedded) => &embedded.sub_commands,
        }
    }

    pub fn options(&self) -> (r: &Vec<CommandOption>)
        ensures
            options_view(r@) == self@.options,
    {
        match self {
            Command::Script(script) => script.options(),
            Command::Embedded(embedded) => embedded.options(),
        }
    }

    pub fn args(&self) -> (r: &Vec<CommandArg>)
        ensures
            args_view(r@) == self@.args,
    {
        match self {
            Command::Script(script) => script.args(),
            Command::Embedded(embedded) => embedded.args(),
        }
    }

    /// The first option of the command whose name is `name`.
    pub fn get_option(&self, name: &str) -> (r: Option<&CommandOption>)
        ensures
            found_option_view(r) == option_named(self@.options, name@),
    {
        find_option(self.options(), name)
    }

    /// The first argument of the command whose name is `name`.
    pub fn get_arg(&self, name: &str) -> (r: Option<&CommandArg>)
        ensures
            found_arg_view(r) == arg_named(self@.args, name@),
    {
        find_arg(self.args(), name)
    }

    /// The script behind the command: its own for a script command, none for an embedded one.
    pub fn get_path(&self) -> (r: Option<&PathBuf>)
        ensures
            match r {
                Some(path) => self@.path == Some(*path),
                None => self@.path is None,
            },
            r is Some <==> self is Script,
    {
        match self {
            Command::Script(script) => script.get_path(),
            Command::Embedded(embedded) => embedded.get_path(),
        }
    }
}

/// The model of a single CLI tool: its top-level commands.
pub struct Model {
    pub commands: Vec<Command>,
}

impl View for Model {
    type V = Seq<CommandView>;

    open spec fn view(&self) -> Seq<CommandView> {
        commands_view(self.commands@)
    }
}

impl Model {
    pub fn new(commands: Vec<Command>) -> (r: Model)
        ensures
            r.commands == commands,
    {
        Model { commands }
    }
}

/// Something that holds commands which can be looked up by name.
pub trait HasSubCommands {
    /// The commands that are held, in order.
    spec fn held_commands(&self) -> Seq<CommandView>;

    /// The first held command whose name is `name`.
    fn get_command(&self, name: &str) -> (r: Option<&Command>)
        ensures
            found_command_view(r) == command_named(self.held_commands(), name@),
    ;
}

impl HasSubCommands for Model {
    open spec fn held_commands(&self) -> Seq<CommandView> {
        self@
    }

    fn get_command(&self, name: &str) -> (r: Option<&Command>) {
        find_command(&self.commands, name)
    }
}

impl HasSubCommands for Command {
    open spec fn held_commands(&self) -> Seq<CommandView> {
        self@.sub_commands
    }

    fn get_command(&self, name: &str) -> (r: Option<&Command>) {
        find_command(self.sub_commands(), name)
    }
}

} // verus!
