//! The command language: what a command line or an interactive line asks
//! for, what a command does to a store, and what is said about it.
//!
//! Both front ends go through [`handle_command`]. They differ in three
//! things only, all of them a matter of [`FrontEnd`]: an interactive line may
//! put the text of a new task between double quotes, which are taken off;
//! the command line's messages name the program and the unknown command.

use vstd::prelude::*;
use crate::store::{TaskStore, has_id, listing, with_added, with_flag, without};
use crate::task::TaskView;
use crate::text::{
    decimal,
    decimal_string,
    join_words,
    joined,
    parse_id,
    parsed_id,
    same_text,
    split_words,
    texts,
    trim_char,
    trimmed,
    words,
};

verus! {

/// The front end that a command came through.
#[derive(Debug, Clone, Copy, PartialEq, Eq)]
pub enum FrontEnd {
    /// The arguments of one run of the program.
    Cli,
    /// A line typed at the prompt.
    Repl,
}

/// The commands that cannot do without an argument.
#[derive(Debug, Clone, Copy, PartialEq, Eq)]
pub enum Verb {
    Add,
    Done,
    Undone,
    Delete,
}

/// A command that can be carried out on a store.
#[derive(Debug, PartialEq, Eq)]
pub enum Command {
    Add(String),
    List,
    Done(u32),
    Undone(u32),
    Delete(u32),
}

/// Why a line is no command.
#[derive(Debug, PartialEq, Eq)]
pub enum CommandError {
    /// The command needs an argument and got none.
    MissingArgument(Verb),
    /// The argument is no task number.
    InvalidId,
    /// No command has this name.
    UnknownCommand(String),
}

/// A command as the contracts see it.
pub ghost enum CommandView {
    Add(Seq<char>),
    List,
    Done(nat),
    Undone(nat),
    Delete(nat),
}

/// A refusal as the contracts see it.
pub ghost enum CommandErrorView {
    MissingArgument(Verb),
    InvalidId,
    UnknownCommand(Seq<char>),
}

impl View for Command {
    type V = CommandView;

    open spec fn view(&self) -> CommandView {
        match *self {
            Command::Add(text) => CommandView::Add(text@),
            Command::List => CommandView::List,
            Command::Done(id) => CommandView::Done(id as nat),
            Command::Undone(id) => CommandView::Undone(id as nat),
            Command::Delete(id) => CommandView::Delete(id as nat),
        }
    }
}

impl View for CommandError {
    type V = CommandErrorView;

    open spec fn view(&self) -> CommandErrorView {
        match *self {
            CommandError::MissingArgument(verb) => CommandErrorView::MissingArgument(verb),
            CommandError::InvalidId => CommandErrorView::InvalidId,
            CommandError::UnknownCommand(name) => CommandErrorView::UnknownCommand(name@),
        }
    }
}

/// The view of what [`handle_command`] returns.
pub open spec fn answer_view(answer: Result<Command, CommandError>) -> Result<
    CommandView,
    CommandErrorView,
> {
    match answer {
        Ok(command) => Ok(command@),
        Err(error) => Err(error@),
    }
}

/// The command that takes a task number, for the three verbs that do.
pub open spec fn numbered(verb: Verb, id: nat) -> CommandView {
    match verb {
        Verb::Done => CommandView::Done(id),
        Verb::Undone => CommandView::Undone(id),
        _ => CommandView::Delete(id),
    }
}

/// What a verb with a task number asks for: the first argument is the
/// number, and the arguments after it are not looked at.
pub open spec fn parsed_numbered(verb: Verb, args: Seq<Seq<char>>) -> Result<
    CommandView,
    CommandErrorView,
> {
    if args.len() == 0 {
        Err(CommandErrorView::MissingArgument(verb))
    } else {
        match parsed_id(args[0]) {
            Some(id) => Ok(numbered(verb, id as nat)),
            None => Err(CommandErrorView::InvalidId),
        }
    }
}

/// The text of a new task: the arguments joined by single spaces and, on an
/// interactive line, without the double quotes at the two ends.
pub open spec fn task_text(front: FrontEnd, args: Seq<Seq<char>>) -> Seq<char> {
    match front {
        FrontEnd::Cli => joined(args),
        FrontEnd::Repl => trimmed(joined(args), '"'),
    }
}

/// What a command name and its arguments ask for.
pub open spec fn parsed_command(front: FrontEnd, name: Seq<char>, args: Seq<Seq<char>>) -> Result<
    CommandView,
    CommandErrorView,
> {
    if name == "add"@ {
        if args.len() == 0 {
            Err(CommandErrorView::MissingArgument(Verb::Add))
        } else {
            Ok(CommandView::Add(task_text(front, args)))
        }
    } else if name == "list"@ {
        Ok(CommandView::List)
    } else if name == "done"@ {
        parsed_numbered(Verb::Done, args)
    } else if name == "undone"@ {
        parsed_numbered(Verb::Undone, args)
    } else if name == "delete"@ {
        parsed_numbered(Verb::Delete, args)
    } else {
        Err(CommandErrorView::UnknownCommand(name))
    }
}

/// Reads the task number that `verb` needs.
fn handle_numbered(verb: Verb, args: &[String]) -> (answer: Result<Command, CommandError>)
    requires
        verb != Verb::Add,
    ensures
        answer_view(answer) == parsed_numbered(verb, texts(args@)),
{
    if args.len() == 0 {
        return Err(CommandError::MissingArgument(verb));
    }
    match parse_id(args[0].as_str()) {
        Some(id) => Ok(
            match verb {
                Verb::Done => Command::Done(id),
                Verb::Undone => Command::Undone(id),
                _ => Command::Delete(id),
            },
        ),
        None => Err(CommandError::InvalidId),
    }
}

/// Decides what a command name and its arguments ask for, without touching
/// any store.
pub fn handle_command(front: FrontEnd, name: &str, args: &[String]) -> (answer: Result<
    Command,
    CommandError,
>)
    ensures
        answer_view(answer) == parsed_command(front, name@, texts(args@)),
{
    if same_text(name, "add") {
        if args.len() == 0 {
            return Err(CommandError::MissingArgument(Verb::Add));
        }
        let text = join_words(args);
        match front {
            FrontEnd::Cli => Ok(Command::Add(text)),
            FrontEnd::Repl => Ok(Command::Add(trim_char(text.as_str(), '"'))),
        }
    } else if same_text(name, "list") {
        Ok(Command::List)
    } else if same_text(name, "done") {
        handle_numbered(Verb::Done, args)
    } else if same_text(name, "undone") {
        handle_numbered(Verb::Undone, args)
    } else if same_text(name, "delete") {
        handle_numbered(Verb::Delete, args)
    } else {
        Err(CommandError::UnknownCommand(name.to_owned()))
    }
}

/// The line that tells how a verb is used.
pub open spec fn usage_text(front: FrontEnd, verb: Verb) -> Seq<char> {
    match (front, verb) {
        (FrontEnd::Cli, Verb::Add) => "Usage: task_manager add <task text>"@,
        (FrontEnd::Cli, Verb::Done) => "Usage: task_manager done <id>"@,
        (FrontEnd::Cli, Verb::Undone) => "Usage: task_manager undone <id>"@,
        (FrontEnd::Cli, Verb::Delete) => "Usage: task_manager delete <id>"@,
        (FrontEnd::Repl, Verb::Add) => "Usage: add <task text>"@,
        (FrontEnd::Repl, Verb::Done) => "Usage: done <id>"@,
        (FrontEnd::Repl, Verb::Undone) => "Usage: undone <id>"@,
        (FrontEnd::Repl, Verb::Delete) => "Usage: delete <id>"@,
    }
}

/// The line that is shown for a refusal.
pub open spec fn error_text(front: FrontEnd, error: CommandErrorView) -> Seq<char> {
    match error {
        CommandErrorView::MissingArgument(verb) => usage_text(front, verb),
        CommandErrorView::InvalidId => "Invalid ID"@,
        CommandErrorView::UnknownCommand(name) => match front {
            FrontEnd::Cli => "Unknown command: "@ + name,
            FrontEnd::Repl => "Unknown command"@,
        },
    }
}

/// The line that tells how the program is called.
pub open spec fn program_usage_text() -> Seq<char> {
    "Usage: task_manager <command> [args]"@
}

/// Tells how a verb is used.
pub fn usage(front: FrontEnd, verb: Verb) -> (line: &'static str)
    ensures
        line@ == usage_text(front, verb),
{
    match (front, verb) {
        (FrontEnd::Cli, Verb::Add) => "Usage: task_manager add <task text>",
        (FrontEnd::Cli, Verb::Done) => "Usage: task_manager done <id>",
        (FrontEnd::Cli, Verb::Undone) => "Usage: task_manager undone <id>",
        (FrontEnd::Cli, Verb::Delete) => "Usage: task_manager delete <id>",
        (FrontEnd::Repl, Verb::Add) => "Usage: add <task text>",
        (FrontEnd::Repl, Verb::Done) => "Usage: done <id>",
        (FrontEnd::Repl, Verb::Undone) => "Usage: undone <id>",
        (FrontEnd::Repl, Verb::Delete) => "Usage: delete <id>",
    }
}

/// Tells how the program is called.
pub fn program_usage() -> (line: &'static str)
    ensures
        line@ == program_usage_text(),
{
    "Usage: task_manager <command> [args]"
}

/// The line to show for a refusal.
pub fn error_message(front: FrontEnd, error: &CommandError) -> (line: String)
    ensures
        line@ == error_text(front, error@),
{
    match error {
        CommandError::MissingArgument(verb) => usage(front, *verb).to_owned(),
        CommandError::InvalidId => "Invalid ID".to_owned(),
        CommandError::UnknownCommand(name) => match front {
            FrontEnd::Cli => {
                let mut line = "Unknown command: ".to_owned();
                line.append(name.as_str());
                line
            },
            FrontEnd::Repl => "Unknown command".to_owned(),
        },
    }
}

/// The store after a command was carried out on it.
pub open spec fn executed(store: Seq<TaskView>, command: CommandView) -> Seq<TaskView> {
    match command {
        CommandView::Add(text) => with_added(store, text),
        CommandView::List => store,
        CommandView::Done(id) => with_flag(store, id, true),
        CommandView::Undone(id) => with_flag(store, id, false),
        CommandView::Delete(id) => without(store, id),
    }
}

/// Whether the store is to be written back after a command: always after
/// adding and after setting a flag, whether or not a task bore the number;
/// never after listing; after deleting only if a task was removed.
pub open spec fn saves(store: Seq<TaskView>, command: CommandView) -> bool {
    match command {
        CommandView::List => false,
        CommandView::Delete(id) => has_id(store, id),
        _ => true,
    }
}

/// The lines that are shown once a command was carried out on `store`.
pub open spec fn report(store: Seq<TaskView>, command: CommandView) -> Seq<Seq<char>> {
    match command {
        CommandView::Add(text) => seq!["Added task #"@ + decimal(store.len() + 1)],
        CommandView::List => listing(store),
        CommandView::Done(id) => seq!["Marked task #"@ + decimal(id) + " as done"@],
        CommandView::Undone(id) => seq!["Marked task #"@ + decimal(id) + " as not done"@],
        CommandView::Delete(id) => if has_id(store, id) {
            seq!["Deleted task #"@ + decimal(id)]
        } else {
            seq!["No task with id "@ + decimal(id) + " found"@]
        },
    }
}

/// What is left to do outside the store once a command was carried out.
#[derive(Debug, PartialEq, Eq)]
pub struct Effect {
    /// Whether the store is to be written back.
    pub save: bool,
    /// The lines to show, in order.
    pub output: Vec<String>,
}

/// A line that ends in a number.
fn line_with_number(before: &str, id: u32) -> (line: String)
    ensures
        line@ == before@ + decimal(id as nat),
{
    let mut line = before.to_owned();
    line.append(decimal_string(id).as_str());
    line
}

/// An output of one line.
fn single_line(line: String) -> (lines: Vec<String>)
    ensures
        texts(lines@) == seq![line@],
{
    let mut lines: Vec<String> = Vec::new();
    lines.push(line);
    lines
}

impl TaskStore {
    /// Carries a command out on the store and says what is left to do:
    /// whether to write the store back, and which lines to show.
    pub fn execute(&mut self, command: Command) -> (effect: Effect)
        requires
            command@ is Add ==> old(self)@.len() < u32::MAX,
        ensures
            final(self)@ == executed(old(self)@, command@),
            effect.save == saves(old(self)@, command@),
            texts(effect.output@) == report(old(self)@, command@),
    {
        match command {
            Command::Add(text) => {
                let id = self.add_task(text);
                Effect { save: true, output: single_line(line_with_number("Added task #", id)) }
            },
            Command::List => Effect { save: false, output: self.list_tasks() },
            Command::Done(id) => {
                self.done(id);
                let mut line = line_with_number("Marked task #", id);
                line.append(" as done");
                Effect { save: true, output: single_line(line) }
            },
            Command::Undone(id) => {
                self.undone(id);
                let mut line = line_with_number("Marked task #", id);
                line.append(" as not done");
                Effect { save: true, output: single_line(line) }
            },
            Command::Delete(id) => {
                if self.delete(id) {
                    Effect { save: true, output: single_line(line_with_number("Deleted task #", id)) }
                } else {
                    let mut line = line_with_number("No task with id ", id);
                    line.append(" found");
                    Effect { save: false, output: single_line(line) }
                }
            },
        }
    }
}

/// What the command line asks for.
#[derive(Debug, PartialEq, Eq)]
pub enum CliStep {
    /// Too few arguments: tell how the program is called.
    Usage,
    /// Start reading lines at the prompt.
    Repl,
    /// A command to carry out, or the reason why there is none.
    Dispatch(Result<Command, CommandError>),
}

/// What a line typed at the prompt asks for.
#[derive(Debug, PartialEq, Eq)]
pub enum ReplStep {
    /// Stop reading lines.
    Exit,
    /// Nothing: read the next line.
    Skip,
    /// A command to carry out, or the reason why there is none.
    Dispatch(Result<Command, CommandError>),
}

/// A step of the command line as the contracts see it.
pub ghost enum CliStepView {
    Usage,
    Repl,
    Dispatch(Result<CommandView, CommandErrorView>),
}

/// A step at the prompt as the contracts see it.
pub ghost enum ReplStepView {
    Exit,
    Skip,
    Dispatch(Result<CommandView, CommandErrorView>),
}

impl View for CliStep {
    type V = CliStepView;

    open spec fn view(&self) -> CliStepView {
        match *self {
            CliStep::Usage => CliStepView::Usage,
            CliStep::Repl => CliStepView::Repl,
            CliStep::Dispatch(answer) => CliStepView::Dispatch(answer_view(answer)),
        }
    }
}

impl View for ReplStep {
    type V = ReplStepView;

    open spec fn view(&self) -> ReplStepView {
        match *self {
            ReplStep::Exit => ReplStepView::Exit,
            ReplStep::Skip => ReplStepView::Skip,
            ReplStep::Dispatch(answer) => ReplStepView::Dispatch(answer_view(answer)),
        }
    }
}

/// What the arguments of one run ask for. The first argument is the
/// program's own name, the second the command, the others the command's
/// arguments.
pub open spec fn cli_action(args: Seq<Seq<char>>) -> CliStepView {
    if args.len() < 2 {
        CliStepView::Usage
    } else if args[1] == "repl"@ {
        CliStepView::Repl
    } else {
        CliStepView::Dispatch(parsed_command(FrontEnd::Cli, args[1], args.skip(2)))
    }
}

/// What a line typed at the prompt asks for. The line is read as its words:
/// none asks for nothing, the single word `exit` or `quit` ends the session,
/// and otherwise the first word is the command and the others its arguments.
pub open spec fn repl_action(line: Seq<char>) -> ReplStepView {
    let found = words(line);
    if found.len() == 0 {
        ReplStepView::Skip
    } else if found.len() == 1 && (found[0] == "exit"@ || found[0] == "quit"@) {
        ReplStepView::Exit
    } else {
        ReplStepView::Dispatch(parsed_command(FrontEnd::Repl, found[0], found.skip(1)))
    }
}

/// Decides what the arguments of one run ask for.
pub fn cli_step(args: &[String]) -> (step: CliStep)
    ensures
        step@ == cli_action(texts(args@)),
{
    let n = args.len();
    if n < 2 {
        return CliStep::Usage;
    }
    if same_text(args[1].as_str(), "repl") {
        return CliStep::Repl;
    }
    let rest = vstd::slice::slice_subrange(args, 2, n);
    assert(texts(rest@) == texts(args@).skip(2));
    CliStep::Dispatch(handle_command(FrontEnd::Cli, args[1].as_str(), rest))
}

/// Decides what a line typed at the prompt asks for.
pub fn repl_step(line: &str) -> (step: ReplStep)
    ensures
        step@ == repl_action(line@),
{
    let found = split_words(line);
    let n = found.len();
    if n == 0 {
        return ReplStep::Skip;
    }
    let name = found[0].as_str();
    if n == 1 && (same_text(name, "exit") || same_text(name, "quit")) {
        return ReplStep::Exit;
    }
    let rest = vstd::slice::slice_subrange(found.as_slice(), 1, n);
    assert(texts(rest@) == texts(found@).skip(1));
    ReplStep::Dispatch(handle_command(FrontEnd::Repl, name, rest))
}

} // verus!
