//! The commands as the user gives them, and what each asks for.

use vstd::prelude::*;
use crate::session::Command;

verus! {

/// A parsed command line.
#[derive(Debug)]
pub struct Cli {
    pub command: Commands,
}

/// The subcommands.
#[derive(Debug)]
pub enum Commands {
    /// Show the base directory and how many apps there are.
    Info,
    /// Create a new app.
    Create { name: String },
    /// List apps; `long` shows a line of columns for each, `full` leaves
    /// the columns uncut.
    List { long: bool, full: bool },
    /// List running apps.
    Ps { long: bool, full: bool },
    /// Run an app.
    Run { name: String },
    /// Show the status of an app.
    Status { name: String },
    /// Stop an app with its stop script; `force` runs the script even if
    /// the app does not seem to run.
    Stop { name: String, force: bool },
    /// Kill an app by its recorded process id.
    Kill { name: String },
    /// Delete an app; `force` skips the question.
    Delete { name: String, force: bool },
    /// Show the logs of an app, or with `clear` empty them. `stdout` and
    /// `stderr` choose what is emptied, `stderr` also what is shown;
    /// `follow` keeps showing.
    Log { name: String, clear: bool, stdout: bool, stderr: bool, follow: bool },
}

/// Mathematical content of a [`Commands`].
pub enum CommandsView {
    Info,
    Create { name: Seq<char> },
    List { long: bool, full: bool },
    Ps { long: bool, full: bool },
    Run { name: Seq<char> },
    Status { name: Seq<char> },
    Stop { name: Seq<char>, force: bool },
    Kill { name: Seq<char> },
    Delete { name: Seq<char>, force: bool },
    Log { name: Seq<char>, clear: bool, stdout: bool, stderr: bool, follow: bool },
}

impl View for Commands {
    type V = CommandsView;

    open spec fn view(&self) -> CommandsView {
        match self {
            Commands::Info => CommandsView::Info,
            Commands::Create { name } => CommandsView::Create { name: name@ },
            Commands::List { long, full } => CommandsView::List { long: *long, full: *full },
            Commands::Ps { long, full } => CommandsView::Ps { long: *long, full: *full },
            Commands::Run { name } => CommandsView::Run { name: name@ },
            Commands::Status { name } => CommandsView::Status { name: name@ },
            Commands::Stop { name, force } => CommandsView::Stop { name: name@, force: *force },
            Commands::Kill { name } => CommandsView::Kill { name: name@ },
            Commands::Delete { name, force } => CommandsView::Delete {
                name: name@,
                force: *force,
            },
            Commands::Log { name, clear, stdout, stderr, follow } => CommandsView::Log {
                name: name@,
                clear: *clear,
                stdout: *stdout,
                stderr: *stderr,
                follow: *follow,
            },
        }
    }
}

impl View for Cli {
    type V = CommandsView;

    open spec fn view(&self) -> CommandsView {
        self.command@
    }
}

/// What a command line asks for.
#[derive(Debug)]
pub enum Task {
    /// The count of apps.
    Info,
    /// The list of apps.
    List { long: bool, full: bool },
    /// The list of running apps.
    Ps { long: bool, full: bool },
    /// A command on the app `name`. Where `confirm` is set the user is to
    /// be asked first.
    App { name: String, command: Command, confirm: bool },
}

/// Mathematical content of a [`Task`].
pub enum TaskView {
    Info,
    List { long: bool, full: bool },
    Ps { long: bool, full: bool },
    App { name: Seq<char>, command: Command, confirm: bool },
}

impl View for Task {
    type V = TaskView;

    open spec fn view(&self) -> TaskView {
        match self {
            Task::Info => TaskView::Info,
            Task::List { long, full } => TaskView::List { long: *long, full: *full },
            Task::Ps { long, full } => TaskView::Ps { long: *long, full: *full },
            Task::App { name, command, confirm } => TaskView::App {
                name: name@,
                command: *command,
                confirm: *confirm,
            },
        }
    }
}

/// What the `log` subcommand asks for. With `clear` the logs are emptied:
/// the chosen ones, or both where none is chosen. Without it one log is
/// shown.
pub open spec fn log_command(clear: bool, stdout: bool, stderr: bool, follow: bool) -> Command {
    if clear {
        if !stdout && !stderr {
            Command::ClearLogs { stdout: true, stderr: true }
        } else {
            Command::ClearLogs { stdout, stderr }
        }
    } else {
        Command::ShowLogs { stderr, follow }
    }
}

/// What a subcommand asks for. Only deleting without `force` needs the
/// user's word.
pub open spec fn task_of(commands: CommandsView) -> TaskView {
    match commands {
        CommandsView::Info => TaskView::Info,
        CommandsView::List { long, full } => TaskView::List { long, full },
        CommandsView::Ps { long, full } => TaskView::Ps { long, full },
        CommandsView::Create { name } => TaskView::App {
            name,
            command: Command::Create,
            confirm: false,
        },
        CommandsView::Run { name } => TaskView::App { name, command: Command::Run, confirm: false },
        CommandsView::Status { name } => TaskView::App {
            name,
            command: Command::Status,
            confirm: false,
        },
        CommandsView::Stop { name, force } => TaskView::App {
            name,
            command: Command::Stop { force },
            confirm: false,
        },
        CommandsView::Kill { name } => TaskView::App {
            name,
            command: Command::Kill,
            confirm: false,
        },
        CommandsView::Delete { name, force } => TaskView::App {
            name,
            command: Command::Delete,
            confirm: !force,
        },
        CommandsView::Log { name, clear, stdout, stderr, follow } => TaskView::App {
            name,
            command: log_command(clear, stdout, stderr, follow),
            confirm: false,
        },
    }
}

fn app_task(name: String, command: Command) -> (task: Task)
    ensures
        task@ == (TaskView::App { name: name@, command, confirm: false }),
{
    Task::App { name, command, confirm: false }
}

impl Commands {
    /// What this subcommand asks for.
    pub fn task(self) -> (task: Task)
        ensures
            task@ == task_of(self@),
    {
        match self {
            Commands::Info => Task::Info,
            Commands::List { long, full } => Task::List { long, full },
            Commands::Ps { long, full } => Task::Ps { long, full },
            Commands::Create { name } => app_task(name, Command::Create),
            Commands::Run { name } => app_task(name, Command::Run),
            Commands::Status { name } => app_task(name, Command::Status),
            Commands::Stop { name, force } => app_task(name, Command::Stop { force }),
            Commands::Kill { name } => app_task(name, Command::Kill),
            Commands::Delete { name, force } => Task::App {
                name,
                command: Command::Delete,
                confirm: !force,
            },
            Commands::Log { name, clear, stdout, stderr, follow } => {
                let command = if clear {
                    if !stdout && !stderr {
                        Command::ClearLogs { stdout: true, stderr: true }
                    } else {
                        Command::ClearLogs { stdout, stderr }
                    }
                } else {
                    Command::ShowLogs { stderr, follow }
                };
                app_task(name, command)
            },
        }
    }
}

impl Cli {
    /// What this command line asks for.
    pub fn task(self) -> (task: Task)
        ensures
            task@ == task_of(self@),
    {
        self.command.task()
    }
}

/// Whether a character is white space, as Unicode defines it.
pub open spec fn is_space(c: char) -> bool {
    let code = c as u32;
    ||| 0x09 <= code <= 0x0d
    ||| code == 0x20
    ||| code == 0x85
    ||| code == 0xa0
    ||| code == 0x1680
    ||| 0x2000 <= code <= 0x200a
    ||| code == 0x2028
    ||| code == 0x2029
    ||| code == 0x202f
    ||| code == 0x205f
    ||| code == 0x3000
}

/// Whether an answer to the question before deleting says yes: it is a
/// single `y` or `Y`, with nothing but white space around it.
pub open spec fn says_yes(answer: Seq<char>) -> bool {
    exists|i: int|
        0 <= i < answer.len() && (answer[i] == 'y' || answer[i] == 'Y') && forall|j: int|
            0 <= j < answer.len() && j != i ==> is_space(#[trigger] answer[j])
}

fn space(c: char) -> (r: bool)
    ensures
        r == is_space(c),
{
    let code = c as u32;
    (0x09 <= code && code <= 0x0d) || code == 0x20 || code == 0x85 || code == 0xa0 || code
        == 0x1680 || (0x2000 <= code && code <= 0x200a) || code == 0x2028 || code == 0x2029
        || code == 0x202f || code == 0x205f || code == 0x3000
}

/// Whether the user's answer allows the deletion.
pub fn confirms(answer: &str) -> (yes: bool)
    ensures
        yes == says_yes(answer@),
{
    let n = answer.unicode_len();
    let mut found = false;
    let mut spoiled = false;
    let ghost mut at: int = 0;
    let ghost mut first: int = 0;
    let ghost mut second: int = 0;
    let mut i: usize = 0;
    while i < n
        invariant
            i <= n,
            n == answer@.len(),
            !spoiled && !found ==> forall|j: int| 0 <= j < i ==> is_space(#[trigger] answer@[j]),
            !spoiled && found ==> 0 <= at < i && (answer@[at] == 'y' || answer@[at] == 'Y')
                && forall|j: int| 0 <= j < i && j != at ==> is_space(#[trigger] answer@[j]),
            spoiled ==> 0 <= first < i && !is_space(answer@[first]) && (second == first
                ==> answer@[first] != 'y' && answer@[first] != 'Y'),
            spoiled ==> 0 <= second < i && !is_space(answer@[second]),
        decreases n - i,
    {
        let c = answer.get_char(i);
        if !spoiled && !space(c) {
            if found {
                spoiled = true;
                proof {
                    first = at;
                    second = i as int;
                }
            } else if c == 'y' || c == 'Y' {
                found = true;
                proof {
                    at = i as int;
                }
            } else {
                spoiled = true;
                proof {
                    first = i as int;
                    second = i as int;
                }
            }
        }
        i += 1;
    }
    proof {
        if spoiled && says_yes(answer@) {
            let w = choose|w: int|
                0 <= w < answer@.len() && (answer@[w] == 'y' || answer@[w] == 'Y') && forall|
                    j: int,
                |
                    0 <= j < answer@.len() && j != w ==> is_space(#[trigger] answer@[j]);
            assert(first == w);
            assert(second == w);
        }
        if !spoiled && !found && says_yes(answer@) {
            let w = choose|w: int|
                0 <= w < answer@.len() && (answer@[w] == 'y' || answer@[w] == 'Y') && forall|
                    j: int,
                |
                    0 <= j < answer@.len() && j != w ==> is_space(#[trigger] answer@[j]);
            assert(is_space(answer@[w]));
        }
    }
    found && !spoiled
}

} // verus!
