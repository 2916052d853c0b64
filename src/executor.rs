//! Output of external commands and the logs kept of them.

use vstd::prelude::*;
use crate::text::{decimal, int_to_text};

verus! {

/// One message from a running command.
#[derive(Debug, Clone)]
pub enum CommandOutput {
    /// A line of standard output.
    Stdout(String),
    /// A line of standard error.
    Stderr(String),
    /// The command ended with this exit code.
    Exit(i32),
    /// The command could not be started or waited for.
    Error(String),
}

/// What a `CommandOutput` says, over plain values.
pub enum OutputView {
    Stdout(Seq<char>),
    Stderr(Seq<char>),
    Exit(i32),
    Error(Seq<char>),
}

impl View for CommandOutput {
    type V = OutputView;

    open spec fn view(&self) -> OutputView {
        match self {
            CommandOutput::Stdout(s) => OutputView::Stdout(s@),
            CommandOutput::Stderr(s) => OutputView::Stderr(s@),
            CommandOutput::Exit(c) => OutputView::Exit(*c),
            CommandOutput::Error(s) => OutputView::Error(s@),
        }
    }
}

impl OutputView {
    /// The message ends the command.
    pub open spec fn is_terminal(self) -> bool {
        self is Exit || self is Error
    }

    /// The exit code that a terminal message stands for; a start failure counts as `-1`.
    pub open spec fn code(self) -> i32 {
        match self {
            OutputView::Exit(c) => c,
            _ => -1i32,
        }
    }
}

impl CommandOutput {
    /// A copy of this message.
    pub fn copy(&self) -> (r: CommandOutput)
        ensures
            r@ == self@,
    {
        match self {
            CommandOutput::Stdout(s) => CommandOutput::Stdout(s.clone()),
            CommandOutput::Stderr(s) => CommandOutput::Stderr(s.clone()),
            CommandOutput::Exit(c) => CommandOutput::Exit(*c),
            CommandOutput::Error(s) => CommandOutput::Error(s.clone()),
        }
    }

    /// Whether this message ends the command.
    pub fn is_terminal(&self) -> (r: bool)
        ensures
            r == self@.is_terminal(),
    {
        match self {
            CommandOutput::Exit(_) | CommandOutput::Error(_) => true,
            _ => false,
        }
    }

    /// The exit code of a terminal message (`-1` for a start failure).
    pub fn code(&self) -> (r: i32)
        ensures
            r == self@.code(),
    {
        match self {
            CommandOutput::Exit(c) => *c,
            _ => -1,
        }
    }
}

/// Runs external commands; the process work itself lives with the caller.
pub struct CommandExecutor;

/// The record of one command's run: what was run, what it printed, how it ended.
#[derive(Debug, Clone)]
pub struct CommandLog {
    /// Branch name this command was run for (or a system name such as `fetch:origin`).
    pub branch: String,
    /// The command that was run.
    pub command: String,
    /// Output in arrival order.
    pub output: Vec<CommandOutput>,
    /// Whether the command is still running.
    pub is_running: bool,
    /// Final exit code, once known.
    pub exit_code: Option<i32>,
    /// A system log (fetch and the like) rather than a branch's command.
    pub is_system_log: bool,
}

/// The summary line of a log with these parts.
pub open spec fn summary_of(
    command: Seq<char>,
    is_running: bool,
    exit_code: Option<i32>,
) -> Seq<char> {
    if is_running {
        "Running: "@ + command
    } else if exit_code == Some(0i32) {
        "\u{2713} "@ + command
    } else {
        "\u{2717} "@ + command + " (exit code: "@ + decimal(
            match exit_code {
                Some(c) => c as int,
                None => -1,
            },
        ) + ")"@
    }
}

/// What a `CommandLog` holds, over plain values.
pub struct LogView {
    pub branch: Seq<char>,
    pub command: Seq<char>,
    pub output: Seq<OutputView>,
    pub is_running: bool,
    pub exit_code: Option<i32>,
    pub is_system_log: bool,
}

impl LogView {
    /// The log after message `o` has been appended.
    pub open spec fn with_output(self, o: OutputView) -> LogView {
        LogView {
            output: self.output.push(o),
            is_running: if o.is_terminal() {
                false
            } else {
                self.is_running
            },
            exit_code: if o.is_terminal() {
                Some(o.code())
            } else {
                self.exit_code
            },
            ..self
        }
    }
}

/// The views of a sequence of messages.
pub open spec fn output_views(v: Seq<CommandOutput>) -> Seq<OutputView> {
    v.map_values(|o: CommandOutput| o@)
}

impl View for CommandLog {
    type V = LogView;

    open spec fn view(&self) -> LogView {
        LogView {
            branch: self.branch@,
            command: self.command@,
            output: output_views(self.output@),
            is_running: self.is_running,
            exit_code: self.exit_code,
            is_system_log: self.is_system_log,
        }
    }
}

/// The views of a sequence of logs.
pub open spec fn log_views(v: Seq<CommandLog>) -> Seq<LogView> {
    v.map_values(|l: CommandLog| l@)
}

impl CommandLog {
    /// A fresh, running log of a branch's command.
    pub fn new(branch: String, command: String) -> (r: Self)
        ensures
            r.branch == branch,
            r.command == command,
            r.output@.len() == 0,
            r@.output == Seq::<OutputView>::empty(),
            r.is_running,
            r.exit_code is None,
            !r.is_system_log,
    {
        let r = CommandLog {
            branch,
            command,
            output: Vec::new(),
            is_running: true,
            exit_code: None,
            is_system_log: false,
        };
        assert(r@.output =~= Seq::<OutputView>::empty());
        r
    }

    /// A fresh, running system log (fetch and the like).
    pub fn new_system(name: String, command: String) -> (r: Self)
        ensures
            r.branch == name,
            r.command == command,
            r.output@.len() == 0,
            r@.output == Seq::<OutputView>::empty(),
            r.is_running,
            r.exit_code is None,
            r.is_system_log,
    {
        let r = CommandLog {
            branch: name,
            command,
            output: Vec::new(),
            is_running: true,
            exit_code: None,
            is_system_log: true,
        };
        assert(r@.output =~= Seq::<OutputView>::empty());
        r
    }

    /// Appends one message; a terminal message ends the run and sets the exit code.
    pub fn add_output(&mut self, output: CommandOutput)
        ensures
            final(self)@ == old(self)@.with_output(output@),
            final(self).output@ == old(self).output@.push(output),
            final(self).branch == old(self).branch,
            final(self).command == old(self).command,
            final(self).is_system_log == old(self).is_system_log,
            output@.is_terminal() ==> !final(self).is_running && final(self).exit_code
                == Some(output@.code()),
            !output@.is_terminal() ==> final(self).is_running == old(self).is_running
                && final(self).exit_code == old(self).exit_code,
    {
        match &output {
            CommandOutput::Exit(code) => {
                self.is_running = false;
                self.exit_code = Some(*code);
            },
            CommandOutput::Error(_) => {
                self.is_running = false;
                self.exit_code = Some(-1);
            },
            _ => {},
        }
        self.output.push(output);
        assert(output_views(self.output@) =~= output_views(old(self).output@).push(output@));
    }

    /// Whether the command ended with exit code zero.
    pub fn succeeded(&self) -> (r: bool)
        ensures
            r == (self.exit_code == Some(0i32)),
    {
        match self.exit_code {
            Some(c) => c == 0,
            None => false,
        }
    }

    /// One line that says how the command stands.
    pub fn summary(&self) -> (r: String)
        ensures
            r@ == summary_of(self.command@, self.is_running, self.exit_code),
    {
        if self.is_running {
            let r = String::from_str("Running: ");
            r.concat(self.command.as_str())
        } else if self.succeeded() {
            let r = String::from_str("\u{2713} ");
            r.concat(self.command.as_str())
        } else {
            let code: i32 = match self.exit_code {
                Some(c) => c,
                None => -1,
            };
            let r = String::from_str("\u{2717} ");
            let r = r.concat(self.command.as_str());
            let r = r.concat(" (exit code: ");
            let digits = int_to_text(code);
            let r = r.concat(digits.as_str());
            r.concat(")")
        }
    }
}

} // verus!
