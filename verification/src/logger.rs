use vstd::prelude::*;
use vstd::string::*;

verus! {

/// One line of the log: the level, the name of the component that speaks, and
/// its message.
pub open spec fn log_line(level: Seq<char>, name: Seq<char>, message: Seq<char>) -> Seq<char> {
    level + ": "@ + name + ": "@ + message
}

/// Composes the log lines of one named component. It writes nothing itself:
/// the lines are handed to whoever owns the sink.
#[derive(Debug, Clone)]
pub struct Logger {
    pub name: String,
}

impl Logger {
    /// A composer of the lines of the component called `name`.
    pub fn new(name: &str) -> (result: Logger)
        ensures
            result.name@ == name@,
    {
        Logger { name: String::from_str(name) }
    }

    /// The line that reports `message` at `level`.
    fn line(&self, level: &str, message: &str) -> (result: String)
        ensures
            result@ == log_line(level@, self.name@, message@),
    {
        String::from_str(level).concat(": ").concat(self.name.as_str()).concat(": ").concat(message)
    }

    /// The line that reports `message` as a warning.
    pub fn warning_line(&self, message: &str) -> (result: String)
        ensures
            result@ == log_line("WARN"@, self.name@, message@),
    {
        self.line("WARN", message)
    }

    /// The line that reports `message` as an error.
    pub fn error_line(&self, message: &str) -> (result: String)
        ensures
            result@ == log_line("ERROR"@, self.name@, message@),
    {
        self.line("ERROR", message)
    }
}

} // verus!
