use vstd::prelude::*;
use crate::style::{OutputLine, StyledText};
use crate::text::{trim_of, trimmed};

verus! {

/// The stage at which starting a terminal session failed.
#[derive(Debug, Clone, Copy, PartialEq, Eq, Structural)]
pub enum SpawnStage {
    /// The pseudo-terminal could not be allocated.
    OpenPty,
    /// The child process could not be started.
    SpawnChild,
    /// No reader could be taken from the pseudo-terminal.
    CloneReader,
    /// No writer could be taken from the pseudo-terminal.
    TakeWriter,
}

/// The program that runs the startup command, and its arguments.
pub open spec fn shell_invocation(command: Seq<char>) -> (Seq<char>, Seq<Seq<char>>) {
    ("sh"@, seq!["-c"@, command])
}

/// The text of the single line that reports a failed start.
pub open spec fn spawn_failure_text(stage: SpawnStage, detail: Seq<char>, command: Seq<char>) -> Seq<char> {
    match stage {
        SpawnStage::OpenPty => "Failed to create PTY: "@ + detail + "\n"@,
        SpawnStage::SpawnChild => "Failed to spawn process: "@ + detail + "\nCommand was: sh -c '"@
            + command + "'\n"@,
        SpawnStage::CloneReader => "Failed to clone PTY reader: "@ + detail + "\n"@,
        SpawnStage::TakeWriter => "Failed to get PTY writer: "@ + detail + "\n"@,
    }
}

/// The plain text of a delivered unit: the runs' texts in order, or the error text.
pub open spec fn line_text(line: OutputLine) -> Seq<char> {
    match line {
        OutputLine::Styled(runs) => runs_text(runs@),
        OutputLine::Stderr(t) => t@,
    }
}

/// The texts of a sequence of runs, joined.
pub open spec fn runs_text(runs: Seq<StyledText>) -> Seq<char>
    decreases runs.len(),
{
    if runs.len() == 0 {
        Seq::empty()
    } else {
        runs_text(runs.drop_last()) + runs.last().text@
    }
}

/// What is sent to the child when the user submits `input`: the input and a
/// newline, or a bare newline when the input is blank.
pub open spec fn submitted_text(input: Seq<char>) -> Seq<char> {
    if trim_of(input).len() == 0 {
        "\n"@
    } else {
        input + "\n"@
    }
}

/// The terminal view of the dashboard: what the session has delivered, the
/// input being typed, the startup command, and whether a session is attached.
pub struct TerminalView {
    output: Vec<OutputLine>,
    input: String,
    startup_command: String,
    attached: bool,
}

impl TerminalView {
    /// What the session has delivered, oldest first.
    pub closed spec fn lines(&self) -> Seq<OutputLine> {
        self.output@
    }

    /// The input being typed.
    pub closed spec fn input_text(&self) -> Seq<char> {
        self.input@
    }

    /// The command that a new session runs.
    pub closed spec fn command(&self) -> Seq<char> {
        self.startup_command@
    }

    /// Whether a session is attached.
    pub closed spec fn is_attached(&self) -> bool {
        self.attached
    }

    /// A view with no session, nothing delivered, and `bash` as startup command.
    pub fn new() -> (r: Self)
        ensures
            r.lines().len() == 0,
            r.input_text().len() == 0,
            r.command() == "bash"@,
            !r.is_attached(),
    {
        TerminalView {
            output: Vec::new(),
            input: String::new(),
            startup_command: String::from_str("bash"),
            attached: false,
        }
    }

    /// Whether a session has to be started before the view is shown.
    pub fn needs_spawn(&self) -> (r: bool)
        ensures
            r == !self.is_attached(),
    {
        !self.attached
    }

    /// The program and arguments that start the startup command under a shell.
    pub fn shell_command(&self) -> (r: (String, Vec<String>))
        ensures
            (r.0@, seq![r.1@[0]@, r.1@[1]@]) == shell_invocation(self.command()),
            r.1@.len() == 2,
    {
        let mut args: Vec<String> = Vec::new();
        args.push(String::from_str("-c"));
        args.push(self.startup_command.clone());
        (String::from_str("sh"), args)
    }

    /// Records that a session now serves the view.
    pub fn attach(&mut self)
        ensures
            final(self).is_attached(),
            final(self).lines() == old(self).lines(),
            final(self).command() == old(self).command(),
            final(self).input_text() == old(self).input_text(),
    {
        self.attached = true;
    }

    /// Drops the session and everything it delivered, so that the next frame
    /// starts a fresh one with the current startup command.
    pub fn reset(&mut self)
        ensures
            !final(self).is_attached(),
            final(self).lines().len() == 0,
            final(self).command() == old(self).command(),
            final(self).input_text() == old(self).input_text(),
    {
        self.attached = false;
        self.output.clear();
    }

    /// Changes the startup command; it takes effect at the next reset.
    pub fn set_startup_command(&mut self, command: String)
        ensures
            final(self).command() == command@,
            final(self).lines() == old(self).lines(),
            final(self).is_attached() == old(self).is_attached(),
            final(self).input_text() == old(self).input_text(),
    {
        self.startup_command = command;
    }

    /// Changes the input being typed.
    pub fn set_input(&mut self, input: String)
        ensures
            final(self).input_text() == input@,
            final(self).lines() == old(self).lines(),
            final(self).is_attached() == old(self).is_attached(),
            final(self).command() == old(self).command(),
    {
        self.input = input;
    }

    /// Appends a delivered unit and returns its plain text, for logging.
    pub fn receive(&mut self, line: OutputLine) -> (r: String)
        ensures
            final(self).lines() == old(self).lines().push(line),
            r@ == line_text(line),
            final(self).is_attached() == old(self).is_attached(),
            final(self).command() == old(self).command(),
            final(self).input_text() == old(self).input_text(),
    {
        let text = match &line {
            OutputLine::Styled(runs) => join_runs(runs),
            OutputLine::Stderr(t) => t.clone(),
        };
        self.output.push(line);
        text
    }

    /// Takes the typed input as the text to send to the child, and clears it.
    pub fn submit_input(&mut self) -> (r: String)
        ensures
            r@ == submitted_text(old(self).input_text()),
            final(self).input_text().len() == 0,
            final(self).lines() == old(self).lines(),
            final(self).is_attached() == old(self).is_attached(),
            final(self).command() == old(self).command(),
    {
        let t = trimmed(self.input.as_str());
        let r = if t.as_str().unicode_len() == 0 {
            String::from_str("\n")
        } else {
            let mut s = self.input.clone();
            s.append("\n");
            s
        };
        self.input = String::new();
        r
    }

    /// The delivered units, oldest first.
    pub fn output(&self) -> (r: &Vec<OutputLine>)
        ensures
            r@ == self.lines(),
    {
        &self.output
    }

    /// The startup command.
    pub fn startup_command(&self) -> (r: &str)
        ensures
            r@ == self.command(),
    {
        self.startup_command.as_str()
    }

    /// The input being typed.
    pub fn input(&self) -> (r: &str)
        ensures
            r@ == self.input_text(),
    {
        self.input.as_str()
    }
}

/// The texts of `runs`, joined in order.
fn join_runs(runs: &Vec<StyledText>) -> (r: String)
    ensures
        r@ == runs_text(runs@),
{
    let mut s = String::new();
    let mut i: usize = 0;
    while i < runs.len()
        invariant
            i <= runs@.len(),
            s@ == runs_text(runs@.subrange(0, i as int)),
        decreases runs@.len() - i,
    {
        assert(runs@.subrange(0, i + 1).drop_last() =~= runs@.subrange(0, i as int));
        s.append(runs[i].text.as_str());
        i += 1;
    }
    assert(runs@.subrange(0, i as int) =~= runs@);
    s
}

/// The single line that reports a failed start of a session.
pub fn spawn_failure(stage: SpawnStage, detail: &str, command: &str) -> (r: OutputLine)
    ensures
        r matches OutputLine::Stderr(t) && t@ == spawn_failure_text(stage, detail@, command@),
{
    let mut t = match stage {
        SpawnStage::OpenPty => String::from_str("Failed to create PTY: "),
        SpawnStage::SpawnChild => String::from_str("Failed to spawn process: "),
        SpawnStage::CloneReader => String::from_str("Failed to clone PTY reader: "),
        SpawnStage::TakeWriter => String::from_str("Failed to get PTY writer: "),
    };
    t.append(detail);
    match stage {
        SpawnStage::SpawnChild => {
            t.append("\nCommand was: sh -c '");
            t.append(command);
            t.append("'\n");
        },
        _ => {
            t.append("\n");
        },
    }
    OutputLine::Stderr(t)
}

} // verus!
