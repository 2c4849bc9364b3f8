//! Commands that the control center runs, and what their results mean.
use crate::log;
use crate::model::ConfigModel;
use crate::session;
use crate::session::TryRecvError;
use crate::text;
use std::collections::VecDeque;
use vstd::prelude::*;
use vstd::string::*;

verus! {

/// How a command ended.
#[derive(Debug)]
pub struct ProcessResult {
    pub success: bool,
    pub code: Option<i32>,
    pub stdout: Vec<u8>,
    pub stderr: Vec<u8>,
    pub error: Option<String>,
}

/// How a command ended.
#[verifier::ext_equal]
pub struct End {
    pub success: bool,
    pub code: Option<i32>,
    pub stdout: Seq<u8>,
    pub stderr: Seq<u8>,
    pub error: Option<Seq<char>>,
}

impl End {
    /// No end, for this reason.
    pub open spec fn unavailable(reason: Seq<char>) -> End {
        End {
            success: false,
            code: None,
            stdout: Seq::empty(),
            stderr: Seq::empty(),
            error: Some(reason),
        }
    }

    /// A success with this output.
    pub open spec fn output(stdout: Seq<u8>) -> End {
        End { success: true, code: Some(0), stdout, stderr: Seq::empty(), error: None }
    }
}

impl View for ProcessResult {
    type V = End;

    open spec fn view(&self) -> End {
        End {
            success: self.success,
            code: self.code,
            stdout: self.stdout@,
            stderr: self.stderr@,
            error: session::optional_string(self.error),
        }
    }
}

/// The view of a result.
pub open spec fn end_of(result: Option<ProcessResult>) -> Option<End> {
    match result {
        Some(result) => Some(result@),
        None => None,
    }
}

impl ProcessResult {
    /// A success with this output.
    pub fn output(stdout: Vec<u8>) -> (result: ProcessResult)
        ensures
            result@ == End::output(stdout@),
    {
        ProcessResult { success: true, code: Some(0), stdout, stderr: Vec::new(), error: None }
    }

    /// A result that says that there is none.
    pub fn unavailable(reason: &str) -> (result: ProcessResult)
        ensures
            result@ == End::unavailable(reason@),
    {
        ProcessResult {
            success: false,
            code: None,
            stdout: Vec::new(),
            stderr: Vec::new(),
            error: Some(reason.to_owned()),
        }
    }
}

/// What a command that runs reports.
#[derive(Debug)]
pub enum ProcessEvent {
    Stdout(Vec<u8>),
    Stderr(Vec<u8>),
    Finished(ProcessResult),
}

/// A command that runs, and what it has reported.
pub struct ProcessTask {
    pub program: String,
    pub args: Vec<String>,
    /// Whether the result holds what the command wrote.
    pub captures: bool,
    /// The reports that nobody has received, oldest first.
    pub events: VecDeque<ProcessEvent>,
    /// Whether the command was asked to end.
    pub terminated: bool,
    /// Whether nothing will be reported any more.
    pub lost: bool,
}

impl ProcessTask {
    /// Whether a task is a fresh one for a command.
    pub open spec fn runs(self, program: Seq<char>, args: Seq<Seq<char>>, captures: bool) -> bool {
        &&& self.program@ == program
        &&& argument_texts(self.args@) == args
        &&& self.captures == captures
        &&& self.events@ == Seq::<ProcessEvent>::empty()
        &&& !self.terminated
        &&& !self.lost
    }

    fn start(program: String, args: Vec<String>, captures: bool) -> (task: ProcessTask)
        ensures
            task.runs(program@, argument_texts(args@), captures),
    {
        ProcessTask {
            program,
            args,
            captures,
            events: VecDeque::new(),
            terminated: false,
            lost: false,
        }
    }

    /// The task of a command whose output is only shown.
    pub fn spawn(program: String, args: Vec<String>) -> (task: ProcessTask)
        ensures
            task.runs(program@, argument_texts(args@), false),
    {
        ProcessTask::start(program, args, false)
    }

    /// The task of a command whose output is shown and kept.
    pub fn spawn_capturing_stdout(program: String, args: Vec<String>) -> (task: ProcessTask)
        ensures
            task.runs(program@, argument_texts(args@), true),
    {
        ProcessTask::start(program, args, true)
    }

    /// Asks the command to end.
    pub fn terminate(&mut self)
        ensures
            *final(self) == (ProcessTask { terminated: true, ..*old(self) }),
    {
        self.terminated = true;
    }

    /// Notes a report.
    pub fn send(&mut self, event: ProcessEvent)
        ensures
            *final(self) == (ProcessTask { events: final(self).events, ..*old(self) }),
            final(self).events@ == old(self).events@.push(event),
    {
        self.events.push_back(event);
    }

    /// Receives the oldest report, if there is one.
    pub fn try_recv(&mut self) -> (result: Result<Option<ProcessEvent>, TryRecvError>)
        ensures
            *final(self) == (ProcessTask { events: final(self).events, ..*old(self) }),
            if old(self).events@.len() > 0 {
                &&& result == Ok::<Option<ProcessEvent>, TryRecvError>(
                    Some(old(self).events@[0]),
                )
                &&& final(self).events@ == old(self).events@.subrange(
                    1,
                    old(self).events@.len() as int,
                )
            } else {
                &&& *final(self) == *old(self)
                &&& result == (if old(self).lost {
                    Err::<Option<ProcessEvent>, TryRecvError>(TryRecvError::Disconnected)
                } else {
                    Ok(None)
                })
            },
    {
        if self.events.len() == 0 {
            if self.lost {
                return Err(TryRecvError::Disconnected);
            }
            return Ok(None);
        }
        Ok(self.events.pop_front())
    }
}

/// The log after the reports before the first end.
pub open spec fn process_log(blocks: Seq<Seq<char>>, events: Seq<ProcessEvent>) -> Seq<Seq<char>>
    decreases events.len(),
{
    if events.len() == 0 {
        blocks
    } else {
        match events[0] {
            ProcessEvent::Stdout(bytes) | ProcessEvent::Stderr(bytes) => process_log(
                log::recent(log::with_text(blocks, text::lossy(bytes@))),
                events.subrange(1, events.len() as int),
            ),
            ProcessEvent::Finished(_) => blocks,
        }
    }
}

/// The first end among reports.
pub open spec fn first_end(events: Seq<ProcessEvent>) -> Option<ProcessResult>
    decreases events.len(),
{
    if events.len() == 0 {
        None
    } else {
        match events[0] {
            ProcessEvent::Finished(result) => Some(result),
            _ => first_end(events.subrange(1, events.len() as int)),
        }
    }
}

/// The reports after the first end.
pub open spec fn after_end(events: Seq<ProcessEvent>) -> Seq<ProcessEvent>
    decreases events.len(),
{
    if events.len() == 0 {
        events
    } else {
        let later = events.subrange(1, events.len() as int);
        match events[0] {
            ProcessEvent::Finished(_) => later,
            _ => after_end(later),
        }
    }
}

/// How a task ends, as far as it has reported: its end, or that it will have none.
pub open spec fn task_end(events: Seq<ProcessEvent>, lost: bool) -> Option<End> {
    match first_end(events) {
        Some(end) => Some(end@),
        None => if lost {
            Some(End::unavailable("process result channel closed"@))
        } else {
            None
        },
    }
}

/// Shows what a command wrote since the last time, and gives its end once it has come.
pub fn poll_process(task: &mut ProcessTask, model: &mut ConfigModel) -> (result: Option<
    ProcessResult,
>)
    requires
        old(model).well_formed(),
    ensures
        final(model).well_formed(),
        *final(model) == (ConfigModel { output: final(model).output, ..*old(model) }),
        final(model).output@ == process_log(old(model).output@, old(task).events@),
        end_of(result) == task_end(old(task).events@, old(task).lost),
        *final(task) == (ProcessTask { events: final(task).events, ..*old(task) }),
        final(task).events@ == after_end(old(task).events@),
        result is None ==> final(task).events@.len() == 0,
{
    loop
        invariant
            model.well_formed(),
            *model == (ConfigModel { output: model.output, ..*old(model) }),
            process_log(model.output@, task.events@) == process_log(
                old(model).output@,
                old(task).events@,
            ),
            first_end(task.events@) == first_end(old(task).events@),
            after_end(task.events@) == after_end(old(task).events@),
            *task == (ProcessTask { events: task.events, ..*old(task) }),
        decreases task.events@.len(),
    {
        match task.try_recv() {
            Ok(Some(event)) => match event {
                ProcessEvent::Stdout(bytes) => {
                    let shown = text::decode_lossy(bytes.as_slice());
                    model.append_output(shown.as_str());
                },
                ProcessEvent::Stderr(bytes) => {
                    let shown = text::decode_lossy(bytes.as_slice());
                    model.append_output(shown.as_str());
                },
                ProcessEvent::Finished(result) => {
                    return Some(result);
                },
            },
            Ok(None) => {
                return None;
            },
            Err(_) => {
                return Some(ProcessResult::unavailable("process result channel closed"));
            },
        }
    }
}

/// The texts of a list of arguments.
pub open spec fn argument_texts(args: Seq<String>) -> Seq<Seq<char>> {
    args.map_values(|arg: String| arg@)
}

/// Arguments with the file that the service does not load by itself.
pub open spec fn with_target(
    target: Seq<char>,
    default_path: Option<Seq<char>>,
    args: Seq<Seq<char>>,
) -> Seq<Seq<char>> {
    if target.len() == 0 || default_path == Some(target) {
        args
    } else {
        args.push("--config"@).push(target)
    }
}

/// The arguments of a daemon command: for a file that the service does not load by itself, the file
/// is named.
pub fn configured_args(target: &str, default_path: Option<&str>, args: Vec<String>) -> (all: Vec<
    String,
>)
    ensures
        argument_texts(all@) == with_target(
            target@,
            crate::config::optional_text(default_path),
            argument_texts(args@),
        ),
{
    let mut all = args;
    let known = match default_path {
        Some(path) => text::same_text(path, target),
        None => false,
    };
    if !target.is_empty() && !known {
        let ghost before = all@;
        all.push("--config".to_owned());
        all.push(target.to_owned());
        assert(argument_texts(all@) =~= argument_texts(before).push("--config"@).push(target@));
    }
    all
}

/// An action on the background service.
#[derive(Clone, Copy, Debug, PartialEq, Eq, Structural, Hash)]
pub enum ServiceAction {
    IsActive,
    Start,
    Stop,
    Restart,
}

impl ServiceAction {
    /// The name of an action.
    pub open spec fn name(self) -> Seq<char> {
        match self {
            ServiceAction::IsActive => "is-active"@,
            ServiceAction::Start => "start"@,
            ServiceAction::Stop => "stop"@,
            ServiceAction::Restart => "restart"@,
        }
    }

    /// The name of an action with a capital letter.
    pub open spec fn title(self) -> Seq<char> {
        match self {
            ServiceAction::IsActive => "Is-active"@,
            ServiceAction::Start => "Start"@,
            ServiceAction::Stop => "Stop"@,
            ServiceAction::Restart => "Restart"@,
        }
    }

    /// The name of the action.
    pub fn as_str(self) -> (name: &'static str)
        ensures
            name@ == self.name(),
    {
        match self {
            ServiceAction::IsActive => "is-active",
            ServiceAction::Start => "start",
            ServiceAction::Stop => "stop",
            ServiceAction::Restart => "restart",
        }
    }

    /// The name of the action with a capital letter.
    pub fn capitalize(self) -> (name: &'static str)
        ensures
            name@ == self.title(),
    {
        match self {
            ServiceAction::IsActive => "Is-active",
            ServiceAction::Start => "Start",
            ServiceAction::Stop => "Stop",
            ServiceAction::Restart => "Restart",
        }
    }
}

/// The arguments of an action on the background service.
pub open spec fn service_texts(action: ServiceAction) -> Seq<Seq<char>> {
    seq!["--user"@, action.name(), "wiilandd.service"@]
}

/// The arguments of an action on the background service.
pub fn service_args(action: ServiceAction) -> (args: Vec<String>)
    ensures
        argument_texts(args@) == service_texts(action),
{
    let mut args: Vec<String> = Vec::new();
    args.push("--user".to_owned());
    args.push(action.as_str().to_owned());
    args.push("wiilandd.service".to_owned());
    assert(argument_texts(args@) =~= seq!["--user"@, action.name(), "wiilandd.service"@]);
    args
}

/// Whether a text holds whitespace.
pub open spec fn has_space(s: Seq<char>) -> bool {
    exists|i: int| 0 <= i < s.len() && text::is_space(#[trigger] s[i])
}

/// A text with each quote written so that a shell reads it inside quotes.
pub open spec fn escaped(s: Seq<char>) -> Seq<char>
    decreases s.len(),
{
    if s.len() == 0 {
        Seq::empty()
    } else if s.last() == '\'' {
        escaped(s.drop_last()) + "'\\''"@
    } else {
        escaped(s.drop_last()).push(s.last())
    }
}

/// An argument as a shell would be given it.
pub open spec fn shell_word(arg: Seq<char>) -> Seq<char> {
    if has_space(arg) {
        "'"@ + escaped(arg) + "'"@
    } else {
        arg
    }
}

/// The first `n` arguments as a shell would be given them.
pub open spec fn shell_words(args: Seq<Seq<char>>, n: nat) -> Seq<char>
    decreases n,
{
    if n == 0 {
        Seq::empty()
    } else if n == 1 {
        shell_word(args[0])
    } else {
        shell_words(args, (n - 1) as nat) + " "@ + shell_word(args[n - 1])
    }
}

fn append_escaped(out: &mut String, arg: &str)
    ensures
        final(out)@ == old(out)@ + escaped(arg@),
{
    let chars = text::chars_of(arg);
    let ghost t = arg@;
    let mut i: usize = 0;
    proof {
        assert(t.subrange(0, 0) =~= Seq::empty());
        assert(out@ + Seq::<char>::empty() =~= out@);
    }
    while i < chars.len()
        invariant
            i <= chars.len(),
            chars@ == t,
            t == arg@,
            out@ == old(out)@ + escaped(t.subrange(0, i as int)),
        decreases chars.len() - i,
    {
        let ghost seen = t.subrange(0, i + 1);
        proof {
            assert(seen.drop_last() =~= t.subrange(0, i as int));
            assert(seen.last() == t[i as int]);
        }
        if chars[i] == '\'' {
            out.append("'\\''");
        } else {
            let one = arg.substring_char(i, i + 1);
            out.append(one);
            assert(one@ =~= seq![t[i as int]]);
        }
        i = i + 1;
        assert(out@ =~= old(out)@ + escaped(t.subrange(0, i as int)));
    }
    assert(t.subrange(0, i as int) =~= t);
}

fn append_word(out: &mut String, arg: &str)
    ensures
        final(out)@ == old(out)@ + shell_word(arg@),
{
    let chars = text::chars_of(arg);
    let mut i: usize = 0;
    let mut spaced = false;
    while i < chars.len() && !spaced
        invariant
            i <= chars.len(),
            chars@ == arg@,
            spaced ==> has_space(arg@),
            !spaced ==> forall|k: int| 0 <= k < i ==> !text::is_space(#[trigger] arg@[k]),
        decreases chars.len() - i,
    {
        if text::is_whitespace(chars[i]) {
            assert(text::is_space(arg@[i as int]));
            spaced = true;
        }
        i = i + 1;
    }
    if spaced {
        out.append("'");
        append_escaped(out, arg);
        out.append("'");
    } else {
        out.append(arg);
    }
    assert(out@ =~= old(out)@ + shell_word(arg@));
}

/// The arguments as a shell would be given them.
pub fn shell_args(args: &Vec<String>) -> (line: String)
    ensures
        line@ == shell_words(argument_texts(args@), args@.len()),
{
    let mut out = String::new();
    let mut i: usize = 0;
    let ghost all = argument_texts(args@);
    assert(out@ =~= shell_words(all, 0));
    while i < args.len()
        invariant
            i <= args.len(),
            all == argument_texts(args@),
            out@ == shell_words(all, i as nat),
        decreases args.len() - i,
    {
        if i > 0 {
            out.append(" ");
        }
        append_word(&mut out, args[i].as_str());
        assert(all[i as int] == args@[i as int]@);
        i = i + 1;
        assert(out@ =~= shell_words(all, i as nat));
    }
    out
}

/// The log line of a command.
pub open spec fn command_line(program: Seq<char>, args: Seq<Seq<char>>) -> Seq<char> {
    "$ "@ + program + " "@ + shell_words(args, args.len()) + "\n"@
}

/// The log line of a command.
pub fn format_command(program: &str, args: &Vec<String>) -> (line: String)
    ensures
        line@ == command_line(program@, argument_texts(args@)),
{
    let mut line = "$ ".to_owned();
    line.append(program);
    line.append(" ");
    let words = shell_args(args);
    line.append(words.as_str());
    line.append("\n");
    assert(line@ =~= command_line(program@, argument_texts(args@)));
    line
}

/// What the answer of the service manager means.
pub open spec fn service_state(end: End) -> Seq<char> {
    match text::decoded(end.stdout) {
        None => "Unavailable"@,
        Some(t) => {
            let word = text::trimmed(t);
            if word == "active"@ && end.success {
                "Running"@
            } else if word == "inactive"@ && end.code == Some(3i32) {
                "Stopped"@
            } else if word == "failed"@ && end.code == Some(3i32) {
                "Failed"@
            } else if word == "activating"@ {
                "Starting"@
            } else if word == "deactivating"@ {
                "Stopping"@
            } else {
                "Unavailable"@
            }
        },
    }
}

/// What the answer of the service manager means.
pub fn service_query_status(result: &ProcessResult) -> (status: &'static str)
    ensures
        status@ == service_state(result@),
{
    let answer = match text::decode(result.stdout.as_slice()) {
        Some(answer) => text::trim(answer),
        None => {
            return "Unavailable";
        },
    };
    let inactive = match result.code {
        Some(code) => code == 3,
        None => false,
    };
    if text::same_text(answer, "active") && result.success {
        "Running"
    } else if text::same_text(answer, "inactive") && inactive {
        "Stopped"
    } else if text::same_text(answer, "failed") && inactive {
        "Failed"
    } else if text::same_text(answer, "activating") {
        "Starting"
    } else if text::same_text(answer, "deactivating") {
        "Stopping"
    } else {
        "Unavailable"
    }
}

/// The text of an exit code.
pub open spec fn exit_text(code: Option<i32>) -> Seq<char> {
    match code {
        Some(code) => "Some("@ + text::signed_decimal(code as int) + ")"@,
        None => "None"@,
    }
}

/// Appends the text of an exit code.
pub fn append_exit(out: &mut String, code: Option<i32>)
    ensures
        final(out)@ == old(out)@ + exit_text(code),
{
    match code {
        Some(code) => {
            out.append("Some(");
            text::append_signed(out, code as i64);
            out.append(")");
        },
        None => out.append("None"),
    }
    assert(out@ =~= old(out)@ + exit_text(code));
}

} // verus!
