//! Processes: what they are started with, what they tell, and how the service is asked.
use crate::process::{self, ProcessEvent, ProcessResult, ProcessTask, ServiceAction};
use crate::session::TryRecvError;
use crate::text;
use vstd::prelude::*;
use vstd::string::*;

verus! {

/// Whether a list of arguments is so written.
pub open spec fn are_written(args: Seq<String>, texts: Seq<Seq<char>>) -> bool {
    args.len() == texts.len() && forall|i: int|
        0 <= i < args.len() ==> (#[trigger] args[i])@ == texts[i]
}

proof fn lemma_written(args: Seq<String>, texts: Seq<Seq<char>>)
    ensures
        process::argument_texts(args) == texts <==> are_written(args, texts),
{
    let all = process::argument_texts(args);
    assert(all.len() == args.len());
    assert(forall|i: int| 0 <= i < args.len() ==> #[trigger] all[i] == args[i]@);
    if are_written(args, texts) {
        assert(all =~= texts);
    }
}

/// A process is started with the program and the arguments as they were given; it captures what it
/// prints only where that was asked for.
pub proof fn processes_start_as_asked(
    program: String,
    args: Vec<String>,
    plain: ProcessTask,
    capturing: ProcessTask,
    texts: Seq<Seq<char>>,
)
    requires
        call_ensures(ProcessTask::spawn, (program, args), plain),
        call_ensures(ProcessTask::spawn_capturing_stdout, (program, args), capturing),
        are_written(args@, texts),
    ensures
        plain.program@ == program@ && capturing.program@ == program@,
        are_written(plain.args@, texts) && are_written(capturing.args@, texts),
        !plain.captures && capturing.captures,
        plain.events@.len() == 0 && capturing.events@.len() == 0,
        !plain.terminated && !capturing.terminated,
{
    lemma_written(args@, texts);
    lemma_written(plain.args@, texts);
    lemma_written(capturing.args@, texts);
}

/// What a process sent is received in order.
pub proof fn process_events_come_in_order(
    task: &mut ProcessTask,
    event: ProcessEvent,
    later: &mut ProcessTask,
    received: Result<Option<ProcessEvent>, TryRecvError>,
)
    requires
        call_ensures(ProcessTask::send, (task, event), ()),
        *old(later) == *final(task),
        call_ensures(ProcessTask::try_recv, (later, ), received),
    ensures
        old(task).events@.len() == 0 ==> received == Ok::<Option<ProcessEvent>, TryRecvError>(
            Some(event),
        ) && final(later).events@.len() == 0,
        old(task).events@.len() > 0 ==> received == Ok::<Option<ProcessEvent>, TryRecvError>(
            Some(old(task).events@[0]),
        ) && final(later).events@.last() == event,
{
}

/// Where nothing waits there is nothing yet, or nothing more where the process is lost.
pub proof fn silent_processes_tell_nothing(
    task: &mut ProcessTask,
    received: Result<Option<ProcessEvent>, TryRecvError>,
)
    requires
        call_ensures(ProcessTask::try_recv, (task, ), received),
        old(task).events@.len() == 0,
    ensures
        old(task).lost ==> received == Err::<Option<ProcessEvent>, TryRecvError>(
            TryRecvError::Disconnected,
        ),
        !old(task).lost ==> received == Ok::<Option<ProcessEvent>, TryRecvError>(None),
{
}

/// A process that was terminated is marked so, and changes in nothing else.
pub proof fn terminated_processes_are_marked(task: &mut ProcessTask)
    requires
        call_ensures(ProcessTask::terminate, (task, ), ()),
    ensures
        final(task).terminated,
        final(task).events@ == old(task).events@,
        final(task).program == old(task).program,
{
}

/// The results that are made here: a success with what was printed, and a failure with a reason.
pub proof fn results_are_made(
    stdout: Vec<u8>,
    reason: &str,
    good: ProcessResult,
    bad: ProcessResult,
)
    requires
        call_ensures(ProcessResult::output, (stdout, ), good),
        call_ensures(ProcessResult::unavailable, (reason, ), bad),
    ensures
        good.success && good.code == Some(0i32) && good.stdout@ == stdout@ && good.stderr@.len()
            == 0
            && good.error is None,
        !bad.success && bad.code is None && bad.stdout@.len() == 0 && (bad.error matches Some(e)
            && e@ == reason@),
{
    assert(good@.stdout == good.stdout@);
    assert(bad@.error == crate::session::optional_string(bad.error));
}

/// A file that is not the usual one is named to the daemon; the usual one is not.
pub proof fn unusual_files_are_named(
    target: &str,
    usual: Option<&str>,
    args: Vec<String>,
    all: Vec<String>,
)
    requires
        call_ensures(process::configured_args, (target, usual, args), all),
    ensures
        target@.len() == 0 || (usual matches Some(path) && path@ == target@) ==> all@.len()
            == args@.len(),
        target@.len() > 0 && (usual is None || usual->0@ != target@) ==> all@.len() == args@.len()
            + 2 && all@[args@.len() as int]@ == "--config"@ && all@[args@.len() as int + 1]@
                == target@,
        forall|i: int| 0 <= i < args@.len() ==> (#[trigger] all@[i])@ == args@[i]@,
{
    let before = process::argument_texts(args@);
    let after = process::argument_texts(all@);
    assert(after.len() == all@.len());
    assert(before.len() == args@.len());
    assert forall|i: int| 0 <= i < args@.len() implies (#[trigger] all@[i])@ == args@[i]@ by {
        assert(after[i] == all@[i]@);
        assert(before[i] == args@[i]@);
        assert(after[i] == before[i]);
    }
    if target@.len() > 0 && (usual is None || usual->0@ != target@) {
        assert(after[args@.len() as int] == all@[args@.len() as int]@);
        assert(after[args@.len() as int + 1] == all@[args@.len() as int + 1]@);
    }
}

/// The service is asked for by these words.
pub proof fn the_service_is_asked(action: ServiceAction, args: Vec<String>)
    requires
        call_ensures(process::service_args, (action, ), args),
    ensures
        args@.len() == 3,
        args@[0]@ == "--user"@,
        args@[2]@ == "wiilandd.service"@,
        action is IsActive ==> args@[1]@ == "is-active"@,
        action is Start ==> args@[1]@ == "start"@,
        action is Stop ==> args@[1]@ == "stop"@,
        action is Restart ==> args@[1]@ == "restart"@,
{
    let texts = process::argument_texts(args@);
    assert(texts.len() == args@.len());
    assert(texts[0] == args@[0]@);
    assert(texts[1] == args@[1]@);
    assert(texts[2] == args@[2]@);
}

/// What the service manager prints, with how it ended, is the state that is shown.
pub proof fn the_service_state_is_shown(
    result: &ProcessResult,
    word: Seq<char>,
    status: &'static str,
)
    requires
        call_ensures(process::service_query_status, (result, ), status),
        text::decoded(result.stdout@) matches Some(t) && text::trimmed(t) == word,
    ensures
        word == "active"@ && result.success ==> status@ == "Running"@,
        word == "inactive"@ && result.code == Some(3i32) ==> status@ == "Stopped"@,
        word == "failed"@ && result.code == Some(3i32) ==> status@ == "Failed"@,
        word == "activating"@ ==> status@ == "Starting"@,
        word == "deactivating"@ ==> status@ == "Stopping"@,
        word == "active"@ && !result.success ==> status@ == "Unavailable"@,
        word.len() == 0 ==> status@ == "Unavailable"@,
{
    reveal_strlit("active");
    reveal_strlit("inactive");
    reveal_strlit("failed");
    reveal_strlit("activating");
    reveal_strlit("deactivating");
    assert("active"@.len() == 6 && "active"@[0] == 'a');
    assert("inactive"@.len() == 8);
    assert("failed"@.len() == 6 && "failed"@[0] == 'f');
    assert("activating"@.len() == 10);
    assert("deactivating"@.len() == 12);
}

/// What cannot be read is no state.
pub proof fn unreadable_states_are_unavailable(result: &ProcessResult, status: &'static str)
    requires
        call_ensures(process::service_query_status, (result, ), status),
        text::decoded(result.stdout@) is None,
    ensures
        status@ == "Unavailable"@,
{
}

/// A command is shown behind a prompt, its words apart, those with spaces in quotes.
pub proof fn commands_are_shown(
    program: &str,
    args: &Vec<String>,
    line: String,
    first: Seq<char>,
    second: Seq<char>,
)
    requires
        call_ensures(process::format_command, (program, args), line),
        are_written(args@, seq![first, second]),
        forall|i: int| 0 <= i < first.len() ==> !text::is_space(#[trigger] first[i]),
        forall|i: int|
            0 <= i < second.len() ==> #[trigger] second[i] != '\'',
        exists|i: int| 0 <= i < second.len() && text::is_space(#[trigger] second[i]),
    ensures
        line@ == "$ "@ + program@ + " "@ + first + " "@ + "'"@ + second + "'"@ + "\n"@,
{
    lemma_written(args@, seq![first, second]);
    let texts = process::argument_texts(args@);
    lemma_unescaped(second);
    reveal_with_fuel(process::shell_words, 3);
    assert(process::shell_word(first) == first);
    assert(process::shell_word(second) == "'"@ + second + "'"@);
    assert(process::shell_words(texts, 2) == first + " "@ + ("'"@ + second + "'"@));
    assert(line@ =~= "$ "@ + program@ + " "@ + first + " "@ + "'"@ + second + "'"@ + "\n"@);
}

proof fn lemma_unescaped(s: Seq<char>)
    requires
        forall|i: int| 0 <= i < s.len() ==> #[trigger] s[i] != '\'',
    ensures
        process::escaped(s) == s,
    decreases s.len(),
{
    if s.len() > 0 {
        let front = s.drop_last();
        assert forall|i: int| 0 <= i < front.len() implies #[trigger] front[i] != '\'' by {
            assert(front[i] == s[i]);
        }
        lemma_unescaped(front);
        assert(s[s.len() - 1] != '\'');
        assert(front.push(s.last()) =~= s);
    }
}

/// What a process printed is shown, and its end is given once; without an end there is none yet.
pub proof fn process_ends_are_given(
    task: &mut ProcessTask,
    form: &mut crate::model::ConfigModel,
    end: ProcessResult,
    result: Option<ProcessResult>,
)
    requires
        call_ensures(process::poll_process, (task, form), result),
    ensures
        old(task).events@ == seq![ProcessEvent::Finished(end)] ==> (result matches Some(r) && r@
            == end@) && final(task).events@.len() == 0,
        old(task).events@.len() == 0 && !old(task).lost ==> result is None,
        old(task).events@.len() == 0 && old(task).lost ==> (result matches Some(r) && !r.success),
        final(form).config == old(form).config && final(form).dirty == old(form).dirty,
{
    reveal_with_fuel(process::first_end, 2);
    reveal_with_fuel(process::after_end, 2);
}

} // verus!
