//! Logs: what is kept, what is dropped, and what is said of it.
use crate::diagnostics::{DiagnosticOutput, DiagnosticSender};
use crate::log::{self, OutputBuffer};
use crate::text;
use vstd::prelude::*;
use vstd::string::*;

verus! {

proof fn lemma_growth(blocks: Seq<Seq<char>>, s: Seq<char>)
    ensures
        blocks.len() <= log::with_text(blocks, s).len() <= blocks.len() + s.len(),
    decreases s.len(),
{
    if s.len() > 0 {
        lemma_growth(blocks, s.drop_last());
    }
}

/// While there is room, the log is what was appended to it, one text behind the other.
pub proof fn logs_keep_what_is_appended(
    buffer: &mut OutputBuffer,
    s: &str,
    before: String,
    later: &OutputBuffer,
    after: String,
    earlier: &OutputBuffer,
)
    requires
        *earlier == *old(buffer),
        call_ensures(OutputBuffer::as_text, (earlier, ), before),
        call_ensures(OutputBuffer::append, (buffer, s), ()),
        *later == *final(buffer),
        call_ensures(OutputBuffer::as_text, (later, ), after),
        old(buffer)@.len() + s@.len() <= 2000,
    ensures
        after@ == before@ + s@,
{
    lemma_growth(old(buffer)@, s@);
    log::the_log_keeps_what_was_appended(old(buffer)@, s@);
}

/// The log never has more than two thousand lines, and it is the oldest that go.
pub proof fn logs_lose_the_oldest(buffer: &mut OutputBuffer, s: &str)
    requires
        call_ensures(OutputBuffer::append, (buffer, s), ()),
    ensures
        final(buffer)@.len() <= 2000,
        ({
            let all = log::with_text(old(buffer)@, s@);
            all.len() > 2000 ==> final(buffer)@.len() == 2000 && forall|i: int|
                0 <= i < 2000 ==> #[trigger] final(buffer)@[i] == all[all.len() - 2000 + i]
        }),
{
}

/// A text without a line break goes on with a line that is open; after a line break a new one
/// begins.
pub proof fn lines_begin_after_a_break(blocks: Seq<Seq<char>>, c: char)
    ensures
        blocks.len() == 0 ==> log::with_char(blocks, c) == seq![seq![c]],
        blocks.len() > 0 && blocks.last().len() > 0 && blocks.last().last() == '\n'
            ==> log::with_char(blocks, c) == blocks.push(seq![c]),
        blocks.len() > 0 && blocks.last().len() > 0 && blocks.last().last() != '\n'
            ==> log::with_char(blocks, c).len() == blocks.len() && log::with_char(blocks, c).last()
            == blocks.last().push(c),
{
    if blocks.len() == 0 {
        assert(log::with_char(blocks, c) =~= seq![seq![c]]);
    }
}

/// A log that was cleared, and a new one, is empty.
pub proof fn cleared_logs_are_empty(buffer: &mut OutputBuffer, fresh: OutputBuffer)
    requires
        call_ensures(OutputBuffer::clear, (buffer, ), ()),
        call_ensures(OutputBuffer::new, (), fresh),
    ensures
        final(buffer)@.len() == 0,
        fresh@.len() == 0,
{
}

/// A diagnostic record of at most sixteen kilobytes waits behind the others, of which there are at
/// most two hundred and fifty-six; any other record is dropped and counted.
pub proof fn records_wait_or_count(sender: &mut DiagnosticSender, line: &str)
    requires
        call_ensures(DiagnosticSender::send, (sender, line), ()),
    ensures
        line.spec_bytes().len() <= 16384 && !old(sender)@.closed && old(sender)@.records.len() < 256
            ==> final(sender)@.records == old(sender)@.records.push(line@) && final(sender)@.dropped
            == old(sender)@.dropped,
        line.spec_bytes().len() > 16384 || old(sender)@.closed || old(sender)@.records.len() >= 256
            ==> final(sender)@.records == old(sender)@.records && (old(sender)@.dropped < u64::MAX
            ==> final(sender)@.dropped == old(sender)@.dropped + 1),
        final(sender)@.closed == old(sender)@.closed,
{
}

/// Records are written in order, and what was lost since the last one is told before it.
pub proof fn losses_are_told(sender: &mut DiagnosticSender, output: Option<DiagnosticOutput>)
    requires
        call_ensures(DiagnosticSender::take, (sender, ), output),
    ensures
        output is None <==> old(sender)@.records.len() == 0,
        output matches Some(o) ==> {
            &&& o.line@ == old(sender)@.records[0]
            &&& final(sender)@.records == old(sender)@.records.subrange(
                1,
                old(sender)@.records.len() as int,
            )
            &&& o.notice is None <==> old(sender)@.dropped == old(sender)@.reported
            &&& o.notice matches Some(notice) ==> (old(sender)@.dropped > old(sender)@.reported
                ==> notice@ == "wiilandd: diagnostics: dropped "@ + text::decimal(
                (old(sender)@.dropped - old(sender)@.reported) as nat,
            ) + " records"@)
            &&& final(sender)@.reported == old(sender)@.dropped
        },
{
}

/// A sender starts empty and open, and is closed by closing.
pub proof fn senders_are_closed(fresh: DiagnosticSender, sender: &mut DiagnosticSender)
    requires
        call_ensures(DiagnosticSender::new, (), fresh),
        call_ensures(DiagnosticSender::close, (sender, ), ()),
    ensures
        fresh@.records.len() == 0 && fresh@.dropped == 0 && fresh@.reported == 0 && !fresh@.closed,
        final(sender)@.closed && final(sender)@.records == old(sender)@.records,
{
}

/// A form's log is a log: it grows by what is appended, and is emptied by clearing.
pub proof fn forms_have_a_log(
    grown: &mut crate::model::ConfigModel,
    s: &str,
    cleared: &mut crate::model::ConfigModel,
    counted: &OutputBuffer,
    n: usize,
)
    requires
        call_ensures(crate::model::ConfigModel::append_output, (grown, s), ()),
        call_ensures(crate::model::ConfigModel::clear_output, (cleared, ), ()),
        call_ensures(OutputBuffer::block_count, (counted, ), n),
    ensures
        final(grown).output@.len() <= 2000,
        old(grown).output@.len() + s@.len() <= 2000 ==> final(grown).output@ == log::with_text(
            old(grown).output@,
            s@,
        ),
        final(grown).config == old(grown).config && final(grown).dirty == old(grown).dirty,
        final(cleared).output@.len() == 0,
        n == counted@.len(),
{
    lemma_growth(old(grown).output@, s@);
}

} // verus!
