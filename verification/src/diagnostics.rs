//! Bounded, best-effort diagnostic output: a full or closed queue loses records, and counts them.
use crate::text;
use std::collections::VecDeque;
use vstd::prelude::*;
use vstd::string::*;

verus! {

/// How many records may wait for the writer.
pub const QUEUE_RECORDS: usize = 256;

/// The most bytes that one record may hold.
pub const MAX_RECORD_BYTES: usize = 16384;

/// The records that wait for the writer.
pub struct DiagnosticSender {
    records: VecDeque<String>,
    dropped: u64,
    reported: u64,
    closed: bool,
}

/// The state of a diagnostic queue.
#[verifier::ext_equal]
pub struct DiagnosticView {
    /// The texts of the records that wait, oldest first.
    pub records: Seq<Seq<char>>,
    /// How many records were lost, modulo the counter's range.
    pub dropped: u64,
    /// How many of these the writer has told of.
    pub reported: u64,
    /// Whether the writer has ended.
    pub closed: bool,
}

/// The texts of a list of records.
pub open spec fn record_texts(records: Seq<String>) -> Seq<Seq<char>> {
    records.map_values(|record: String| record@)
}

impl View for DiagnosticSender {
    type V = DiagnosticView;

    closed spec fn view(&self) -> DiagnosticView {
        DiagnosticView {
            records: record_texts(self.records@),
            dropped: self.dropped,
            reported: self.reported,
            closed: self.closed,
        }
    }
}

/// Whether a queue takes a record.
pub open spec fn takes(view: DiagnosticView, line: &str) -> bool {
    line.spec_bytes().len() <= MAX_RECORD_BYTES && !view.closed && view.records.len()
        < QUEUE_RECORDS
}

/// What the writer writes: first how many records were lost since it last told, if any were.
#[derive(Debug)]
pub struct DiagnosticOutput {
    pub notice: Option<String>,
    pub line: String,
}

/// The notice of lost records.
pub open spec fn loss_notice(count: u64) -> Seq<char> {
    "wiilandd: diagnostics: dropped "@ + text::decimal(count as nat) + " records"@
}

impl DiagnosticSender {
    /// Whether no more records wait than may.
    pub open spec fn well_formed(self) -> bool {
        self@.records.len() <= QUEUE_RECORDS
    }

    /// An empty queue.
    pub fn new() -> (sender: DiagnosticSender)
        ensures
            sender.well_formed(),
            sender@ == (DiagnosticView {
                records: Seq::empty(),
                dropped: 0,
                reported: 0,
                closed: false,
            }),
    {
        let sender = DiagnosticSender {
            records: VecDeque::new(),
            dropped: 0,
            reported: 0,
            closed: false,
        };
        assert(sender@.records =~= Seq::empty());
        sender
    }

    /// Notes that the writer has ended.
    pub fn close(&mut self)
        requires
            old(self).well_formed(),
        ensures
            final(self).well_formed(),
            final(self)@ == (DiagnosticView { closed: true, ..old(self)@ }),
    {
        self.closed = true;
    }

    /// Hands a record to the writer, without waiting. A record that is too long, or for which there
    /// is no room or no writer, is counted as lost.
    pub fn send(&mut self, line: &str)
        requires
            old(self).well_formed(),
        ensures
            final(self).well_formed(),
            final(self)@ == (if takes(old(self)@, line) {
                DiagnosticView { records: old(self)@.records.push(line@), ..old(self)@ }
            } else {
                DiagnosticView { dropped: old(self)@.dropped.wrapping_add(1), ..old(self)@ }
            }),
    {
        let size: usize = line.as_bytes().len();
        if size > MAX_RECORD_BYTES || self.closed || self.records.len() >= QUEUE_RECORDS {
            self.dropped = self.dropped.wrapping_add(1);
        } else {
            let ghost before = self@.records;
            self.records.push_back(line.to_owned());
            assert(self@.records =~= before.push(line@));
        }
    }

    /// How many records were lost.
    pub fn dropped(&self) -> (n: u64)
        ensures
            n == self@.dropped,
    {
        self.dropped
    }

    /// How many records wait.
    pub fn len(&self) -> (n: usize)
        ensures
            n == self@.records.len(),
    {
        self.records.len()
    }

    /// What the writer writes next: the oldest record, preceded by a notice where records were lost
    /// that it has not told of.
    pub fn take(&mut self) -> (output: Option<DiagnosticOutput>)
        requires
            old(self).well_formed(),
        ensures
            final(self).well_formed(),
            if old(self)@.records.len() == 0 {
                output is None && final(self)@ == old(self)@
            } else {
                &&& final(self)@ == (DiagnosticView {
                    records: old(self)@.records.subrange(1, old(self)@.records.len() as int),
                    reported: old(self)@.dropped,
                    ..old(self)@
                })
                &&& output matches Some(o) && o.line@ == old(self)@.records[0] && (
                match o.notice {
                    Some(notice) => old(self)@.dropped != old(self)@.reported && notice@
                        == loss_notice(old(self)@.dropped.wrapping_sub(old(self)@.reported)),
                    None => old(self)@.dropped == old(self)@.reported,
                })
            },
    {
        let ghost before = self.records@;
        match self.records.pop_front() {
            None => None,
            Some(line) => {
                assert(record_texts(self.records@) =~= record_texts(before).subrange(
                    1,
                    before.len() as int,
                ));
                let notice = if self.dropped != self.reported {
                    let count: u64 = self.dropped.wrapping_sub(self.reported);
                    let mut notice = "wiilandd: diagnostics: dropped ".to_owned();
                    text::append_decimal(&mut notice, count);
                    notice.append(" records");
                    Some(notice)
                } else {
                    None
                };
                self.reported = self.dropped;
                Some(DiagnosticOutput { notice, line })
            },
        }
    }
}

/// Every record is either kept or counted as lost, never both and never neither.
pub proof fn every_record_is_kept_or_counted(view: DiagnosticView, line: &str)
    ensures
        ({
            let after = if takes(view, line) {
                DiagnosticView { records: view.records.push(line@), ..view }
            } else {
                DiagnosticView { dropped: view.dropped.wrapping_add(1), ..view }
            };
            (after.records.len() == view.records.len() + 1 && after.dropped == view.dropped) || (
            after.records == view.records && after.dropped != view.dropped)
        }),
{
}

} // verus!
