//! What a stop request did: every playback it took out of the registry, with
//! the outcome of the stop signal that was sent to it.

use crate::model::PlaybackId;
use vstd::prelude::*;

verus! {

/// What came of signalling one track to stop.
#[derive(Clone, Copy, Debug, PartialEq, Eq, Structural)]
pub enum SignalOutcome {
    /// The track took the signal.
    Stopped,
    /// The track had already ended when the signal arrived. This counts as
    /// stopped: there is nothing left to stop.
    AlreadyEnded,
    /// The signal could not be delivered.
    Failed,
}

/// Why a stop signal did not reach its track.
#[derive(Clone, Copy, Debug, PartialEq, Eq, Structural)]
pub enum SignalError {
    /// The track has ended.
    Finished,
    /// Any other failure of the transport.
    Other,
}

impl SignalOutcome {
    /// What to make of the answer to a stop signal. Signalling a track that
    /// has already ended is no failure.
    pub fn from_result(answer: Result<(), SignalError>) -> (outcome: Self)
        ensures
            outcome == match answer {
                Ok(_) => SignalOutcome::Stopped,
                Err(SignalError::Finished) => SignalOutcome::AlreadyEnded,
                Err(SignalError::Other) => SignalOutcome::Failed,
            },
    {
        match answer {
            Ok(_) => SignalOutcome::Stopped,
            Err(SignalError::Finished) => SignalOutcome::AlreadyEnded,
            Err(SignalError::Other) => SignalOutcome::Failed,
        }
    }

    /// Whether the track is known not to play any more.
    pub open spec fn settled(self) -> bool {
        self != SignalOutcome::Failed
    }

    /// Whether the track is known not to play any more.
    pub fn is_settled(&self) -> (settled: bool)
        ensures
            settled == self.settled(),
    {
        match self {
            SignalOutcome::Stopped => true,
            SignalOutcome::AlreadyEnded => true,
            SignalOutcome::Failed => false,
        }
    }
}

/// One line of a report: a history record and what came of its stop signal.
pub type Signalled = (PlaybackId, SignalOutcome);

/// The history records of all lines, in order.
pub open spec fn all_ids(lines: Seq<Signalled>) -> Seq<PlaybackId> {
    lines.map_values(|line: Signalled| line.0)
}

/// The history records of the lines whose track is settled, in order.
pub open spec fn settled_ids(lines: Seq<Signalled>) -> Seq<PlaybackId> {
    all_ids(lines.filter(|line: Signalled| line.1.settled()))
}

/// The history records of the lines whose signal failed, in order.
pub open spec fn failed_ids(lines: Seq<Signalled>) -> Seq<PlaybackId> {
    all_ids(lines.filter(|line: Signalled| !line.1.settled()))
}

/// Filtering the first `upto + 1` lines is filtering the first `upto` and
/// then deciding on the line at `upto`.
proof fn lemma_filter_step(lines: Seq<Signalled>, keep: spec_fn(Signalled) -> bool, upto: int)
    requires
        0 <= upto < lines.len(),
    ensures
        lines.take(upto + 1).filter(keep) == if keep(lines[upto]) {
            lines.take(upto).filter(keep).push(lines[upto])
        } else {
            lines.take(upto).filter(keep)
        },
{
    reveal(Seq::filter);
    assert(lines.take(upto + 1).drop_last() =~= lines.take(upto));
}

/// Every line of a report is counted once: a record is among the settled
/// and the failed together as often as the report holds it.
pub proof fn lemma_report_is_split(lines: Seq<Signalled>)
    ensures
        settled_ids(lines).len() + failed_ids(lines).len() == lines.len(),
        settled_ids(lines).to_multiset().add(failed_ids(lines).to_multiset()) == all_ids(
            lines,
        ).to_multiset(),
    decreases lines.len(),
{
    let settled = |line: Signalled| line.1.settled();
    let failed = |line: Signalled| !line.1.settled();
    if lines.len() == 0 {
        reveal(Seq::filter);
        assert(all_ids(lines) =~= Seq::<PlaybackId>::empty());
        let nothing = Seq::<PlaybackId>::empty().to_multiset();
        assert(nothing =~= vstd::multiset::Multiset::<PlaybackId>::empty()) by {
            Seq::<PlaybackId>::empty().to_multiset_ensures();
            vstd::multiset::lemma_multiset_empty_len(nothing);
        }
    } else {
        let earlier = lines.drop_last();
        let last = lines.last();
        lemma_report_is_split(earlier);
        assert(lines.take(lines.len() as int) =~= lines);
        lemma_filter_step(lines, settled, lines.len() - 1);
        lemma_filter_step(lines, failed, lines.len() - 1);
        assert(all_ids(lines) =~= all_ids(earlier).push(last.0));
        vstd::seq_lib::to_multiset_build(all_ids(earlier), last.0);
        if last.1.settled() {
            assert(settled_ids(lines) =~= settled_ids(earlier).push(last.0));
            vstd::seq_lib::to_multiset_build(settled_ids(earlier), last.0);
        } else {
            assert(failed_ids(lines) =~= failed_ids(earlier).push(last.0));
            vstd::seq_lib::to_multiset_build(failed_ids(earlier), last.0);
        }
    }
}

/// The outcome of one stop request, one line per playback that it removed
/// from the registry, oldest first.
#[derive(Debug)]
pub struct StopReport {
    lines: Vec<Signalled>,
}

impl View for StopReport {
    type V = Seq<Signalled>;

    closed spec fn view(&self) -> Seq<Signalled> {
        self.lines@
    }
}

impl StopReport {
    /// A report without lines.
    pub fn new() -> (report: Self)
        ensures
            report@ == Seq::<Signalled>::empty(),
    {
        StopReport { lines: Vec::new() }
    }

    /// Adds a line: `outcome` is what came of signalling the playback `id`.
    pub fn record(&mut self, id: PlaybackId, outcome: SignalOutcome)
        ensures
            final(self)@ == old(self)@.push((id, outcome)),
    {
        self.lines.push((id, outcome));
    }

    /// The number of playbacks that the request removed.
    pub fn len(&self) -> (n: usize)
        ensures
            n == self@.len(),
    {
        self.lines.len()
    }

    /// Whether the request found nothing to stop.
    pub fn is_empty(&self) -> (empty: bool)
        ensures
            empty == (self@.len() == 0),
    {
        self.lines.len() == 0
    }

    /// The lines of the report, oldest playback first.
    pub fn lines(&self) -> (lines: Vec<Signalled>)
        ensures
            lines@ == self@,
    {
        let mut lines: Vec<Signalled> = Vec::new();
        let mut at: usize = 0;
        while at < self.lines.len()
            invariant
                at <= self.lines.len(),
                lines@ == self@.take(at as int),
            decreases self.lines.len() - at,
        {
            lines.push(self.lines[at]);
            at += 1;
        }
        lines
    }

    /// Every history record that the request removed, whatever came of its
    /// signal. These are the records to close.
    pub fn ids(&self) -> (ids: Vec<PlaybackId>)
        ensures
            ids@ == all_ids(self@),
    {
        let mut ids: Vec<PlaybackId> = Vec::new();
        let mut at: usize = 0;
        while at < self.lines.len()
            invariant
                at <= self.lines.len(),
                ids@ == all_ids(self@.take(at as int)),
            decreases self.lines.len() - at,
        {
            ids.push(self.lines[at].0);
            at += 1;
        }
        ids
    }

    /// The history records whose tracks no longer play.
    pub fn stopped(&self) -> (ids: Vec<PlaybackId>)
        ensures
            ids@ == settled_ids(self@),
    {
        self.select(true)
    }

    /// The history records whose stop signal failed.
    pub fn failed(&self) -> (ids: Vec<PlaybackId>)
        ensures
            ids@ == failed_ids(self@),
    {
        self.select(false)
    }

    /// Whether every signal of the request was delivered.
    pub fn is_clean(&self) -> (clean: bool)
        ensures
            clean == (failed_ids(self@).len() == 0),
    {
        self.select(false).len() == 0
    }

    /// The records of the lines whose settledness is `settled`.
    fn select(&self, settled: bool) -> (ids: Vec<PlaybackId>)
        ensures
            settled ==> ids@ == settled_ids(self@),
            !settled ==> ids@ == failed_ids(self@),
    {
        let ghost keep = if settled {
            |line: Signalled| line.1.settled()
        } else {
            |line: Signalled| !line.1.settled()
        };
        let mut ids: Vec<PlaybackId> = Vec::new();
        let mut at: usize = 0;
        while at < self.lines.len()
            invariant
                at <= self.lines.len(),
                keep == if settled {
                    |line: Signalled| line.1.settled()
                } else {
                    |line: Signalled| !line.1.settled()
                },
                ids@ == all_ids(self@.take(at as int).filter(keep)),
            decreases self.lines.len() - at,
        {
            proof {
                lemma_filter_step(self@, keep, at as int);
            }
            let line = self.lines[at];
            if line.1.is_settled() == settled {
                ids.push(line.0);
            }
            at += 1;
        }
        assert(self@.take(at as int) =~= self@);
        ids
    }
}

} // verus!
