use vstd::prelude::*;
use crate::error::{kind_of, CoinFetchError, ErrorKind};
use crate::market::MarketData;
use crate::provider::{markets_path, markets_path_of, Currency};
use crate::store::{store_all, MarketTable};

verus! {

/// How a page that was fetched and stored without a page-level failure
/// ended.
#[derive(Clone, Copy, Debug, PartialEq, Eq, Structural)]
pub enum ExecutionOutcome {
    /// The page held entries and was committed.
    TaskCompleted,
    /// The page held no entries: nothing more at this page index yet.
    EmptyQueue,
}

/// The result of one worker iteration: an outcome, or the kind of the
/// page-level failure (fetch or commit).
pub type IterationResult = Result<ExecutionOutcome, ErrorKind>;

pub open spec fn page_outcome_of(len: nat) -> ExecutionOutcome {
    if len == 0 {
        ExecutionOutcome::EmptyQueue
    } else {
        ExecutionOutcome::TaskCompleted
    }
}

/// Classifies a page by its number of entries, present or not.
pub fn page_outcome(len: usize) -> (r: ExecutionOutcome)
    ensures
        r == page_outcome_of(len as nat),
{
    if len == 0 {
        ExecutionOutcome::EmptyQueue
    } else {
        ExecutionOutcome::TaskCompleted
    }
}

/// Seconds to wait after each kind of iteration.
#[derive(Clone, Copy, Debug, PartialEq, Eq, Structural)]
pub struct BackoffPolicy {
    pub completed_secs: u64,
    pub empty_secs: u64,
    pub error_secs: u64,
}

impl BackoffPolicy {
    /// Five seconds after a committed page or a failure, six minutes after
    /// an empty page.
    pub fn standard() -> (r: BackoffPolicy)
        ensures
            r.completed_secs == 5,
            r.empty_secs == 360,
            r.error_secs == 5,
    {
        BackoffPolicy { completed_secs: 5, empty_secs: 360, error_secs: 5 }
    }

    pub open spec fn delay_of(self, o: IterationResult) -> u64 {
        match o {
            Ok(ExecutionOutcome::TaskCompleted) => self.completed_secs,
            Ok(ExecutionOutcome::EmptyQueue) => self.empty_secs,
            Err(_) => self.error_secs,
        }
    }

    /// The delay before the next iteration, which depends on the outcome
    /// alone and not on which failure occurred.
    pub fn delay_for(&self, o: &IterationResult) -> (r: u64)
        ensures
            r == self.delay_of(*o),
    {
        match o {
            Ok(ExecutionOutcome::TaskCompleted) => self.completed_secs,
            Ok(ExecutionOutcome::EmptyQueue) => self.empty_secs,
            Err(_) => self.error_secs,
        }
    }
}

/// The poll cursor after an iteration: it moves on by one after a
/// committed page and holds otherwise; at the largest index it holds.
pub open spec fn next_cursor(c: u16, o: IterationResult) -> u16 {
    if o == Ok::<ExecutionOutcome, ErrorKind>(ExecutionOutcome::TaskCompleted) && c < u16::MAX {
        (c + 1) as u16
    } else {
        c
    }
}

/// The cursor after a run of outcomes, starting from `c`.
pub open spec fn cursor_after(c: u16, outcomes: Seq<IterationResult>) -> u16
    decreases outcomes.len(),
{
    if outcomes.len() == 0 {
        c
    } else {
        next_cursor(cursor_after(c, outcomes.drop_last()), outcomes.last())
    }
}

/// The outcome of an iteration from what the fetch gave (the number of
/// entries of the page, or the kind of the failure) and whether the page's
/// transaction opened and committed. An empty page needs no transaction.
pub open spec fn iteration_of(fetched: Result<nat, ErrorKind>, committed: bool) -> IterationResult {
    match fetched {
        Err(k) => Err(k),
        Ok(n) => if n == 0 {
            Ok(ExecutionOutcome::EmptyQueue)
        } else if committed {
            Ok(ExecutionOutcome::TaskCompleted)
        } else {
            Err(ErrorKind::Commit)
        },
    }
}

/// Classifies one iteration from what the fetch and the commit returned.
pub fn iteration_result(fetched: Result<usize, ErrorKind>, committed: bool) -> (r: IterationResult)
    ensures
        r == iteration_of(
            match fetched {
                Ok(n) => Ok(n as nat),
                Err(k) => Err(k),
            },
            committed,
        ),
{
    match fetched {
        Err(k) => Err(k),
        Ok(n) => if n == 0 {
            Ok(ExecutionOutcome::EmptyQueue)
        } else if committed {
            Ok(ExecutionOutcome::TaskCompleted)
        } else {
            Err(ErrorKind::Commit)
        },
    }
}

/// An empty page is the end-of-data sentinel: it is classified as an
/// empty queue, and the cursor does not move, so the same page index is
/// asked for again.
pub proof fn lemma_empty_page_holds_cursor(c: u16)
    ensures
        page_outcome_of(0) == ExecutionOutcome::EmptyQueue,
        next_cursor(c, Ok(page_outcome_of(0))) == c,
{
}

/// Over a run of committed pages the page index asked for goes up by
/// exactly one per iteration, as long as it stays within range.
pub proof fn lemma_cursor_monotonic(c: u16, outcomes: Seq<IterationResult>)
    requires
        forall|i: int|
            0 <= i < outcomes.len() ==> #[trigger] outcomes[i] == Ok::<ExecutionOutcome, ErrorKind>(
                ExecutionOutcome::TaskCompleted,
            ),
        c as nat + outcomes.len() <= u16::MAX,
    ensures
        cursor_after(c, outcomes) as nat == c as nat + outcomes.len(),
        forall|k: int|
            0 <= k < outcomes.len() ==> cursor_after(c, #[trigger] outcomes.take(k + 1)) as nat
                == cursor_after(c, outcomes.take(k)) as nat + 1,
    decreases outcomes.len(),
{
    if outcomes.len() > 0 {
        let init = outcomes.drop_last();
        assert forall|i: int| 0 <= i < init.len() implies #[trigger] init[i] == Ok::<
            ExecutionOutcome,
            ErrorKind,
        >(ExecutionOutcome::TaskCompleted) by {
            assert(init[i] == outcomes[i]);
        }
        lemma_cursor_monotonic(c, init);
        assert forall|k: int| 0 <= k < outcomes.len() implies cursor_after(
            c,
            #[trigger] outcomes.take(k + 1),
        ) as nat == cursor_after(c, outcomes.take(k)) as nat + 1 by {
            let pre = outcomes.take(k);
            assert(pre.len() == k);
            assert forall|i: int| 0 <= i < pre.len() implies #[trigger] pre[i] == Ok::<
                ExecutionOutcome,
                ErrorKind,
            >(ExecutionOutcome::TaskCompleted) by {
                assert(pre[i] == outcomes[i]);
            }
            lemma_cursor_monotonic(c, pre);
            assert(outcomes.take(k + 1).drop_last() == pre);
            assert(outcomes.take(k + 1).last() == outcomes[k]);
        }
    }
}

/// The delay depends on the outcome alone: with the standard policy five
/// seconds after a committed page, six minutes after an empty page, and
/// five seconds after any failure, whichever kind it was.
pub proof fn lemma_standard_backoff(p: BackoffPolicy, a: ErrorKind, b: ErrorKind)
    requires
        p.completed_secs == 5,
        p.empty_secs == 360,
        p.error_secs == 5,
    ensures
        p.delay_of(Ok(ExecutionOutcome::TaskCompleted)) == 5,
        p.delay_of(Ok(ExecutionOutcome::EmptyQueue)) == 360,
        p.delay_of(Err(a)) == 5,
        p.delay_of(Err(a)) == p.delay_of(Err(b)),
{
}

/// What the worker decided after one iteration.
#[derive(Clone, Copy, Debug)]
pub struct Step {
    pub outcome: IterationResult,
    pub delay_secs: u64,
}

/// The ingestion worker's state: the currency it polls, its poll cursor
/// and its pacing.
pub struct Worker {
    currency: Currency,
    cursor: u16,
    policy: BackoffPolicy,
}

impl Worker {
    pub closed spec fn currency_spec(&self) -> Currency {
        self.currency
    }

    pub closed spec fn cursor_spec(&self) -> u16 {
        self.cursor
    }

    pub closed spec fn policy_spec(&self) -> BackoffPolicy {
        self.policy
    }

    /// A worker that starts at the first page.
    pub fn new(currency: Currency, policy: BackoffPolicy) -> (r: Worker)
        ensures
            r.currency_spec() == currency,
            r.cursor_spec() == 1,
            r.policy_spec() == policy,
    {
        Worker { currency, cursor: 1, policy }
    }

    pub fn currency(&self) -> (r: Currency)
        ensures
            r == self.currency_spec(),
    {
        self.currency
    }

    /// The page index that the next iteration asks for.
    pub fn cursor(&self) -> (r: u16)
        ensures
            r == self.cursor_spec(),
    {
        self.cursor
    }

    pub fn policy(&self) -> (r: BackoffPolicy)
        ensures
            r == self.policy_spec(),
    {
        self.policy
    }

    /// The request path of the next iteration's page.
    pub fn request_path(&self) -> (r: String)
        ensures
            r@ == markets_path_of(self.currency_spec(), self.cursor_spec() as nat),
    {
        markets_path(self.currency, self.cursor)
    }

    /// Records an iteration's outcome: moves the cursor as `next_cursor`
    /// says and returns the seconds to sleep before the next iteration.
    pub fn record_outcome(&mut self, o: IterationResult) -> (delay: u64)
        ensures
            final(self).cursor_spec() == next_cursor(old(self).cursor_spec(), o),
            final(self).currency_spec() == old(self).currency_spec(),
            final(self).policy_spec() == old(self).policy_spec(),
            delay == old(self).policy_spec().delay_of(o),
    {
        let completed = match o {
            Ok(ExecutionOutcome::TaskCompleted) => true,
            _ => false,
        };
        if completed && self.cursor < u16::MAX {
            self.cursor = self.cursor + 1;
        }
        self.policy.delay_for(&o)
    }

    /// One iteration against an in-memory table, given what the fetch of
    /// the current page returned and whether its transaction commits: a
    /// failed fetch, an empty page and a failed commit leave the table as
    /// it was; otherwise the whole page is stored.
    pub fn step(
        &mut self,
        table: &mut MarketTable,
        fetched: &Result<Vec<Option<MarketData>>, CoinFetchError>,
        committed: bool,
    ) -> (r: Step)
        requires
            old(table).wf(),
        ensures
            final(table).wf(),
            final(table).view().dom().finite(),
            r.outcome == iteration_of(
                match *fetched {
                    Ok(p) => Ok(p@.len()),
                    Err(e) => Err(kind_of(e)),
                },
                committed,
            ),
            final(table).view() == match *fetched {
                Ok(p) => if r.outcome == Ok::<ExecutionOutcome, ErrorKind>(
                    ExecutionOutcome::TaskCompleted,
                ) {
                    store_all(old(table).view(), p@)
                } else {
                    old(table).view()
                },
                Err(_) => old(table).view(),
            },
            final(self).cursor_spec() == next_cursor(old(self).cursor_spec(), r.outcome),
            final(self).currency_spec() == old(self).currency_spec(),
            final(self).policy_spec() == old(self).policy_spec(),
            r.delay_secs == old(self).policy_spec().delay_of(r.outcome),
    {
        let outcome = match fetched {
            Err(e) => iteration_result(Err(e.kind()), committed),
            Ok(page) => {
                let o = iteration_result(Ok(page.len()), committed);
                if let Ok(ExecutionOutcome::TaskCompleted) = o {
                    table.store_page(page);
                }
                o
            },
        };
        proof {
            table.lemma_finite();
        }
        let delay_secs = self.record_outcome(outcome);
        Step { outcome, delay_secs }
    }
}

} // verus!
