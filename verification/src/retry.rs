//! The retry loop: a budget of further tries, and the operation run until it
//! succeeds, fails for good, or the budget is used up.

use crate::classify::{maybe_spurious, spurious};
use crate::error::{CauseModel, Failure, Kind};
use crate::text::{warning_line, warning_text};
use vstd::prelude::*;

verus! {

/// The number of further tries granted where none is configured.
pub const DEFAULT_RETRIES: u32 = 2;

/// What a retry session is given: the configured number of further tries,
/// if one is configured, and the sink that takes the warning lines.
pub struct Config<W> {
    retry: Option<i64>,
    warn: W,
}

/// The budget that a configured count stands for, or `None` where the count
/// cannot be read as one: it is negative or too large.
pub open spec fn budget_of(retry: Option<i64>) -> Option<u32> {
    match retry {
        None => Some(DEFAULT_RETRIES),
        Some(count) => if 0 <= count <= u32::MAX {
            Some(count as u32)
        } else {
            None
        },
    }
}

/// The causes of the failure that reports a count that cannot be read.
pub open spec fn unreadable_count() -> Seq<CauseModel> {
    seq![
        CauseModel {
            kind: Kind::Other,
            description: "the configured number of retries is not a count of tries"@,
        },
    ]
}

impl<W: FnMut(String) -> Result<(), Failure>> Config<W> {
    /// The configured number of further tries.
    pub closed spec fn retry(&self) -> Option<i64> {
        self.retry
    }

    /// The sink for the warning lines.
    pub closed spec fn sink(&self) -> W {
        self.warn
    }

    /// A configuration with the count `retry`, as it was read, and the sink
    /// `warn`.
    pub fn new(retry: Option<i64>, warn: W) -> (config: Config<W>)
        ensures
            config.retry() == retry,
            config.sink() == warn,
    {
        Config { retry, warn }
    }
}

/// Whether an attempt that ended in `outcome`, with `remaining` tries left,
/// is followed by a warning and, if the sink takes it, by another attempt.
pub open spec fn retry_due<T>(remaining: int, outcome: Result<T, Failure>) -> bool {
    outcome matches Err(err) && spurious(err@) && remaining > 0
}

/// One attempt as it went: what the operation returned, and what the sink
/// answered to the warning, which counts only where a warning was due.
pub struct Attempt<T> {
    pub outcome: Result<T, Failure>,
    pub sunk: Result<(), Failure>,
}

impl<T> Attempt<T> {
    /// The attempt is followed by another one: a retry was due and the sink
    /// took the warning.
    pub open spec fn retried(self, remaining: int) -> bool {
        retry_due(remaining, self.outcome) && self.sunk is Ok
    }

    /// The warning line raised for the attempt, where a retry was due.
    pub open spec fn warning(self, remaining: int) -> Seq<char>
        recommends
            retry_due(remaining, self.outcome),
    {
        warning_text(remaining as nat, self.outcome->Err_0@.last().description)
    }

    /// What one step of the loop makes of the attempt: the value on success,
    /// `None` where the operation is to be run again, the failure unchanged
    /// where it is not retried, and the sink's failure where the sink did not
    /// take the warning.
    pub open spec fn step(self, remaining: int) -> Result<Option<T>, Failure> {
        match self.outcome {
            Ok(value) => Ok(Some(value)),
            Err(err) => if retry_due(remaining, self.outcome) {
                match self.sunk {
                    Ok(_) => Ok(None),
                    Err(broken) => Err(broken),
                }
            } else {
                Err(err)
            },
        }
    }

    /// The tries left after the attempt.
    pub open spec fn left(self, remaining: int) -> int {
        if self.retried(remaining) {
            remaining - 1
        } else {
            remaining
        }
    }

    /// The attempt is one that `operation` and `sink` can have produced: the
    /// outcome is a result of the operation and, where a retry was due, the
    /// sink was handed the warning line and gave the recorded answer.
    pub open spec fn came_from<F: FnOnce() -> Result<T, Failure>, W: FnMut(String) -> Result<
        (),
        Failure,
    >>(self, operation: F, sink: W, remaining: int) -> bool {
        &&& call_ensures(operation, (), self.outcome)
        &&& retry_due(remaining, self.outcome) ==> exists|line: String|
            line@ == self.warning(remaining) && #[trigger] call_ensures(sink, (line,), self.sunk)
    }
}

/// The state of one retry session.
pub struct Retry<W> {
    warn: W,
    remaining: u32,
}

impl<W: FnMut(String) -> Result<(), Failure>> Retry<W> {
    /// The number of further tries that are left.
    pub closed spec fn left(&self) -> nat {
        self.remaining as nat
    }

    /// The sink for the warning lines.
    pub closed spec fn sink(&self) -> W {
        self.warn
    }

    /// Starts a session with the budget that `config` grants: the configured
    /// count, or [`DEFAULT_RETRIES`] where none is configured. Fails where
    /// the configured count cannot be read.
    pub fn new(config: Config<W>) -> (made: Result<Retry<W>, Failure>)
        ensures
            match budget_of(config.retry()) {
                Some(budget) => made matches Ok(retry) && retry.left() == budget && retry.sink()
                    == config.sink(),
                None => made matches Err(err) && err@ == unreadable_count(),
            },
    {
        let remaining: u32 = match config.retry {
            None => DEFAULT_RETRIES,
            Some(count) => {
                if 0 <= count && count <= 0xffff_ffff {
                    count as u32
                } else {
                    return Err(
                        Failure::msg("the configured number of retries is not a count of tries"),
                    );
                }
            },
        };
        Ok(Retry { warn: config.warn, remaining })
    }

    /// The number of further tries that are left.
    pub fn remaining(&self) -> (count: u32)
        ensures
            count == self.left(),
    {
        self.remaining
    }

    /// The warning line owed for an attempt that ended in `outcome`: there is
    /// one exactly where the failure is worth another try and a try is left.
    /// It names the tries that are left and the root cause.
    pub fn warning<T>(&self, outcome: &Result<T, Failure>) -> (line: Option<String>)
        ensures
            line is Some <==> retry_due(self.left() as int, *outcome),
            line matches Some(text) ==> (outcome matches Err(err) && text@ == warning_text(
                self.left(),
                err@.last().description,
            )),
    {
        match outcome {
            Err(err) => {
                if maybe_spurious(err) && self.remaining > 0 {
                    Some(warning_line(self.remaining, err.root_cause().description.as_str()))
                } else {
                    None
                }
            },
            Ok(_) => None,
        }
    }

    /// Runs the operation once. Returns its value in `Some` where it
    /// succeeds. Where it fails in a way that is worth another try and a try
    /// is left, hands the warning line to the sink, takes one try off the
    /// budget and returns `None`: the operation should be run again. Any
    /// other failure is returned as it is, and so is the failure of the sink.
    pub fn try_once<T, F: FnOnce() -> Result<T, Failure>>(&mut self, f: F) -> (result: Result<
        Option<T>,
        Failure,
    >)
        requires
            call_requires(f, ()),
            forall|line: String| call_requires(old(self).sink(), (line,)),
        ensures
            exists|attempt: Attempt<T>|
                attempt.came_from(f, old(self).sink(), old(self).left() as int) && result
                    == #[trigger] attempt.step(old(self).left() as int) && final(self).left()
                    == attempt.left(old(self).left() as int),
            final(self).left() <= old(self).left(),
            final(self).sink() == old(self).sink(),
    {
        let outcome: Result<T, Failure> = f();
        let ghost before: int = self.left() as int;
        match self.warning(&outcome) {
            Some(line) => {
                assert(call_requires(old(self).sink(), (line,)));
                let sunk: Result<(), Failure> = (self.warn)(line);
                let ghost attempt = Attempt { outcome, sunk };
                assert(attempt.came_from(f, old(self).sink(), before));
                match sunk {
                    Ok(_) => {
                        self.remaining = self.remaining - 1;
                        assert(Ok::<Option<T>, Failure>(None) == attempt.step(before));
                        Ok(None)
                    },
                    Err(broken) => {
                        assert(Err::<Option<T>, Failure>(broken) == attempt.step(before));
                        Err(broken)
                    },
                }
            },
            None => {
                let ghost attempt = Attempt { outcome, sunk: Ok(()) };
                assert(attempt.came_from(f, old(self).sink(), before));
                match outcome {
                    Ok(value) => {
                        assert(Ok::<Option<T>, Failure>(Some(value)) == attempt.step(before));
                        Ok(Some(value))
                    },
                    Err(err) => {
                        assert(Err::<Option<T>, Failure>(err) == attempt.step(before));
                        Err(err)
                    },
                }
            },
        }
    }
}

/// `trace` is a whole session on a budget of `budget` further tries: each
/// attempt starts with one try fewer than the one before, every attempt but
/// the last is followed by a retry, and the last is not.
pub open spec fn complete<T>(budget: nat, trace: Seq<Attempt<T>>) -> bool {
    &&& trace.len() > 0
    &&& forall|i: int| 0 <= i < trace.len() - 1 ==> (#[trigger] trace[i]).retried(budget - i)
    &&& !trace.last().retried(budget - (trace.len() - 1))
}

/// Every attempt of `trace` is one that `operation` and `sink` can have
/// produced on a budget of `budget` further tries.
pub open spec fn produced<T, F: FnOnce() -> Result<T, Failure>, W: FnMut(String) -> Result<
    (),
    Failure,
>>(budget: nat, trace: Seq<Attempt<T>>, operation: F, sink: W) -> bool {
    forall|i: int|
        0 <= i < trace.len() ==> (#[trigger] trace[i]).came_from(operation, sink, budget - i)
}

/// What a session returns: the value of the last attempt where it
/// succeeded, and else its failure, unchanged; but where the sink did not
/// take the warning for the last attempt, the failure of the sink.
pub open spec fn verdict<T>(budget: nat, trace: Seq<Attempt<T>>) -> Result<T, Failure>
    recommends
        complete(budget, trace),
{
    match trace.last().outcome {
        Ok(value) => Ok(value),
        Err(err) => if retry_due(budget - (trace.len() - 1), trace.last().outcome) {
            Err(trace.last().sunk->Err_0)
        } else {
            Err(err)
        },
    }
}

/// The tries that are left after the attempts of `trace`, made one after the
/// other from a budget of `budget` further tries.
pub open spec fn left_after<T>(budget: nat, trace: Seq<Attempt<T>>) -> int
    decreases trace.len(),
{
    if trace.len() == 0 {
        budget as int
    } else {
        trace.last().left(left_after(budget, trace.drop_last()))
    }
}

/// The warning lines that the attempts of `trace` raise, in order: one for
/// each attempt after which a retry was due.
pub open spec fn warnings<T>(budget: nat, trace: Seq<Attempt<T>>) -> Seq<Seq<char>>
    decreases trace.len(),
{
    if trace.len() == 0 {
        Seq::empty()
    } else {
        let earlier = trace.drop_last();
        let remaining = left_after(budget, earlier);
        if retry_due(remaining, trace.last().outcome) {
            warnings(budget, earlier).push(trace.last().warning(remaining))
        } else {
            warnings(budget, earlier)
        }
    }
}

/// While every attempt is followed by a retry, each takes one try off the
/// budget and raises one warning, which names the tries left before it.
pub proof fn retries_count<T>(budget: nat, trace: Seq<Attempt<T>>)
    requires
        forall|i: int| 0 <= i < trace.len() ==> (#[trigger] trace[i]).retried(budget - i),
    ensures
        left_after(budget, trace) == budget - trace.len(),
        warnings(budget, trace).len() == trace.len(),
        forall|i: int|
            0 <= i < trace.len() ==> #[trigger] warnings(budget, trace)[i] == trace[i].warning(
                budget - i,
            ),
    decreases trace.len(),
{
    if trace.len() > 0 {
        let earlier = trace.drop_last();
        assert forall|i: int| 0 <= i < earlier.len() implies (#[trigger] earlier[i]).retried(
            budget - i,
        ) by {}
        retries_count(budget, earlier);
        assert forall|i: int| 0 <= i < trace.len() implies #[trigger] warnings(budget, trace)[i]
            == trace[i].warning(budget - i) by {}
    }
}

/// A session never runs the operation more than once more than the budget
/// has tries.
pub proof fn attempts_within_budget<T>(budget: nat, trace: Seq<Attempt<T>>)
    requires
        complete(budget, trace),
    ensures
        trace.len() <= budget + 1,
{
    if trace.len() >= 2 {
        assert(trace[trace.len() - 2].retried(budget - (trace.len() - 2)));
    }
}

/// A whole session takes one try off the budget for every attempt but the
/// last, and never more than the budget has. It raises one warning for every
/// attempt before the last, and none for the last, unless the session ends
/// because the sink did not take the warning for it.
pub proof fn session_accounts<T>(budget: nat, trace: Seq<Attempt<T>>)
    requires
        complete(budget, trace),
    ensures
        left_after(budget, trace) == budget - (trace.len() - 1),
        left_after(budget, trace) >= 0,
        warnings(budget, trace).len() == if retry_due(
            budget - (trace.len() - 1),
            trace.last().outcome,
        ) {
            trace.len()
        } else {
            (trace.len() - 1) as nat
        },
        forall|i: int|
            0 <= i < trace.len() - 1 ==> #[trigger] warnings(budget, trace)[i] == trace[i].warning(
                budget - i,
            ),
{
    let earlier = trace.drop_last();
    assert forall|i: int| 0 <= i < earlier.len() implies (#[trigger] earlier[i]).retried(
        budget - i,
    ) by {}
    retries_count(budget, earlier);
    attempts_within_budget(budget, trace);
    assert forall|i: int| 0 <= i < trace.len() - 1 implies #[trigger] warnings(budget, trace)[i]
        == trace[i].warning(budget - i) by {}
}

/// Where every attempt but the last fails in a way that is worth another
/// try, the last succeeds, there are no more attempts than the budget has
/// tries and one, and the sink takes every warning: these attempts are a
/// whole session, it returns the value of the last attempt, it raises one
/// warning for each attempt before the last, each naming the tries left
/// before it and the root cause, and it leaves the budget lower by the number
/// of warnings.
pub proof fn retries_then_success<T>(budget: nat, trace: Seq<Attempt<T>>)
    requires
        0 < trace.len() <= budget + 1,
        forall|i: int|
            0 <= i < trace.len() - 1 ==> ((#[trigger] trace[i]).outcome matches Err(err)
                && spurious(err@)),
        forall|i: int| 0 <= i < trace.len() - 1 ==> (#[trigger] trace[i]).sunk is Ok,
        trace.last().outcome is Ok,
    ensures
        complete(budget, trace),
        verdict(budget, trace) == Ok::<T, Failure>(trace.last().outcome->Ok_0),
        warnings(budget, trace).len() == trace.len() - 1,
        forall|i: int|
            0 <= i < trace.len() - 1 ==> #[trigger] warnings(budget, trace)[i] == warning_text(
                (budget - i) as nat,
                trace[i].outcome->Err_0@.last().description,
            ),
        left_after(budget, trace) == budget - (trace.len() - 1),
{
    assert forall|i: int| 0 <= i < trace.len() - 1 implies (#[trigger] trace[i]).retried(
        budget - i,
    ) by {}
    session_accounts(budget, trace);
}

/// Runs `callback` until it succeeds, fails in a way that is not worth
/// another try, or has used up the budget that `config` grants. Before each
/// retry one warning line goes to the sink of `config`; where the sink fails,
/// its failure is returned at once.
///
/// The contract speaks of the attempts that were made: there is a whole
/// session of attempts, each of them a possible result of `callback` and of
/// the sink, whose verdict is what is returned. Where the configured count
/// cannot be read, `callback` is not run at all.
#[verifier::loop_isolation(false)]
pub fn with_retry<T, F, W>(config: Config<W>, mut callback: F) -> (result: Result<T, Failure>) where
    F: FnMut() -> Result<T, Failure>,
    W: FnMut(String) -> Result<(), Failure>,

    requires
        call_requires(callback, ()),
        forall|line: String| call_requires(config.sink(), (line,)),
    ensures
        match budget_of(config.retry()) {
            Some(budget) => exists|trace: Seq<Attempt<T>>| #[trigger]
                complete(budget as nat, trace) && produced(
                    budget as nat,
                    trace,
                    callback,
                    config.sink(),
                ) && result == verdict(budget as nat, trace) && trace.len() <= budget + 1,
            None => result matches Err(err) && err@ == unreadable_count(),
        },
{
    let ghost operation = callback;
    let ghost sink = config.sink();
    let mut retry: Retry<W> = match Retry::new(config) {
        Ok(retry) => retry,
        Err(err) => {
            return Err(err);
        },
    };
    let ghost budget: nat = retry.left();
    let ghost mut trace: Seq<Attempt<T>> = Seq::empty();
    loop
        invariant
            callback == operation,
            call_requires(operation, ()),
            retry.sink() == sink,
            forall|line: String| call_requires(sink, (line,)),
            trace.len() + retry.left() == budget,
            produced(budget, trace, operation, sink),
            forall|i: int| 0 <= i < trace.len() ==> (#[trigger] trace[i]).retried(budget - i),
        decreases retry.left(),
    {
        let ghost left: int = retry.left() as int;
        let step: Result<Option<T>, Failure> = retry.try_once(&mut callback);
        let ghost attempt: Attempt<T> = choose|attempt: Attempt<T>|
            attempt.came_from(operation, sink, left) && step == #[trigger] attempt.step(left)
                && retry.left() == attempt.left(left);
        let ghost longer: Seq<Attempt<T>> = trace.push(attempt);
        assert(attempt.came_from(operation, sink, left) && step == attempt.step(left)
            && retry.left() == attempt.left(left));
        assert(produced(budget, longer, operation, sink));
        match step {
            Ok(Some(value)) => {
                assert(complete(budget, longer));
                assert(Ok::<T, Failure>(value) == verdict(budget, longer));
                proof {
                    attempts_within_budget(budget, longer);
                }
                return Ok(value);
            },
            Ok(None) => {
                proof {
                    trace = longer;
                }
            },
            Err(err) => {
                assert(complete(budget, longer));
                assert(Err::<T, Failure>(err) == verdict(budget, longer));
                proof {
                    attempts_within_budget(budget, longer);
                }
                return Err(err);
            },
        }
    }
}

} // verus!
