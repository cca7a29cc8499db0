//! Port-based cleanup: find what is bound to a port and terminate every
//! target whose display name contains the sidecar's name.
//!
//! The sweep is best effort. A lookup that fails ends the cleanup before any
//! signal is sent; a signal that fails is recorded and the sweep goes on.
//! Running a cleanup again is harmless: a port that nothing is bound to is
//! swept without an attempt and without an error.

use crate::killables::{lookup_mode, lookup_port, DetectionMode, Killables};
use crate::settings::{KILL_SIGNAL, SIDECAR_NAME};
use crate::text::{contains, occurs_in};
use vstd::prelude::*;

verus! {

/// A display name is the sidecar's when the sidecar's name stands in it.
pub open spec fn is_sidecar(name: Seq<char>) -> bool {
    occurs_in(SIDECAR_NAME@, name)
}

/// The positions in `names` of the sidecar's names, in ascending order.
pub open spec fn sidecar_positions(names: Seq<Seq<char>>) -> Seq<int>
    decreases names.len(),
{
    if names.len() == 0 {
        Seq::empty()
    } else {
        let earlier = sidecar_positions(names.drop_last());
        if is_sidecar(names.last()) {
            earlier.push(names.len() - 1)
        } else {
            earlier
        }
    }
}

/// The positions that a list of machine indices stands for.
pub open spec fn positions_of(picked: Seq<usize>) -> Seq<int> {
    picked.map_values(|position: usize| position as int)
}

/// How one attempt to terminate a target ended.
#[derive(Debug)]
pub enum KillOutcome {
    /// The target took the signal.
    Killed,
    /// The signal could not be delivered.
    Failed(std::io::Error),
}

/// One attempt to terminate a target.
#[derive(Debug)]
pub struct KillAttempt {
    /// The position of the target among the candidates of its sweep.
    pub target: usize,
    /// The display name of the target.
    pub name: String,
    /// The name of the signal that was sent.
    pub signal: &'static str,
    /// How the attempt ended.
    pub outcome: KillOutcome,
}

/// What one sweep over the killables of a port saw and did.
#[derive(Debug)]
pub struct Sweep {
    /// The port that was looked up.
    pub port: u16,
    /// The mode in which it was looked up.
    pub mode: DetectionMode,
    /// The display names of everything found on the port, in lookup order.
    pub candidates: Vec<String>,
    /// The attempts made, in the order in which they were made.
    pub attempts: Vec<KillAttempt>,
}

/// How one cleanup of a port ended.
#[derive(Debug)]
pub enum CleanupReport {
    /// The lookup failed. Nothing was signalled.
    LookupFailed(std::io::Error),
    /// The lookup succeeded and its killables were swept.
    Swept(Sweep),
}

impl Sweep {
    /// The display names of the candidates.
    pub open spec fn names(&self) -> Seq<Seq<char>> {
        self.candidates.deep_view()
    }

    /// The positions of the targets that were attempted, in order.
    pub open spec fn targets(&self) -> Seq<int> {
        self.attempts@.map_values(|attempt: KillAttempt| attempt.target as int)
    }

    /// A sweep is faithful when it attempted each candidate that bears the
    /// sidecar's name once, in lookup order, and nothing else, however the
    /// attempts ended; and when each attempt is recorded under the name of
    /// its target and with the kill signal's name.
    pub open spec fn faithful(&self) -> bool {
        &&& self.targets() == sidecar_positions(self.names())
        &&& forall|j: int|
            0 <= j < self.attempts@.len() ==> {
                let attempt = #[trigger] self.attempts@[j];
                &&& attempt.target < self.names().len()
                &&& attempt.name@ == self.names()[attempt.target as int]
                &&& attempt.signal@ == KILL_SIGNAL@
            }
    }
}

impl CleanupReport {
    /// The attempts that the cleanup made: none where the lookup failed.
    pub open spec fn attempts(&self) -> Seq<KillAttempt> {
        match self {
            CleanupReport::LookupFailed(_) => Seq::empty(),
            CleanupReport::Swept(done) => done.attempts@,
        }
    }

    /// A cleanup is faithful when its sweep, if it came to one, is.
    pub open spec fn faithful(&self) -> bool {
        match self {
            CleanupReport::LookupFailed(_) => true,
            CleanupReport::Swept(done) => done.faithful(),
        }
    }
}

/// How an attempt ended, read from the answer of its kill operation: any
/// success counts as a kill, an error is kept as it came.
pub open spec fn outcome_of(sent: Result<bool, std::io::Error>) -> KillOutcome {
    match sent {
        Ok(_) => KillOutcome::Killed,
        Err(cause) => KillOutcome::Failed(cause),
    }
}

impl KillOutcome {
    /// Reads the answer of a kill operation.
    pub fn from_result(sent: Result<bool, std::io::Error>) -> (outcome: KillOutcome)
        ensures
            outcome == outcome_of(sent),
    {
        match sent {
            Ok(_) => KillOutcome::Killed,
            Err(cause) => KillOutcome::Failed(cause),
        }
    }
}

/// Whether `name` is a display name of the sidecar.
pub fn is_sidecar_name(name: &str) -> (matches: bool)
    ensures
        matches == is_sidecar(name@),
{
    contains(name, SIDECAR_NAME)
}

/// The positions of the targets to terminate among `names`: every name of
/// the sidecar, in the order of the list, and no other.
pub fn select_targets(names: &Vec<String>) -> (picked: Vec<usize>)
    ensures
        positions_of(picked@) == sidecar_positions(names.deep_view()),
{
    let mut picked: Vec<usize> = Vec::new();
    let mut at: usize = 0;
    while at < names.len()
        invariant
            at <= names@.len(),
            positions_of(picked@) == sidecar_positions(names.deep_view().take(at as int)),
        decreases names@.len() - at,
    {
        let ghost seen = names.deep_view().take(at as int);
        let ghost next = names.deep_view().take(at + 1);
        assert(next.drop_last() == seen);
        assert(next.last() == names@[at as int]@);
        let ghost before = picked@;
        if is_sidecar_name(names[at].as_str()) {
            picked.push(at);
            assert(positions_of(picked@) == positions_of(before).push(at as int));
        }
        at += 1;
    }
    assert(names.deep_view().take(at as int) == names.deep_view());
    picked
}

/// The attempt records what `kill` answered when it was handed the
/// attempt's target and the attempt's signal.
pub open spec fn answered_by<K>(kill: K, attempt: KillAttempt) -> bool where
    K: Fn(usize, &'static str) -> Result<bool, std::io::Error>,
 {
    exists|sent: Result<bool, std::io::Error>|
        {
            &&& #[trigger] call_ensures(kill, (attempt.target, attempt.signal), sent)
            &&& attempt.outcome == outcome_of(sent)
        }
}

/// Sweeps the candidates that a lookup of `port` in `mode` gave: every one
/// whose display name contains the sidecar's name is handed to `kill` with
/// the kill signal's name, in lookup order, and what `kill` answered is
/// recorded. A failed attempt does not end the sweep.
pub fn sweep<K>(port: u16, mode: DetectionMode, candidates: Vec<String>, kill: K) -> (done:
    Sweep) where K: Fn(usize, &'static str) -> Result<bool, std::io::Error>
    requires
        forall|target: usize|
            target < candidates@.len() ==> call_requires(kill, (target, KILL_SIGNAL)),
    ensures
        done.port == port,
        done.mode == mode,
        done.candidates == candidates,
        done.faithful(),
        forall|j: int| 0 <= j < done.attempts@.len() ==> answered_by(kill, #[trigger] done.attempts@[j]),
{
    let picked = select_targets(&candidates);
    proof {
        lemma_positions_characterised(candidates.deep_view());
        assert forall|j: int| 0 <= j < picked@.len() implies (#[trigger] picked@[j])
            < candidates@.len() by {
            assert(positions_of(picked@)[j] == picked@[j]);
        }
    }
    let mut attempts: Vec<KillAttempt> = Vec::new();
    let mut at: usize = 0;
    while at < picked.len()
        invariant
            at <= picked@.len(),
            attempts@.len() == at,
            forall|target: usize|
                target < candidates@.len() ==> call_requires(kill, (target, KILL_SIGNAL)),
            forall|j: int| 0 <= j < picked@.len() ==> (#[trigger] picked@[j]) < candidates@.len(),
            forall|j: int|
                0 <= j < at ==> {
                    let attempt = #[trigger] attempts@[j];
                    &&& attempt.target == picked@[j]
                    &&& attempt.name@ == candidates@[attempt.target as int]@
                    &&& attempt.signal@ == KILL_SIGNAL@
                    &&& answered_by(kill, attempt)
                },
        decreases picked@.len() - at,
    {
        let target = picked[at];
        let sent = kill(target, KILL_SIGNAL);
        let attempt = KillAttempt {
            target,
            name: candidates[target].clone(),
            signal: KILL_SIGNAL,
            outcome: KillOutcome::from_result(sent),
        };
        assert(answered_by(kill, attempt)) by {
            assert(attempt.target == target && attempt.signal == KILL_SIGNAL);
            assert(call_ensures(kill, (attempt.target, attempt.signal), sent));
        }
        attempts.push(attempt);
        at += 1;
    }
    let done = Sweep { port, mode, candidates, attempts };
    assert(done.targets() =~= positions_of(picked@));
    done
}

/// Carries a cleanup on from the answer that a lookup of `port` in `mode`
/// gave. A failed lookup ends the cleanup at once, with the error and
/// without an attempt; a successful one is swept, each kill being the
/// killable's own and made with the kill signal.
pub fn conclude(found: Result<Killables, std::io::Error>, port: u16, mode: DetectionMode) -> (report:
    CleanupReport)
    requires
        found matches Ok(killables) ==> lookup_port(killables) == port && lookup_mode(killables)
            == mode,
    ensures
        match found {
            Err(cause) => report == CleanupReport::LookupFailed(cause),
            Ok(killables) => {
                &&& report matches CleanupReport::Swept(done)
                &&& done.port == lookup_port(killables)
                &&& done.mode == lookup_mode(killables)
                &&& done.names() == killables@
                &&& done.faithful()
            },
        },
        found is Err ==> report.attempts().len() == 0,
{
    match found {
        Err(cause) => CleanupReport::LookupFailed(cause),
        Ok(killables) => {
            let candidates = killables.names();
            let kill = |target: usize, signal: &'static str| -> (sent: Result<bool, std::io::Error>)
                requires
                    target < killables@.len(),
                    signal@ == KILL_SIGNAL@,
                { killables.signal(target, signal) };
            CleanupReport::Swept(sweep(port, mode, candidates, kill))
        },
    }
}

/// Terminates the sidecar that listens on `port`: makes one lookup of what
/// is bound to the port, native processes and containers alike, and sweeps
/// what it gave. Which of the two reports comes back is the lookup's to
/// decide. A sweep that comes back is faithful, and is the sweep of this
/// port in automatic mode.
pub fn kill_process(port: u16) -> (report: CleanupReport)
    ensures
        report.faithful(),
        report matches CleanupReport::Swept(done) ==> done.port == port && done.mode
            == DetectionMode::Auto,
{
    conclude(Killables::lookup(port, DetectionMode::Auto), port, DetectionMode::Auto)
}

/// What the listed positions are: each lies within the list and bears the
/// sidecar's name, they ascend strictly, and no position that bears the
/// sidecar's name is left out.
pub proof fn lemma_positions_characterised(names: Seq<Seq<char>>)
    ensures
        forall|j: int|
            0 <= j < sidecar_positions(names).len() ==> {
                let position = #[trigger] sidecar_positions(names)[j];
                0 <= position < names.len() && is_sidecar(names[position])
            },
        forall|j: int, k: int|
            0 <= j < k < sidecar_positions(names).len() ==> (#[trigger] sidecar_positions(
                names,
            )[j]) < (#[trigger] sidecar_positions(names)[k]),
        forall|i: int|
            0 <= i < names.len() && is_sidecar(#[trigger] names[i]) ==> sidecar_positions(
                names,
            ).contains(i),
    decreases names.len(),
{
    if names.len() > 0 {
        let earlier_names = names.drop_last();
        let earlier = sidecar_positions(earlier_names);
        let listed = sidecar_positions(names);
        let last = names.len() - 1;
        lemma_positions_characterised(earlier_names);
        assert forall|j: int| 0 <= j < listed.len() implies {
            let position = #[trigger] listed[j];
            0 <= position < names.len() && is_sidecar(names[position])
        } by {
            if j < earlier.len() {
                assert(listed[j] == earlier[j]);
                assert(earlier_names[earlier[j]] == names[earlier[j]]);
            }
        }
        assert forall|j: int, k: int| 0 <= j < k < listed.len() implies (#[trigger] listed[j]) < (
        #[trigger] listed[k]) by {
            assert(listed[j] == earlier[j]);
            if k < earlier.len() {
                assert(listed[k] == earlier[k]);
            }
        }
        assert forall|i: int| 0 <= i < names.len() && is_sidecar(#[trigger] names[i]) implies
            listed.contains(i) by {
            if i < last {
                assert(earlier_names[i] == names[i]);
                let j = choose|j: int| 0 <= j < earlier.len() && earlier[j] == i;
                assert(listed[j] == i);
            } else {
                assert(listed[listed.len() - 1] == i);
            }
        }
    }
}

/// Where nothing is bound to the port, a faithful sweep attempts nothing.
pub proof fn lemma_nothing_bound_nothing_attempted(done: Sweep)
    requires
        done.faithful(),
        done.names().len() == 0,
    ensures
        done.attempts@.len() == 0,
{
    assert(done.targets().len() == done.attempts@.len());
}

/// Where no candidate bears the sidecar's name, a faithful sweep attempts
/// nothing, however many candidates there are.
pub proof fn lemma_no_sidecar_nothing_attempted(done: Sweep)
    requires
        done.faithful(),
        forall|i: int| 0 <= i < done.names().len() ==> !is_sidecar(#[trigger] done.names()[i]),
    ensures
        done.attempts@.len() == 0,
{
    lemma_positions_characterised(done.names());
    assert(done.targets().len() == done.attempts@.len());
    if done.attempts@.len() > 0 {
        let position = sidecar_positions(done.names())[0];
        assert(is_sidecar(done.names()[position]));
    }
}

/// A candidate that bears the sidecar's name is attempted by a faithful
/// sweep, and attempted once: exactly one attempt has it for its target.
pub proof fn lemma_sidecar_attempted_once(done: Sweep, position: int)
    requires
        done.faithful(),
        0 <= position < done.names().len(),
        is_sidecar(done.names()[position]),
    ensures
        exists|j: int|
            0 <= j < done.attempts@.len() && (#[trigger] done.attempts@[j]).target == position,
        forall|j: int, k: int|
            0 <= j < done.attempts@.len() && 0 <= k < done.attempts@.len() && (
            #[trigger] done.attempts@[j]).target == position && (
            #[trigger] done.attempts@[k]).target == position ==> j == k,
{
    let listed = sidecar_positions(done.names());
    lemma_positions_characterised(done.names());
    assert(done.targets().len() == done.attempts@.len());
    assert(listed.contains(position));
    let at = choose|at: int| 0 <= at < listed.len() && listed[at] == position;
    assert(done.targets()[at] == done.attempts@[at].target);
    assert forall|j: int, k: int|
        0 <= j < done.attempts@.len() && 0 <= k < done.attempts@.len() && (
        #[trigger] done.attempts@[j]).target == position && (
        #[trigger] done.attempts@[k]).target == position implies j == k by {
        assert(done.targets()[j] == position);
        assert(done.targets()[k] == position);
        if j < k {
            assert(listed[j] < listed[k]);
        }
        if k < j {
            assert(listed[k] < listed[j]);
        }
    }
}

/// Every attempt of a faithful sweep has a candidate that bears the
/// sidecar's name for its target, and is made with the kill signal: a
/// stranger on the port is never signalled, and no other signal is sent.
pub proof fn lemma_only_sidecars_attempted(done: Sweep, j: int)
    requires
        done.faithful(),
        0 <= j < done.attempts@.len(),
    ensures
        0 <= done.attempts@[j].target < done.names().len(),
        is_sidecar(done.names()[done.attempts@[j].target as int]),
        is_sidecar(done.attempts@[j].name@),
        done.attempts@[j].signal@ == KILL_SIGNAL@,
{
    lemma_positions_characterised(done.names());
    assert(done.targets()[j] == done.attempts@[j].target);
}

/// A failed attempt does not end a faithful sweep: whichever attempt failed,
/// every other candidate that bears the sidecar's name was attempted too.
pub proof fn lemma_failure_is_isolated(done: Sweep, failed: int, other: int)
    requires
        done.faithful(),
        0 <= failed < done.attempts@.len(),
        done.attempts@[failed].outcome is Failed,
        0 <= other < done.names().len(),
        is_sidecar(done.names()[other]),
    ensures
        exists|j: int|
            0 <= j < done.attempts@.len() && (#[trigger] done.attempts@[j]).target == other,
{
    lemma_sidecar_attempted_once(done, other);
}

} // verus!
