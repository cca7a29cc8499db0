//! The boundary to the `killport` crate: the processes and containers bound
//! to a port, their display names, and the signal sent to one of them.
//!
//! What touches `killport` here is believed, not proved: the declarations of
//! its types, the names given to what a lookup holds and was asked, and the
//! five functions that make its calls. The rest of the crate is verified against the
//! contracts stated here.

use crate::settings::KILL_SIGNAL;
use vstd::prelude::*;

verus! {

/// `killport::signal::KillportSignal`, a signal that a killable accepts.
/// Nothing is known of a value but that it was parsed from a signal name.
#[verifier::external_type_specification]
#[verifier::external_body]
pub struct ExKillportSignal(killport::signal::KillportSignal);

/// `std::io::Error`, the error of every `killport` operation.
#[verifier::external_type_specification]
#[verifier::external_body]
pub struct ExIoError(std::io::Error);

/// How `killport` looks for what is bound to a port.
#[derive(Clone, Copy, Debug, PartialEq, Eq, Structural)]
pub enum DetectionMode {
    /// Native processes, and containers where a container engine answers.
    Auto,
    /// Native processes only.
    Process,
    /// Containers only.
    Container,
}

/// The killables that one lookup found on a port, in the order in which
/// `killport` returned them. It holds the `Vec<Box<dyn Killable>>` of
/// `KillportOperations::find_target_killables`, which Verus cannot look
/// into, beside the port and the mode that the lookup was made with; a
/// killable is reached by its position.
#[verifier::external_body]
#[allow(dead_code)]
pub struct Killables {
    items: Vec<Box<dyn killport::killport::Killable>>,
    port: u16,
    mode: DetectionMode,
}

/// The display names of the killables in `found`, by position: what
/// `Killable::get_name` returns for each. Both implementations in `killport`
/// return a field that is set when the killable is made, so the names of a
/// collection never change.
pub uninterp spec fn killable_names(found: Killables) -> Seq<Seq<char>>;

/// The port that the lookup which gave `found` was made for: the `port`
/// handed to `find_target_killables`.
pub uninterp spec fn lookup_port(found: Killables) -> u16;

/// The mode that the lookup which gave `found` was made in: the `mode`
/// handed to `find_target_killables`.
pub uninterp spec fn lookup_mode(found: Killables) -> DetectionMode;

impl View for Killables {
    type V = Seq<Seq<char>>;

    /// The display names of the killables, by position.
    open spec fn view(&self) -> Seq<Seq<char>> {
        killable_names(*self)
    }
}

/// Calls `Killport::find_target_killables` for `port` in the given mode.
/// What it finds depends on the machine at the moment of the call, so of
/// what was found nothing is claimed: only that a collection which comes
/// back is the answer to this port and this mode. The call must not be made
/// on a thread that is driving an asynchronous runtime: the container lookup
/// starts a runtime of its own, and that panics inside another.
#[verifier::external_body]
fn find_killables(port: u16, mode: DetectionMode) -> (found: Result<Killables, std::io::Error>)
    ensures
        found matches Ok(killables) ==> lookup_port(killables) == port && lookup_mode(killables)
            == mode,
{
    let wanted = match mode {
        DetectionMode::Auto => killport::cli::Mode::Auto,
        DetectionMode::Process => killport::cli::Mode::Process,
        DetectionMode::Container => killport::cli::Mode::Container,
    };
    match killport::killport::KillportOperations::find_target_killables(
        &killport::killport::Killport,
        port,
        wanted,
    ) {
        Ok(items) => Ok(Killables { items, port, mode }),
        Err(cause) => Err(cause),
    }
}

/// `Vec::len` of the collection that the lookup returned: the number of
/// killables found.
#[verifier::external_body]
fn killable_count(found: &Killables) -> (count: usize)
    ensures
        count == killable_names(*found).len(),
{
    found.items.len()
}

/// Calls `Killable::get_name` on the killable at `index`: its display name,
/// for a process its command line, for a container its name.
#[verifier::external_body]
fn killable_name(found: &Killables, index: usize) -> (name: String)
    requires
        index < killable_names(*found).len(),
    ensures
        name@ == killable_names(*found)[index as int],
{
    found.items[index].get_name()
}

/// Calls `Killable::kill` on the killable at `index` with `signal`. Whether
/// the signal is delivered depends on the machine, so nothing is claimed of
/// the result; an error is returned, never raised. Like the lookup, the call
/// must not be made on a thread that is driving an asynchronous runtime: the
/// kill of a container starts a runtime of its own.
#[verifier::external_body]
fn send_signal(found: &Killables, index: usize, signal: killport::signal::KillportSignal) -> (sent:
    Result<bool, std::io::Error>)
    requires
        index < killable_names(*found).len(),
{
    found.items[index].kill(signal)
}

/// Calls `KillportSignal::from_str` on `name`. Which names it accepts
/// depends on the platform, so nothing is claimed of the result.
#[verifier::external_body]
fn parse_signal(name: &str) -> (parsed: Result<killport::signal::KillportSignal, std::io::Error>) {
    name.parse()
}

impl Killables {
    /// Looks up what is bound to `port` in the given mode. What is found is
    /// the machine's to decide; a collection that comes back is the answer
    /// to this port and this mode.
    pub fn lookup(port: u16, mode: DetectionMode) -> (found: Result<Killables, std::io::Error>)
        ensures
            found matches Ok(killables) ==> lookup_port(killables) == port && lookup_mode(
                killables,
            ) == mode,
    {
        find_killables(port, mode)
    }

    /// The display names of all killables, in lookup order.
    pub fn names(&self) -> (names: Vec<String>)
        ensures
            names.deep_view() == self@,
    {
        let count: usize = killable_count(self);
        let mut names: Vec<String> = Vec::new();
        let mut at: usize = 0;
        while at < count
            invariant
                count == self@.len(),
                at <= count,
                names@.len() == at,
                forall|i: int| 0 <= i < at ==> (#[trigger] names@[i])@ == self@[i],
            decreases count - at,
        {
            let name = killable_name(self, at);
            names.push(name);
            at += 1;
        }
        assert(names.deep_view() =~= self@);
        names
    }

    /// Sends the kill signal, called `signal`, to the killable at `index`.
    /// Should `killport` not take the name for a signal, that is an error
    /// like any other: no signal is sent.
    pub(crate) fn signal(&self, index: usize, signal: &str) -> (sent: Result<bool, std::io::Error>)
        requires
            index < self@.len(),
            signal@ == KILL_SIGNAL@,
    {
        match parse_signal(signal) {
            Ok(parsed) => send_signal(self, index, parsed),
            Err(cause) => Err(cause),
        }
    }
}

} // verus!
