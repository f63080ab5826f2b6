//! One sweep of the periodic redeploy task: every registered composition is
//! attempted once, one after the other, in registration order.

use vstd::prelude::*;
use crate::config::{Config, ConfigView};
use crate::error::{reports, Error};
use crate::operation::{redeploy_command, redeploy_in, Command, CommandView};
use crate::trigger::admission;

verus! {

/// One redeploy to attempt during a sweep.
#[derive(Debug)]
pub struct Attempt {
    pub name: String,
    pub command: Command,
}

/// What a sweep does next: the line to log for the attempt that just failed,
/// if one did, and the next attempt, if any is left.
#[derive(Debug)]
pub struct SweepStep {
    pub diagnostic: Option<String>,
    pub attempt: Option<Attempt>,
}

/// The attempt a sweep makes at `position`: the name registered there with its
/// redeploy command, and none once every name has had its turn.
pub open spec fn attempt_at(config: ConfigView, position: nat) -> Option<(Seq<char>, CommandView)> {
    if position < config.names.len() {
        let name = config.names[position as int];
        Some((name, redeploy_command(config.compositions[name])))
    } else {
        None
    }
}

/// Advances a sweep to `position`.
///
/// `previous` is the failure of the attempt just made, if it failed. It is
/// turned into a diagnostic line and changes nothing else: the sweep goes on
/// to the next composition all the same. The sweep is over when no attempt is
/// returned.
pub fn restart_all(config: &Config, position: usize, previous: Option<&Error>) -> (step: SweepStep)
    requires
        config.wf(),
    ensures
        step.attempt is Some == attempt_at(config@, position as nat) is Some,
        step.attempt matches Some(attempt) ==> Some((attempt.name@, attempt.command@))
            == attempt_at(config@, position as nat),
        step.diagnostic is Some == previous is Some,
        previous matches Some(failure) ==> (step.diagnostic matches Some(line) && reports(
            line@,
            failure@,
        )),
{
    let diagnostic = match previous {
        Some(failure) => Some(failure.diagnostic()),
        None => None,
    };
    let registry = config.registry();
    let attempt = if position < registry.len() {
        let (name, composition) = registry.entry_at(position);
        Some(Attempt { name: String::from_str(name), command: redeploy_in(composition.work()) })
    } else {
        None
    };
    SweepStep { diagnostic, attempt }
}

/// A sweep attempts every registered composition, each exactly once and with
/// the command a trigger for that name would run, whatever became of the
/// attempts before it; and it attempts nothing else.
pub proof fn lemma_sweep_attempts_every_name(config: &Config)
    requires
        config.wf(),
    ensures
        config@.names.no_duplicates(),
        forall|position: nat|
            position < config@.names.len() ==> (#[trigger] attempt_at(config@, position)
                matches Some(attempt) && config@.compositions.contains_key(attempt.0) && Ok::<
                CommandView,
                crate::error::ErrorView,
            >(attempt.1) == admission(config@, Some(config@.token), attempt.0)),
        forall|name: Seq<char>| #[trigger]
            config@.compositions.contains_key(name) ==> exists|position: nat|
                position < config@.names.len() && (#[trigger] attempt_at(config@, position))
                    == Some((name, redeploy_command(config@.compositions[name]))),
        attempt_at(config@, config@.names.len()) is None,
{
    config.lemma_names_are_keys();
    assert forall|position: nat| position < config@.names.len() implies (#[trigger] attempt_at(
        config@,
        position,
    ) matches Some(attempt) && config@.compositions.contains_key(attempt.0) && Ok::<
        CommandView,
        crate::error::ErrorView,
    >(attempt.1) == admission(config@, Some(config@.token), attempt.0)) by {
        let name = config@.names[position as int];
        assert(config@.names.to_set().contains(name));
    }
    assert forall|name: Seq<char>| #[trigger]
        config@.compositions.contains_key(name) implies exists|position: nat|
        position < config@.names.len() && (#[trigger] attempt_at(config@, position)) == Some(
            (name, redeploy_command(config@.compositions[name])),
        ) by {
        assert(config@.names.to_set().contains(name));
        let k = config@.names.index_of(name);
        assert(attempt_at(config@, k as nat) == Some(
            (name, redeploy_command(config@.compositions[name])),
        ));
    }
}

} // verus!
