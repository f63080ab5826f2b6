//! The process-wide configuration: built once, never changed afterwards.

use vstd::prelude::*;
use crate::registry::{ManagedComposition, Registry};

verus! {

/// The port the trigger listens on when the configuration names none.
pub fn default_port() -> (port: u16)
    ensures
        port == 8080,
{
    8080
}

/// What a configuration holds, as mathematical values.
pub struct ConfigView {
    pub port: u16,
    pub token: Seq<char>,
    pub force_update_interval: Option<u64>,
    pub prune_interval: Option<u64>,
    /// Each registered name with its working directory.
    pub compositions: Map<Seq<char>, Seq<char>>,
    /// The registered names in the order a sweep visits them.
    pub names: Seq<Seq<char>>,
}

/// The coordinator's configuration.
#[derive(Debug)]
pub struct Config {
    port: u16,
    token: String,
    force_update_interval: Option<u64>,
    prune_interval: Option<u64>,
    extra: Registry,
}

/// A background task that the configuration asks for.
#[derive(Debug, Clone, Copy, PartialEq, Eq, Structural)]
pub enum Worker {
    /// Redeploy every registered composition each `secs` seconds.
    RedeployAll { secs: u64 },
    /// Prune unused images each `secs` seconds.
    Prune { secs: u64 },
}

/// The mapping that a list of declared compositions spells: each name with
/// the directory of its last declaration.
pub open spec fn declared_map(entries: Seq<(String, String)>) -> Map<Seq<char>, Seq<char>>
    decreases entries.len(),
{
    if entries.len() == 0 {
        Map::empty()
    } else {
        declared_map(entries.drop_last()).insert(entries.last().0@, entries.last().1@)
    }
}

/// The names that a list of declared compositions holds, each once, in the
/// order of first declaration.
pub open spec fn declared_names(entries: Seq<(String, String)>) -> Seq<Seq<char>>
    decreases entries.len(),
{
    if entries.len() == 0 {
        Seq::empty()
    } else {
        let before = declared_names(entries.drop_last());
        if before.contains(entries.last().0@) {
            before
        } else {
            before.push(entries.last().0@)
        }
    }
}

/// The background tasks that a pair of optional intervals asks for: the
/// redeploy sweep first, then the prune, each only if its interval is set.
pub open spec fn planned_workers(
    force_update_interval: Option<u64>,
    prune_interval: Option<u64>,
) -> Seq<Worker> {
    let sweep = match force_update_interval {
        Some(secs) => seq![Worker::RedeployAll { secs }],
        None => Seq::<Worker>::empty(),
    };
    let prune = match prune_interval {
        Some(secs) => seq![Worker::Prune { secs }],
        None => Seq::<Worker>::empty(),
    };
    sweep + prune
}

impl View for Config {
    type V = ConfigView;

    closed spec fn view(&self) -> ConfigView {
        ConfigView {
            port: self.port,
            token: self.token@,
            force_update_interval: self.force_update_interval,
            prune_interval: self.prune_interval,
            compositions: self.extra@,
            names: self.extra.names(),
        }
    }
}

impl Config {
    /// The registry is well formed and the view's names are its keys.
    pub closed spec fn wf(&self) -> bool {
        self.extra.wf()
    }

    /// Builds the configuration from its loaded parts.
    ///
    /// `compositions` lists each declared composition as its name and its
    /// working directory. A name declared twice keeps its first place and its
    /// last directory.
    pub fn new(
        port: u16,
        token: String,
        force_update_interval: Option<u64>,
        prune_interval: Option<u64>,
        compositions: Vec<(String, String)>,
    ) -> (config: Config)
        ensures
            config.wf(),
            config@.port == port,
            config@.token == token@,
            config@.force_update_interval == force_update_interval,
            config@.prune_interval == prune_interval,
            config@.compositions == declared_map(compositions@),
            config@.names == declared_names(compositions@),
    {
        let mut extra = Registry::new();
        let mut i: usize = 0;
        while i < compositions.len()
            invariant
                i <= compositions@.len(),
                extra.wf(),
                extra@ == declared_map(compositions@.take(i as int)),
                extra.names() == declared_names(compositions@.take(i as int)),
            decreases compositions@.len() - i,
        {
            let name = compositions[i].0.clone();
            let work = compositions[i].1.clone();
            proof {
                let next = compositions@.take(i + 1);
                assert(next.drop_last() =~= compositions@.take(i as int));
                assert(next.last() == compositions@[i as int]);
            }
            extra.insert(name, ManagedComposition::new(work));
            i += 1;
        }
        proof {
            assert(compositions@.take(i as int) =~= compositions@);
        }
        Config { port, token, force_update_interval, prune_interval, extra }
    }

    /// The port the trigger listens on.
    pub fn port(&self) -> (port: u16)
        ensures
            port == self@.port,
    {
        self.port
    }

    /// The shared secret that a trigger must present.
    pub fn token(&self) -> (token: &str)
        ensures
            token@ == self@.token,
    {
        self.token.as_str()
    }

    /// The period of the redeploy sweep in seconds, if one is configured.
    pub fn force_update_interval(&self) -> (secs: Option<u64>)
        ensures
            secs == self@.force_update_interval,
    {
        self.force_update_interval
    }

    /// The period of the image prune in seconds, if one is configured.
    pub fn prune_interval(&self) -> (secs: Option<u64>)
        ensures
            secs == self@.prune_interval,
    {
        self.prune_interval
    }

    /// The registered compositions.
    pub fn registry(&self) -> (registry: &Registry)
        requires
            self.wf(),
        ensures
            registry.wf(),
            registry@ == self@.compositions,
            registry.names() == self@.names,
    {
        &self.extra
    }

    /// The background tasks to start: a task for each interval that is
    /// configured, and none for one that is absent.
    pub fn workers(&self) -> (workers: Vec<Worker>)
        ensures
            workers@ == planned_workers(self@.force_update_interval, self@.prune_interval),
    {
        let mut workers: Vec<Worker> = Vec::new();
        if let Some(secs) = self.force_update_interval {
            workers.push(Worker::RedeployAll { secs });
        }
        if let Some(secs) = self.prune_interval {
            workers.push(Worker::Prune { secs });
        }
        assert(workers@ =~= planned_workers(self@.force_update_interval, self@.prune_interval));
        workers
    }

    /// In a well-formed configuration the names are exactly the keys of the
    /// composition map, each listed once.
    pub proof fn lemma_names_are_keys(&self)
        requires
            self.wf(),
        ensures
            self@.names.no_duplicates(),
            self@.names.to_set() == self@.compositions.dom(),
            self@.compositions.dom().len() == self@.names.len(),
    {
        self.extra.lemma_domain();
    }
}

/// A periodic task runs only if its interval is configured: without a
/// redeploy interval no sweep task is planned, and without a prune interval
/// no prune task is.
pub proof fn lemma_absent_interval_plans_no_task(
    force_update_interval: Option<u64>,
    prune_interval: Option<u64>,
)
    ensures
        force_update_interval is None ==> forall|i: int|
            0 <= i < planned_workers(force_update_interval, prune_interval).len()
                ==> !(#[trigger] planned_workers(force_update_interval, prune_interval)[i]
                is RedeployAll),
        prune_interval is None ==> forall|i: int|
            0 <= i < planned_workers(force_update_interval, prune_interval).len()
                ==> !(#[trigger] planned_workers(force_update_interval, prune_interval)[i]
                is Prune),
        force_update_interval is None && prune_interval is None ==> planned_workers(
            force_update_interval,
            prune_interval,
        ) == Seq::<Worker>::empty(),
{
}

/// Every declared name is a key of the declared map, and the declared names
/// are exactly its keys.
pub proof fn lemma_declared_names_are_keys(entries: Seq<(String, String)>)
    ensures
        declared_names(entries).no_duplicates(),
        forall|name: Seq<char>|
            declared_names(entries).contains(name) <==> #[trigger] declared_map(
                entries,
            ).contains_key(name),
    decreases entries.len(),
{
    if entries.len() > 0 {
        let rest = entries.drop_last();
        lemma_declared_names_are_keys(rest);
        let before = declared_names(rest);
        let name = entries.last().0@;
        assert forall|n: Seq<char>|
            declared_names(entries).contains(n) <==> #[trigger] declared_map(entries).contains_key(
                n,
            ) by {
            assert(declared_map(entries) == declared_map(rest).insert(name, entries.last().1@));
            assert(before.contains(n) <==> declared_map(rest).contains_key(n));
            assert(before.contains(name) <==> declared_map(rest).contains_key(name));
            if before.contains(name) {
                assert(declared_names(entries) == before);
            } else {
                let after = before.push(name);
                assert(declared_names(entries) == after);
                if before.contains(n) {
                    let k = before.index_of(n);
                    assert(after[k] == n);
                }
                if n == name {
                    assert(after[before.len() as int] == n);
                }
                if after.contains(n) {
                    let k = after.index_of(n);
                    if k < before.len() {
                        assert(before[k] == n);
                    }
                }
            }
        }
    }
}

/// Loading a document whose compositions all have different names yields a
/// registry of exactly those names, in their order, each resolving to its
/// declared working directory.
pub proof fn lemma_distinct_entries_round_trip(entries: Seq<(String, String)>)
    requires
        forall|i: int, j: int|
            0 <= i < j < entries.len() ==> (#[trigger] entries[i]).0@ != (#[trigger] entries[j]).0@,
    ensures
        declared_names(entries).len() == entries.len(),
        forall|i: int| 0 <= i < entries.len() ==> declared_names(entries)[i] == (#[trigger] entries[i]).0@,
        declared_map(entries).dom().finite(),
        declared_map(entries).dom().len() == entries.len(),
        forall|i: int|
            0 <= i < entries.len() ==> declared_map(entries).contains_key((#[trigger] entries[i]).0@)
                && declared_map(entries)[entries[i].0@] == entries[i].1@,
    decreases entries.len(),
{
    if entries.len() > 0 {
        let rest = entries.drop_last();
        let name = entries.last().0@;
        lemma_distinct_entries_round_trip(rest);
        lemma_declared_names_are_keys(rest);
        let before = declared_names(rest);
        assert(!before.contains(name)) by {
            if before.contains(name) {
                let k = before.index_of(name);
                assert(before[k] == rest[k].0@);
                assert(rest[k] == entries[k]);
                assert(entries[k].0@ != entries[entries.len() - 1].0@);
            }
        }
        assert(!declared_map(rest).contains_key(name));
        assert forall|i: int| 0 <= i < entries.len() implies declared_map(entries).contains_key(
            (#[trigger] entries[i]).0@,
        ) && declared_map(entries)[entries[i].0@] == entries[i].1@ by {
            if i < rest.len() {
                assert(rest[i] == entries[i]);
                assert(entries[i].0@ != entries[entries.len() - 1].0@);
            }
        }
        assert forall|i: int| 0 <= i < entries.len() implies declared_names(entries)[i] == (
        #[trigger] entries[i]).0@ by {
            if i < rest.len() {
                assert(rest[i] == entries[i]);
            }
        }
    } else {
        assert(declared_map(entries).dom() =~= Set::<Seq<char>>::empty());
    }
}

} // verus!
