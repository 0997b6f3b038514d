//! Named trajectories, looked up by name.

use vstd::prelude::*;
use vstd::string::StringExecFns;
use vstd::utf8::encode_utf8;

use crate::config::system::{distinct_names, each_named, has_name, names_of, SystemConfig};
use crate::config::tables::{
    trajectory_clear, trajectory_entries, trajectory_get, trajectory_insert, trajectory_len,
    trajectory_new, trajectory_remove, trajectory_to_vec, TrajectoryTable, MAX_TRAJECTORIES,
};
use crate::config::trajectory::TrajectoryConfig;
use crate::error::{Error, TrajectoryError};

verus! {

/// Longest trajectory name, in bytes.
pub const MAX_TRAJECTORY_NAME_BYTES: usize = 32;

/// The names of `entries`, each followed by `, ` but the last.
pub open spec fn joined_names(entries: Seq<(String, TrajectoryConfig)>) -> Seq<char>
    decreases entries.len(),
{
    if entries.len() == 0 {
        Seq::empty()
    } else if entries.len() == 1 {
        entries[0].0@
    } else {
        joined_names(entries.drop_last()) + ", "@ + entries.last().0@
    }
}

/// Trajectories by name, in the order they were first registered.
pub struct TrajectoryRegistry {
    table: TrajectoryTable,
}

impl View for TrajectoryRegistry {
    type V = Seq<(String, TrajectoryConfig)>;

    closed spec fn view(&self) -> Seq<(String, TrajectoryConfig)> {
        trajectory_entries(self.table)
    }
}

impl TrajectoryRegistry {
    /// An empty registry.
    pub fn new() -> (r: Self)
        ensures
            r@.len() == 0,
    {
        TrajectoryRegistry { table: trajectory_new() }
    }

    /// Registers `trajectory` under `name`, replacing one of the same name in
    /// its place. A name longer than 32 bytes is refused, and so is a new name
    /// when 32 are held.
    pub fn register(&mut self, name: &str, trajectory: TrajectoryConfig) -> (r: Result<(), Error>)
        ensures
            name.len() > MAX_TRAJECTORY_NAME_BYTES ==> (r matches Err(
                Error::Trajectory(TrajectoryError::InvalidName(m)),
            ) && m@ == "name too long"@ && final(self)@ == old(self)@),
            name.len() <= MAX_TRAJECTORY_NAME_BYTES ==> {
                if has_name(old(self)@, name@) {
                    &&& r is Ok
                    &&& each_named(
                        old(self)@,
                        name@,
                        |i: int| final(self)@ == old(self)@.update(i, (old(self)@[i].0, trajectory)),
                    )
                } else if old(self)@.len() >= MAX_TRAJECTORIES {
                    &&& r matches Err(Error::Trajectory(TrajectoryError::InvalidName(m)))
                    &&& m@ == "registry full"@
                    &&& final(self)@ == old(self)@
                } else {
                    &&& r is Ok
                    &&& final(self)@.len() == old(self)@.len() + 1
                    &&& final(self)@.drop_last() == old(self)@
                    &&& final(self)@.last().0@ == name@
                    &&& final(self)@.last().1 == trajectory
                }
            },
    {
        if name.len() > MAX_TRAJECTORY_NAME_BYTES {
            return Err(Error::Trajectory(TrajectoryError::InvalidName("name too long".to_owned())));
        }
        let key = name.to_owned();
        match trajectory_insert(&mut self.table, key, trajectory) {
            Ok(_) => {
                proof {
                    if !has_name(old(self)@, name@) {
                        assert(self@.drop_last() =~= old(self)@);
                    }
                }
                Ok(())
            },
            Err(_) => Err(Error::Trajectory(TrajectoryError::InvalidName("registry full".to_owned()))),
        }
    }

    /// The trajectory named `name`.
    pub fn get(&self, name: &str) -> (r: Option<&TrajectoryConfig>)
        ensures
            r is None <==> !has_name(self@, name@),
            r matches Some(t) ==> each_named(self@, name@, |i: int| *t == self@[i].1),
    {
        trajectory_get(&self.table, name)
    }

    /// The trajectory named `name`, or an error that lists the names held:
    /// `'name' not found. Available: a, b`.
    pub fn get_or_error(&self, name: &str) -> (r: Result<&TrajectoryConfig, Error>)
        ensures
            has_name(self@, name@) ==> (r matches Ok(t) && each_named(
                self@,
                name@,
                |i: int| *t == self@[i].1,
            )),
            !has_name(self@, name@) ==> (r matches Err(
                Error::Trajectory(TrajectoryError::InvalidName(m)),
            ) && m@ == "'"@ + name@ + "' not found. Available: "@ + joined_names(self@)),
    {
        match self.get(name) {
            Some(t) => Ok(t),
            None => {
                let entries = trajectory_to_vec(&self.table);
                let mut msg = "'".to_owned();
                msg.append(name);
                msg.append("' not found. Available: ");
                let mut i: usize = 0;
                while i < entries.len()
                    invariant
                        0 <= i <= self@.len(),
                        entries@ == self@,
                        msg@ == "'"@ + name@ + "' not found. Available: "@ + joined_names(
                            self@.subrange(0, i as int),
                        ),
                    decreases self@.len() - i,
                {
                    if i > 0 {
                        msg.append(", ");
                    }
                    msg.append(entries[i].0.as_str());
                    proof {
                        let s = self@.subrange(0, i + 1);
                        assert(s.drop_last() =~= self@.subrange(0, i as int));
                        if i == 0 {
                            assert(self@.subrange(0, 0) =~= Seq::<(String, TrajectoryConfig)>::empty());
                        }
                    }
                    i = i + 1;
                }
                proof {
                    assert(self@.subrange(0, self@.len() as int) =~= self@);
                }
                Err(Error::Trajectory(TrajectoryError::InvalidName(msg)))
            },
        }
    }

    /// Whether a trajectory is named `name`.
    pub fn contains(&self, name: &str) -> (r: bool)
        ensures
            r == has_name(self@, name@),
    {
        trajectory_get(&self.table, name).is_some()
    }

    /// Removes the trajectory named `name` and returns it; the last entry
    /// takes its place.
    pub fn remove(&mut self, name: &str) -> (r: Option<TrajectoryConfig>)
        ensures
            !has_name(old(self)@, name@) ==> r is None && final(self)@ == old(self)@,
            has_name(old(self)@, name@) ==> each_named(
                old(self)@,
                name@,
                |i: int|
                    r == Some(old(self)@[i].1) && final(self)@ == old(self)@.update(
                        i,
                        old(self)@.last(),
                    ).drop_last(),
            ),
    {
        trajectory_remove(&mut self.table, name)
    }

    /// Number of trajectories.
    pub fn len(&self) -> (r: usize)
        ensures
            r == self@.len(),
    {
        trajectory_len(&self.table)
    }

    /// Whether the registry holds none.
    pub fn is_empty(&self) -> (r: bool)
        ensures
            r == (self@.len() == 0),
    {
        trajectory_len(&self.table) == 0
    }

    /// Names of the trajectories, in order.
    pub fn names(&self) -> (r: Vec<String>)
        ensures
            r@.len() == self@.len(),
            forall|i: int| 0 <= i < r@.len() ==> (#[trigger] r@[i])@ == self@[i].0@,
    {
        names_of(&trajectory_to_vec(&self.table))
    }

    /// The entries, in order.
    pub fn iter(&self) -> (r: Vec<(String, TrajectoryConfig)>)
        ensures
            r@ == self@,
    {
        trajectory_to_vec(&self.table)
    }

    /// Removes every trajectory.
    pub fn clear(&mut self)
        ensures
            final(self)@.len() == 0,
    {
        trajectory_clear(&mut self.table);
    }

    /// A registry of the trajectories of `config`, registered in order: those
    /// with a name longer than 32 bytes, and those past the first 32, are
    /// left out. See [`kept_trajectories`].
    pub fn from_config(config: &SystemConfig) -> (r: Self)
        ensures
            named_values(r@) == kept_trajectories(config@.trajectories),
    {
        let mut entries = config.trajectories();
        let ghost all = entries@;
        let total = entries.len();
        let mut registry = TrajectoryRegistry::new();
        let mut i: usize = 0;
        proof {
            assert(named_values(registry@) =~= kept_trajectories(all.take(0)));
        }
        while entries.len() > 0
            invariant
                all == config@.trajectories,
                distinct_names(all),
                0 <= i <= all.len(),
                all.len() == total,
                i + entries@.len() == all.len(),
                entries@ == all.skip(i as int),
                named_values(registry@) == kept_trajectories(all.take(i as int)),
            decreases entries@.len(),
        {
            let e = entries.remove(0);
            proof {
                assert(e == all[i as int]);
                assert(all.take(i + 1).drop_last() =~= all.take(i as int));
                lemma_kept_names(all.take(i as int));
                if has_name(registry@, e.0@) {
                    let k = choose|k: int| 0 <= k < registry@.len() && (#[trigger] registry@[k]).0@ == e.0@;
                    assert(named_values(registry@)[k].0 == e.0@);
                    let pre = all.take(i as int);
                    assert(kept_trajectories(pre)[k].0 == e.0@);
                    let j = choose|j: int|
                        0 <= j < pre.len() && (#[trigger] kept_trajectories(pre)[k]).0 == (
                        #[trigger] pre[j]).0@;
                    assert(pre[j] == all[j]);
                    assert(all[j].0@ == all[i as int].0@);
                }
            }
            let name = e.0.as_str();
            let _ = registry.register(name, e.1);
            proof {
                assert(named_values(registry@) =~= kept_trajectories(all.take(i + 1)));
            }
            i = i + 1;
            proof {
                assert(entries@ =~= all.skip(i as int));
            }
        }
        proof {
            assert(all.take(i as int) =~= all);
        }
        registry
    }
}

/// The names and values of `entries`.
pub open spec fn named_values(entries: Seq<(String, TrajectoryConfig)>) -> Seq<(Seq<char>, TrajectoryConfig)> {
    entries.map_values(|e: (String, TrajectoryConfig)| (e.0@, e.1))
}

/// What registering `entries` in order into an empty registry keeps: each
/// entry whose name is at most 32 bytes, while fewer than 32 are held (for
/// entries of distinct names).
pub open spec fn kept_trajectories(entries: Seq<(String, TrajectoryConfig)>) -> Seq<(Seq<char>, TrajectoryConfig)>
    decreases entries.len(),
{
    if entries.len() == 0 {
        Seq::empty()
    } else {
        let rest = kept_trajectories(entries.drop_last());
        let e = entries.last();
        if encode_utf8(e.0@).len() as usize > MAX_TRAJECTORY_NAME_BYTES || rest.len() >= MAX_TRAJECTORIES {
            rest
        } else {
            rest.push((e.0@, e.1))
        }
    }
}

/// Every name kept comes from the entries.
proof fn lemma_kept_names(entries: Seq<(String, TrajectoryConfig)>)
    ensures
        forall|k: int|
            0 <= k < kept_trajectories(entries).len() ==> exists|j: int|
                0 <= j < entries.len() && (#[trigger] kept_trajectories(entries)[k]).0 == (
                #[trigger] entries[j]).0@,
    decreases entries.len(),
{
    if entries.len() > 0 {
        let init = entries.drop_last();
        lemma_kept_names(init);
        assert forall|k: int| 0 <= k < kept_trajectories(entries).len() implies exists|j: int|
            0 <= j < entries.len() && (#[trigger] kept_trajectories(entries)[k]).0 == (
            #[trigger] entries[j]).0@ by {
            if k < kept_trajectories(init).len() {
                let j = choose|j: int|
                    0 <= j < init.len() && (#[trigger] kept_trajectories(init)[k]).0 == (
                    #[trigger] init[j]).0@;
                assert(entries[j] == init[j]);
            } else {
                assert(kept_trajectories(entries)[k].0 == entries[entries.len() - 1].0@);
            }
        }
    }
}

impl Default for TrajectoryRegistry {
    /// An empty registry.
    fn default() -> (r: Self)
        ensures
            r@.len() == 0,
    {
        TrajectoryRegistry::new()
    }
}

} // verus!
