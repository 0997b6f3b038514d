//! The whole configuration: named motors, trajectories and sequences.

use vstd::prelude::*;

use super::motor::MotorConfig;
use super::tables::{
    configured_trajectory_entries, configured_trajectory_get, configured_trajectory_insert,
    configured_trajectory_new, configured_trajectory_to_vec, motor_entries, motor_get, motor_insert,
    motor_new, motor_to_vec, sequence_entries, sequence_get, sequence_insert, sequence_new,
    sequence_to_vec, ConfiguredTrajectoryTable, MotorTable, SequenceTable, MAX_CONFIGURED_TRAJECTORIES,
    MAX_MOTORS, MAX_SEQUENCES,
};
use super::trajectory::{TrajectoryConfig, WaypointTrajectory};

verus! {

/// Whether some entry is named `name`.
pub open spec fn has_name<T>(entries: Seq<(String, T)>, name: Seq<char>) -> bool {
    exists|i: int| 0 <= i < entries.len() && (#[trigger] entries[i]).0@ == name
}

/// Whether no two entries share a name.
pub open spec fn distinct_names<T>(entries: Seq<(String, T)>) -> bool {
    forall|i: int, j: int|
        0 <= i < j < entries.len() ==> (#[trigger] entries[i]).0@ != (#[trigger] entries[j]).0@
}

/// Whether every entry named `name` satisfies `f`.
pub open spec fn each_named<T>(
    entries: Seq<(String, T)>,
    name: Seq<char>,
    f: spec_fn(int) -> bool,
) -> bool {
    forall|i: int| 0 <= i < entries.len() && (#[trigger] entries[i]).0@ == name ==> f(i)
}

/// Names of the entries, in order.
pub fn names_of<T>(entries: &Vec<(String, T)>) -> (r: Vec<String>)
    ensures
        r@.len() == entries@.len(),
        forall|i: int| 0 <= i < r@.len() ==> (#[trigger] r@[i])@ == entries@[i].0@,
{
    let mut r: Vec<String> = Vec::new();
    let mut i: usize = 0;
    while i < entries.len()
        invariant
            0 <= i <= entries@.len(),
            r@.len() == i,
            forall|j: int| 0 <= j < i ==> (#[trigger] r@[j])@ == entries@[j].0@,
        decreases entries@.len() - i,
    {
        r.push(entries[i].0.clone());
        i = i + 1;
    }
    r
}

/// What a configuration holds: its three tables' entries.
pub struct SystemConfigView {
    /// Motors by name, in order.
    pub motors: Seq<(String, MotorConfig)>,
    /// Single-target trajectories by name, in order.
    pub trajectories: Seq<(String, TrajectoryConfig)>,
    /// Waypoint sequences by name, in order.
    pub sequences: Seq<(String, WaypointTrajectory)>,
}

/// Root of the configuration: motors, trajectories and waypoint sequences,
/// each by name.
pub struct SystemConfig {
    motors: MotorTable,
    trajectories: ConfiguredTrajectoryTable,
    sequences: SequenceTable,
}

impl View for SystemConfig {
    type V = SystemConfigView;

    closed spec fn view(&self) -> SystemConfigView {
        SystemConfigView {
            motors: motor_entries(self.motors),
            trajectories: configured_trajectory_entries(self.trajectories),
            sequences: sequence_entries(self.sequences),
        }
    }
}

impl SystemConfig {
    /// A configuration with nothing in it.
    pub fn new() -> (r: Self)
        ensures
            r@.motors.len() == 0,
            r@.trajectories.len() == 0,
            r@.sequences.len() == 0,
    {
        SystemConfig { motors: motor_new(), trajectories: configured_trajectory_new(), sequences: sequence_new() }
    }

    /// Adds motor `name`, or replaces the one of that name in its place; a
    /// new name beyond the table's capacity comes back with its value.
    pub fn insert_motor(&mut self, name: String, value: MotorConfig) -> (r: Result<Option<MotorConfig>, (String, MotorConfig)>)
        ensures
            forall|i: int|
                0 <= i < old(self)@.motors.len() && (#[trigger] old(self)@.motors[i]).0@ == name@
                    ==> (r matches Ok(Some(v)) && v == old(self)@.motors[i].1 && final(self)@.motors
                    == old(self)@.motors.update(i, (old(self)@.motors[i].0, value))),
            !has_name(old(self)@.motors, name@) && old(self)@.motors.len() < MAX_MOTORS ==> (r matches Ok(
                None,
            ) && final(self)@.motors == old(self)@.motors.push((name, value))),
            !has_name(old(self)@.motors, name@) && old(self)@.motors.len() >= MAX_MOTORS ==> (r matches Err(
                p,
            ) && p == (name, value) && final(self)@.motors == old(self)@.motors),
            final(self)@.trajectories == old(self)@.trajectories,
            final(self)@.sequences == old(self)@.sequences,
    {
        motor_insert(&mut self.motors, name, value)
    }

    /// Adds trajectory `name`, or replaces the one of that name in its place; a
    /// new name beyond the table's capacity comes back with its value.
    pub fn insert_trajectory(&mut self, name: String, value: TrajectoryConfig) -> (r: Result<Option<TrajectoryConfig>, (String, TrajectoryConfig)>)
        ensures
            forall|i: int|
                0 <= i < old(self)@.trajectories.len() && (#[trigger] old(self)@.trajectories[i]).0@ == name@
                    ==> (r matches Ok(Some(v)) && v == old(self)@.trajectories[i].1 && final(self)@.trajectories
                    == old(self)@.trajectories.update(i, (old(self)@.trajectories[i].0, value))),
            !has_name(old(self)@.trajectories, name@) && old(self)@.trajectories.len() < MAX_CONFIGURED_TRAJECTORIES ==> (r matches Ok(
                None,
            ) && final(self)@.trajectories == old(self)@.trajectories.push((name, value))),
            !has_name(old(self)@.trajectories, name@) && old(self)@.trajectories.len() >= MAX_CONFIGURED_TRAJECTORIES ==> (r matches Err(
                p,
            ) && p == (name, value) && final(self)@.trajectories == old(self)@.trajectories),
            final(self)@.motors == old(self)@.motors,
            final(self)@.sequences == old(self)@.sequences,
    {
        configured_trajectory_insert(&mut self.trajectories, name, value)
    }

    /// Adds sequence `name`, or replaces the one of that name in its place; a
    /// new name beyond the table's capacity comes back with its value.
    pub fn insert_sequence(&mut self, name: String, value: WaypointTrajectory) -> (r: Result<Option<WaypointTrajectory>, (String, WaypointTrajectory)>)
        ensures
            forall|i: int|
                0 <= i < old(self)@.sequences.len() && (#[trigger] old(self)@.sequences[i]).0@ == name@
                    ==> (r matches Ok(Some(v)) && v == old(self)@.sequences[i].1 && final(self)@.sequences
                    == old(self)@.sequences.update(i, (old(self)@.sequences[i].0, value))),
            !has_name(old(self)@.sequences, name@) && old(self)@.sequences.len() < MAX_SEQUENCES ==> (r matches Ok(
                None,
            ) && final(self)@.sequences == old(self)@.sequences.push((name, value))),
            !has_name(old(self)@.sequences, name@) && old(self)@.sequences.len() >= MAX_SEQUENCES ==> (r matches Err(
                p,
            ) && p == (name, value) && final(self)@.sequences == old(self)@.sequences),
            final(self)@.motors == old(self)@.motors,
            final(self)@.trajectories == old(self)@.trajectories,
    {
        sequence_insert(&mut self.sequences, name, value)
    }

    /// The motor named `name`.
    pub fn motor(&self, name: &str) -> (r: Option<&MotorConfig>)
        ensures
            r is None <==> !has_name(self@.motors, name@),
            forall|i: int|
                0 <= i < self@.motors.len() && (#[trigger] self@.motors[i]).0@ == name@ ==> r == Some(
                    &self@.motors[i].1,
                ),
    {
        motor_get(&self.motors, name)
    }

    /// Names of the motors, in order.
    pub fn motor_names(&self) -> (r: Vec<String>)
        ensures
            r@.len() == self@.motors.len(),
            forall|i: int| 0 <= i < r@.len() ==> (#[trigger] r@[i])@ == self@.motors[i].0@,
    {
        names_of(&motor_to_vec(&self.motors))
    }

    /// The motors with their names, in order.
    pub fn motors(&self) -> (r: Vec<(String, MotorConfig)>)
        ensures
            r@ == self@.motors,
            distinct_names(r@),
    {
        motor_to_vec(&self.motors)
    }

    /// The trajectory named `name`.
    pub fn trajectory(&self, name: &str) -> (r: Option<&TrajectoryConfig>)
        ensures
            r is None <==> !has_name(self@.trajectories, name@),
            forall|i: int|
                0 <= i < self@.trajectories.len() && (#[trigger] self@.trajectories[i]).0@ == name@ ==> r == Some(
                    &self@.trajectories[i].1,
                ),
    {
        configured_trajectory_get(&self.trajectories, name)
    }

    /// Names of the trajectories, in order.
    pub fn trajectory_names(&self) -> (r: Vec<String>)
        ensures
            r@.len() == self@.trajectories.len(),
            forall|i: int| 0 <= i < r@.len() ==> (#[trigger] r@[i])@ == self@.trajectories[i].0@,
    {
        names_of(&configured_trajectory_to_vec(&self.trajectories))
    }

    /// The trajectories with their names, in order.
    pub fn trajectories(&self) -> (r: Vec<(String, TrajectoryConfig)>)
        ensures
            r@ == self@.trajectories,
            distinct_names(r@),
    {
        configured_trajectory_to_vec(&self.trajectories)
    }

    /// The sequence named `name`.
    pub fn sequence(&self, name: &str) -> (r: Option<&WaypointTrajectory>)
        ensures
            r is None <==> !has_name(self@.sequences, name@),
            forall|i: int|
                0 <= i < self@.sequences.len() && (#[trigger] self@.sequences[i]).0@ == name@ ==> r == Some(
                    &self@.sequences[i].1,
                ),
    {
        sequence_get(&self.sequences, name)
    }

    /// Names of the sequences, in order.
    pub fn sequence_names(&self) -> (r: Vec<String>)
        ensures
            r@.len() == self@.sequences.len(),
            forall|i: int| 0 <= i < r@.len() ==> (#[trigger] r@[i])@ == self@.sequences[i].0@,
    {
        names_of(&sequence_to_vec(&self.sequences))
    }

    /// The sequences with their names, in order.
    pub fn sequences(&self) -> (r: Vec<(String, WaypointTrajectory)>)
        ensures
            r@ == self@.sequences,
            distinct_names(r@),
    {
        sequence_to_vec(&self.sequences)
    }
}

impl Default for SystemConfig {
    /// An empty configuration.
    fn default() -> (r: Self)
        ensures
            r@.motors.len() == 0,
            r@.trajectories.len() == 0,
            r@.sequences.len() == 0,
    {
        SystemConfig::new()
    }
}

} // verus!
