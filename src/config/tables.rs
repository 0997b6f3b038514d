//! Name-keyed tables of motors, trajectories and waypoint sequences.
//!
//! Each table keeps its entries in insertion order with unique names, in a
//! heapless fixed-capacity index map; the functions here are the whole of
//! what the library uses of it.

use vstd::prelude::*;

use super::motor::MotorConfig;
use super::system::{distinct_names, has_name};
use super::trajectory::{TrajectoryConfig, WaypointTrajectory};

verus! {

/// Most motors a configuration holds.
pub const MAX_MOTORS: usize = 8;

/// Most trajectories a registry holds.
pub const MAX_TRAJECTORIES: usize = 32;

/// Most trajectories a configuration holds.
pub const MAX_CONFIGURED_TRAJECTORIES: usize = 64;

/// Most waypoint sequences a configuration holds.
pub const MAX_SEQUENCES: usize = 16;

/// Motor descriptions by name, held in heapless's fixed-capacity index map.
#[verifier::external_body]
pub struct MotorTable {
    map: heapless::FnvIndexMap<String, MotorConfig, 8>,
}

/// What a table of motors holds: its entries in their order in the map.
pub uninterp spec fn motor_entries(t: MotorTable) -> Seq<(String, MotorConfig)>;

/// Relies on heapless's `IndexMap::new`: an empty map.
#[verifier::external_body]
pub(crate) fn motor_new() -> (r: MotorTable)
    ensures
        motor_entries(r) == Seq::<(String, MotorConfig)>::empty(),
{
    MotorTable { map: heapless::FnvIndexMap::new() }
}

/// Relies on heapless's `IndexMap::insert`: a key already held keeps its
/// place and takes the new value, whose old value comes back; a new key goes
/// last; a new key in a full map (8 entries) comes back with its value.
#[verifier::external_body]
pub(crate) fn motor_insert(t: &mut MotorTable, key: String, value: MotorConfig) -> (r: Result<Option<MotorConfig>, (String, MotorConfig)>)
    ensures
        forall|i: int|
            0 <= i < motor_entries(*old(t)).len() && (#[trigger] motor_entries(*old(t))[i]).0@ == key@
                ==> (r matches Ok(Some(v)) && v == motor_entries(*old(t))[i].1 && motor_entries(*final(t))
                == motor_entries(*old(t)).update(i, (motor_entries(*old(t))[i].0, value))),
        !has_name(motor_entries(*old(t)), key@) && motor_entries(*old(t)).len() < MAX_MOTORS ==> (r matches Ok(
            None,
        ) && motor_entries(*final(t)) == motor_entries(*old(t)).push((key, value))),
        !has_name(motor_entries(*old(t)), key@) && motor_entries(*old(t)).len() >= MAX_MOTORS ==> (r matches Err(
            p,
        ) && p == (key, value) && motor_entries(*final(t)) == motor_entries(*old(t))),
{
    t.map.insert(key, value)
}

/// Relies on heapless's `IndexMap::get`: the value of the entry with this
/// key, if any.
#[verifier::external_body]
pub(crate) fn motor_get<'a>(t: &'a MotorTable, name: &str) -> (r: Option<&'a MotorConfig>)
    ensures
        r is None <==> !has_name(motor_entries(*t), name@),
        forall|i: int|
            0 <= i < motor_entries(*t).len() && (#[trigger] motor_entries(*t)[i]).0@ == name@ ==> r == Some(
                &motor_entries(*t)[i].1,
            ),
{
    t.map.get(name)
}

/// Relies on heapless's `IndexMap::iter`: the entries in the map's order,
/// whose keys are distinct.
#[verifier::external_body]
pub(crate) fn motor_to_vec(t: &MotorTable) -> (r: Vec<(String, MotorConfig)>)
    ensures
        r@ == motor_entries(*t),
        distinct_names(r@),
{
    t.map.iter().map(|(k, v)| (k.clone(), v.clone())).collect()
}

/// Trajectories by name, held in heapless's fixed-capacity index map.
#[verifier::external_body]
pub struct TrajectoryTable {
    map: heapless::FnvIndexMap<String, TrajectoryConfig, 32>,
}

/// What a table of trajectories holds: its entries in their order in the map.
pub uninterp spec fn trajectory_entries(t: TrajectoryTable) -> Seq<(String, TrajectoryConfig)>;

/// Relies on heapless's `IndexMap::new`: an empty map.
#[verifier::external_body]
pub(crate) fn trajectory_new() -> (r: TrajectoryTable)
    ensures
        trajectory_entries(r) == Seq::<(String, TrajectoryConfig)>::empty(),
{
    TrajectoryTable { map: heapless::FnvIndexMap::new() }
}

/// Relies on heapless's `IndexMap::insert`: a key already held keeps its
/// place and takes the new value, whose old value comes back; a new key goes
/// last; a new key in a full map (32 entries) comes back with its value.
#[verifier::external_body]
pub(crate) fn trajectory_insert(t: &mut TrajectoryTable, key: String, value: TrajectoryConfig) -> (r: Result<Option<TrajectoryConfig>, (String, TrajectoryConfig)>)
    ensures
        forall|i: int|
            0 <= i < trajectory_entries(*old(t)).len() && (#[trigger] trajectory_entries(*old(t))[i]).0@ == key@
                ==> (r matches Ok(Some(v)) && v == trajectory_entries(*old(t))[i].1 && trajectory_entries(*final(t))
                == trajectory_entries(*old(t)).update(i, (trajectory_entries(*old(t))[i].0, value))),
        !has_name(trajectory_entries(*old(t)), key@) && trajectory_entries(*old(t)).len() < MAX_TRAJECTORIES ==> (r matches Ok(
            None,
        ) && trajectory_entries(*final(t)) == trajectory_entries(*old(t)).push((key, value))),
        !has_name(trajectory_entries(*old(t)), key@) && trajectory_entries(*old(t)).len() >= MAX_TRAJECTORIES ==> (r matches Err(
            p,
        ) && p == (key, value) && trajectory_entries(*final(t)) == trajectory_entries(*old(t))),
{
    t.map.insert(key, value)
}

/// Relies on heapless's `IndexMap::get`: the value of the entry with this
/// key, if any.
#[verifier::external_body]
pub(crate) fn trajectory_get<'a>(t: &'a TrajectoryTable, name: &str) -> (r: Option<&'a TrajectoryConfig>)
    ensures
        r is None <==> !has_name(trajectory_entries(*t), name@),
        forall|i: int|
            0 <= i < trajectory_entries(*t).len() && (#[trigger] trajectory_entries(*t)[i]).0@ == name@ ==> r == Some(
                &trajectory_entries(*t)[i].1,
            ),
{
    t.map.get(name)
}

/// Relies on heapless's `IndexMap::iter`: the entries in the map's order,
/// whose keys are distinct.
#[verifier::external_body]
pub(crate) fn trajectory_to_vec(t: &TrajectoryTable) -> (r: Vec<(String, TrajectoryConfig)>)
    ensures
        r@ == trajectory_entries(*t),
        distinct_names(r@),
{
    t.map.iter().map(|(k, v)| (k.clone(), v.clone())).collect()
}

/// Configured trajectories by name, held in heapless's fixed-capacity index map.
#[verifier::external_body]
pub struct ConfiguredTrajectoryTable {
    map: heapless::FnvIndexMap<String, TrajectoryConfig, 64>,
}

/// What a table of configured trajectories holds: its entries in their order in the map.
pub uninterp spec fn configured_trajectory_entries(t: ConfiguredTrajectoryTable) -> Seq<(String, TrajectoryConfig)>;

/// Relies on heapless's `IndexMap::new`: an empty map.
#[verifier::external_body]
pub(crate) fn configured_trajectory_new() -> (r: ConfiguredTrajectoryTable)
    ensures
        configured_trajectory_entries(r) == Seq::<(String, TrajectoryConfig)>::empty(),
{
    ConfiguredTrajectoryTable { map: heapless::FnvIndexMap::new() }
}

/// Relies on heapless's `IndexMap::insert`: a key already held keeps its
/// place and takes the new value, whose old value comes back; a new key goes
/// last; a new key in a full map (64 entries) comes back with its value.
#[verifier::external_body]
pub(crate) fn configured_trajectory_insert(t: &mut ConfiguredTrajectoryTable, key: String, value: TrajectoryConfig) -> (r: Result<Option<TrajectoryConfig>, (String, TrajectoryConfig)>)
    ensures
        forall|i: int|
            0 <= i < configured_trajectory_entries(*old(t)).len() && (#[trigger] configured_trajectory_entries(*old(t))[i]).0@ == key@
                ==> (r matches Ok(Some(v)) && v == configured_trajectory_entries(*old(t))[i].1 && configured_trajectory_entries(*final(t))
                == configured_trajectory_entries(*old(t)).update(i, (configured_trajectory_entries(*old(t))[i].0, value))),
        !has_name(configured_trajectory_entries(*old(t)), key@) && configured_trajectory_entries(*old(t)).len() < MAX_CONFIGURED_TRAJECTORIES ==> (r matches Ok(
            None,
        ) && configured_trajectory_entries(*final(t)) == configured_trajectory_entries(*old(t)).push((key, value))),
        !has_name(configured_trajectory_entries(*old(t)), key@) && configured_trajectory_entries(*old(t)).len() >= MAX_CONFIGURED_TRAJECTORIES ==> (r matches Err(
            p,
        ) && p == (key, value) && configured_trajectory_entries(*final(t)) == configured_trajectory_entries(*old(t))),
{
    t.map.insert(key, value)
}

/// Relies on heapless's `IndexMap::get`: the value of the entry with this
/// key, if any.
#[verifier::external_body]
pub(crate) fn configured_trajectory_get<'a>(t: &'a ConfiguredTrajectoryTable, name: &str) -> (r: Option<&'a TrajectoryConfig>)
    ensures
        r is None <==> !has_name(configured_trajectory_entries(*t), name@),
        forall|i: int|
            0 <= i < configured_trajectory_entries(*t).len() && (#[trigger] configured_trajectory_entries(*t)[i]).0@ == name@ ==> r == Some(
                &configured_trajectory_entries(*t)[i].1,
            ),
{
    t.map.get(name)
}

/// Relies on heapless's `IndexMap::iter`: the entries in the map's order,
/// whose keys are distinct.
#[verifier::external_body]
pub(crate) fn configured_trajectory_to_vec(t: &ConfiguredTrajectoryTable) -> (r: Vec<(String, TrajectoryConfig)>)
    ensures
        r@ == configured_trajectory_entries(*t),
        distinct_names(r@),
{
    t.map.iter().map(|(k, v)| (k.clone(), v.clone())).collect()
}

/// Waypoint sequences by name, held in heapless's fixed-capacity index map.
#[verifier::external_body]
pub struct SequenceTable {
    map: heapless::FnvIndexMap<String, WaypointTrajectory, 16>,
}

/// What a table of sequences holds: its entries in their order in the map.
pub uninterp spec fn sequence_entries(t: SequenceTable) -> Seq<(String, WaypointTrajectory)>;

/// Relies on heapless's `IndexMap::new`: an empty map.
#[verifier::external_body]
pub(crate) fn sequence_new() -> (r: SequenceTable)
    ensures
        sequence_entries(r) == Seq::<(String, WaypointTrajectory)>::empty(),
{
    SequenceTable { map: heapless::FnvIndexMap::new() }
}

/// Relies on heapless's `IndexMap::insert`: a key already held keeps its
/// place and takes the new value, whose old value comes back; a new key goes
/// last; a new key in a full map (16 entries) comes back with its value.
#[verifier::external_body]
pub(crate) fn sequence_insert(t: &mut SequenceTable, key: String, value: WaypointTrajectory) -> (r: Result<Option<WaypointTrajectory>, (String, WaypointTrajectory)>)
    ensures
        forall|i: int|
            0 <= i < sequence_entries(*old(t)).len() && (#[trigger] sequence_entries(*old(t))[i]).0@ == key@
                ==> (r matches Ok(Some(v)) && v == sequence_entries(*old(t))[i].1 && sequence_entries(*final(t))
                == sequence_entries(*old(t)).update(i, (sequence_entries(*old(t))[i].0, value))),
        !has_name(sequence_entries(*old(t)), key@) && sequence_entries(*old(t)).len() < MAX_SEQUENCES ==> (r matches Ok(
            None,
        ) && sequence_entries(*final(t)) == sequence_entries(*old(t)).push((key, value))),
        !has_name(sequence_entries(*old(t)), key@) && sequence_entries(*old(t)).len() >= MAX_SEQUENCES ==> (r matches Err(
            p,
        ) && p == (key, value) && sequence_entries(*final(t)) == sequence_entries(*old(t))),
{
    t.map.insert(key, value)
}

/// Relies on heapless's `IndexMap::get`: the value of the entry with this
/// key, if any.
#[verifier::external_body]
pub(crate) fn sequence_get<'a>(t: &'a SequenceTable, name: &str) -> (r: Option<&'a WaypointTrajectory>)
    ensures
        r is None <==> !has_name(sequence_entries(*t), name@),
        forall|i: int|
            0 <= i < sequence_entries(*t).len() && (#[trigger] sequence_entries(*t)[i]).0@ == name@ ==> r == Some(
                &sequence_entries(*t)[i].1,
            ),
{
    t.map.get(name)
}

/// Relies on heapless's `IndexMap::iter`: the entries in the map's order,
/// whose keys are distinct.
#[verifier::external_body]
pub(crate) fn sequence_to_vec(t: &SequenceTable) -> (r: Vec<(String, WaypointTrajectory)>)
    ensures
        r@ == sequence_entries(*t),
        distinct_names(r@),
{
    t.map.iter().map(|(k, v)| (k.clone(), v.clone())).collect()
}

/// Relies on heapless's `IndexMap::remove` (a swap remove): the entry with
/// this key leaves, the last entry takes its place, and its value comes back.
#[verifier::external_body]
pub(crate) fn trajectory_remove(t: &mut TrajectoryTable, name: &str) -> (r: Option<TrajectoryConfig>)
    ensures
        !has_name(trajectory_entries(*old(t)), name@) ==> r is None && trajectory_entries(*final(t))
            == trajectory_entries(*old(t)),
        forall|i: int|
            0 <= i < trajectory_entries(*old(t)).len() && (#[trigger] trajectory_entries(*old(t))[i]).0@
                == name@ ==> r == Some(trajectory_entries(*old(t))[i].1) && trajectory_entries(
                *final(t),
            ) == trajectory_entries(*old(t)).update(i, trajectory_entries(*old(t)).last()).drop_last(),
{
    t.map.remove(name)
}

/// Relies on heapless's `IndexMap::len`: the number of entries.
#[verifier::external_body]
pub(crate) fn trajectory_len(t: &TrajectoryTable) -> (r: usize)
    ensures
        r == trajectory_entries(*t).len(),
{
    t.map.len()
}

/// Relies on heapless's `IndexMap::clear`: no entries left.
#[verifier::external_body]
pub(crate) fn trajectory_clear(t: &mut TrajectoryTable)
    ensures
        trajectory_entries(*final(t)) == Seq::<(String, TrajectoryConfig)>::empty(),
{
    t.map.clear()
}

} // verus!
