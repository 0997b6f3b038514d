//! Several motors and their trajectories from one configuration.

use vstd::prelude::*;

use super::builder::{StepperMotorBuilder, MAX_NAME_BYTES};
use super::driver::StepperMotor;
use super::state::Idle;
use crate::config::mechanical::MechanicalConstraints;
use crate::config::motor::MotorConfig;
use crate::config::system::{each_named, has_name, SystemConfig};
use crate::config::trajectory::TrajectoryConfig;
use crate::error::{ConfigError, Error};
use crate::trajectory::registry::{kept_trajectories, named_values, TrajectoryRegistry};

verus! {

/// Most motors a system registers.
pub const MAX_REGISTERED_MOTORS: usize = 8;

/// Registered motors' constraints by name, held in heapless's
/// fixed-capacity index map.
#[verifier::external_body]
pub struct RegisteredTable {
    map: heapless::FnvIndexMap<String, MechanicalConstraints, 8>,
}

/// What a table of registered motors holds: its entries in their order in
/// the map.
pub uninterp spec fn registered_entries(t: RegisteredTable) -> Seq<(String, MechanicalConstraints)>;

/// Relies on heapless's `IndexMap::new`: an empty map.
#[verifier::external_body]
fn registered_new() -> (r: RegisteredTable)
    ensures
        registered_entries(r) == Seq::<(String, MechanicalConstraints)>::empty(),
{
    RegisteredTable { map: heapless::FnvIndexMap::new() }
}

/// Relies on heapless's `IndexMap::insert`: a key already held keeps its
/// place and takes the new value; a new key goes last; a new key in a full
/// map (8 entries) is refused and the map is unchanged.
#[verifier::external_body]
fn registered_insert(t: &mut RegisteredTable, key: String, value: MechanicalConstraints) -> (r: bool)
    ensures
        forall|i: int|
            0 <= i < registered_entries(*old(t)).len() && (#[trigger] registered_entries(
                *old(t),
            )[i]).0@ == key@ ==> r && registered_entries(*final(t)) == registered_entries(
                *old(t),
            ).update(i, (registered_entries(*old(t))[i].0, value)),
        !has_name(registered_entries(*old(t)), key@) && registered_entries(*old(t)).len()
            < MAX_REGISTERED_MOTORS ==> r && registered_entries(*final(t)) == registered_entries(
            *old(t),
        ).push((key, value)),
        !has_name(registered_entries(*old(t)), key@) && registered_entries(*old(t)).len()
            >= MAX_REGISTERED_MOTORS ==> !r && registered_entries(*final(t)) == registered_entries(
            *old(t),
        ),
{
    t.map.insert(key, value).is_ok()
}

/// Relies on heapless's `IndexMap::get`: the value of the entry with this
/// key, if any.
#[verifier::external_body]
fn registered_get<'a>(t: &'a RegisteredTable, name: &str) -> (r: Option<&'a MechanicalConstraints>)
    ensures
        r is None <==> !has_name(registered_entries(*t), name@),
        forall|i: int|
            0 <= i < registered_entries(*t).len() && (#[trigger] registered_entries(*t)[i]).0@
                == name@ ==> r == Some(&registered_entries(*t)[i].1),
{
    t.map.get(name)
}

/// Relies on heapless's `IndexMap::len`: the number of entries.
#[verifier::external_body]
fn registered_len(t: &RegisteredTable) -> (r: usize)
    ensures
        r == registered_entries(*t).len(),
{
    t.map.len()
}

/// A configuration, its trajectories, and the motors registered so far.
pub struct MotorSystem {
    config: SystemConfig,
    registry: TrajectoryRegistry,
    registered_motors: RegisteredTable,
}

/// What a system holds.
pub struct MotorSystemView {
    /// The configuration.
    pub config: SystemConfig,
    /// Its trajectories by name.
    pub registry: Seq<(String, TrajectoryConfig)>,
    /// Registered motors by name, with their constraints.
    pub registered: Seq<(String, MechanicalConstraints)>,
}

impl View for MotorSystem {
    type V = MotorSystemView;

    closed spec fn view(&self) -> MotorSystemView {
        MotorSystemView {
            config: self.config,
            registry: self.registry@,
            registered: registered_entries(self.registered_motors),
        }
    }
}

/// The error for an unknown motor name (empty when the name is longer than
/// a motor name can be).
pub open spec fn is_motor_not_found(e: Error, name: &str) -> bool {
    e matches Error::Config(ConfigError::MotorNotFound(n)) && n@ == (if name.len() <= MAX_NAME_BYTES {
        name@
    } else {
        Seq::<char>::empty()
    })
}

fn motor_not_found(name: &str) -> (r: Error)
    ensures
        is_motor_not_found(r, name),
{
    let n = if name.len() <= MAX_NAME_BYTES {
        name.to_owned()
    } else {
        String::new()
    };
    Error::Config(ConfigError::MotorNotFound(n))
}

impl MotorSystem {
    /// A system over `config`, with a registry of its trajectories (see
    /// [`TrajectoryRegistry::from_config`]) and no motor registered.
    pub fn from_config(config: SystemConfig) -> (r: Self)
        ensures
            r@.config == config,
            named_values(r@.registry) == kept_trajectories(config@.trajectories),
            r@.registered.len() == 0,
    {
        let registry = TrajectoryRegistry::from_config(&config);
        MotorSystem { config, registry, registered_motors: registered_new() }
    }

    /// The configuration.
    pub fn config(&self) -> (r: &SystemConfig)
        ensures
            *r == self@.config,
    {
        &self.config
    }

    /// The trajectory registry.
    pub fn trajectories(&self) -> (r: &TrajectoryRegistry)
        ensures
            r@ == self@.registry,
    {
        &self.registry
    }

    /// The description of motor `name`.
    pub fn motor_config(&self, name: &str) -> (r: Option<&MotorConfig>)
        ensures
            r is None <==> !has_name(self@.config@.motors, name@),
            forall|i: int|
                0 <= i < self@.config@.motors.len() && (#[trigger] self@.config@.motors[i]).0@
                    == name@ ==> r == Some(&self@.config@.motors[i].1),
    {
        self.config.motor(name)
    }

    /// The constraints of motor `name`.
    pub fn constraints(&self, name: &str) -> (r: Option<MechanicalConstraints>)
        ensures
            r is None <==> !has_name(self@.config@.motors, name@),
            r matches Some(c) ==> each_named(
                self@.config@.motors,
                name@,
                |i: int| c.derived_from(self@.config@.motors[i].1),
            ),
    {
        match self.config.motor(name) {
            Some(m) => Some(MechanicalConstraints::from_config(m)),
            None => None,
        }
    }

    /// Whether the configuration has motor `name`.
    pub fn has_motor(&self, name: &str) -> (r: bool)
        ensures
            r == has_name(self@.config@.motors, name@),
    {
        self.config.motor(name).is_some()
    }

    /// Names of the configured motors, in order.
    pub fn motor_names(&self) -> (r: Vec<String>)
        ensures
            r@.len() == self@.config@.motors.len(),
            forall|i: int| 0 <= i < r@.len() ==> (#[trigger] r@[i])@ == self@.config@.motors[i].0@,
    {
        self.config.motor_names()
    }

    /// Registers motor `name` with its constraints (replacing an earlier
    /// registration; left out when eight others are registered) and returns
    /// it idle. An unknown name is an error and registers nothing.
    pub fn register_motor(&mut self, name: &str) -> (r: Result<StepperMotor<Idle>, Error>)
        ensures
            !has_name(old(self)@.config@.motors, name@) ==> (r matches Err(e) && is_motor_not_found(
                e,
                name,
            ) && final(self)@ == old(self)@),
            has_name(old(self)@.config@.motors, name@) ==> (r matches Ok(m) && each_named(
                old(self)@.config@.motors,
                name@,
                |i: int|
                    m@.constraints.derived_from(old(self)@.config@.motors[i].1) && m@.name == old(
                        self,
                    )@.config@.motors[i].1.name@,
            )),
            final(self)@.config == old(self)@.config,
            final(self)@.registry == old(self)@.registry,
            has_name(old(self)@.config@.motors, name@) && name.len() <= MAX_NAME_BYTES && (has_name(
                old(self)@.registered,
                name@,
            ) || old(self)@.registered.len() < MAX_REGISTERED_MOTORS) ==> has_name(
                final(self)@.registered,
                name@,
            ),
            has_name(old(self)@.config@.motors, name@) && name.len() <= MAX_NAME_BYTES ==> each_named(
                final(self)@.registered,
                name@,
                |k: int|
                    each_named(
                        old(self)@.config@.motors,
                        name@,
                        |i: int| final(self)@.registered[k].1.derived_from(old(self)@.config@.motors[i].1),
                    ),
            ),
    {
        let motor_config = match self.config.motor(name) {
            Some(m) => m,
            None => {
                return Err(motor_not_found(name));
            },
        };
        let constraints = MechanicalConstraints::from_config(motor_config);
        let key = if name.len() <= MAX_NAME_BYTES {
            name.to_owned()
        } else {
            String::new()
        };
        let motor = StepperMotorBuilder::new().from_motor_config(motor_config).build();
        let ghost key_view = key@;
        let _ = registered_insert(&mut self.registered_motors, key, constraints);
        proof {
            let before = registered_entries(old(self).registered_motors);
            let after = registered_entries(self.registered_motors);
            if name.len() <= MAX_NAME_BYTES {
                if has_name(before, name@) {
                    let i = choose|i: int| 0 <= i < before.len() && (#[trigger] before[i]).0@ == name@;
                    assert(after[i].0@ == name@);
                } else if before.len() < MAX_REGISTERED_MOTORS {
                    assert(after[before.len() as int].0@ == key_view);
                }
                assert forall|k: int|
                    0 <= k < after.len() && (#[trigger] after[k]).0@ == name@ implies after[k].1
                        == constraints by {
                    if k < before.len() {
                        if has_name(before, name@) {
                            let i0 = choose|i: int|
                                0 <= i < before.len() && (#[trigger] before[i]).0@ == name@;
                            assert(after == before.update(i0, (before[i0].0, constraints)));
                            assert(before[k].0@ == name@);
                            assert(after == before.update(k, (before[k].0, constraints)));
                        } else if before.len() < MAX_REGISTERED_MOTORS {
                            assert(after[k] == before[k]);
                        } else {
                            assert(after[k] == before[k]);
                        }
                    }
                }
            }
        }
        motor
    }

    /// Motor `name`, idle, without registering it. An unknown name is an
    /// error.
    pub fn build_motor(&self, name: &str) -> (r: Result<StepperMotor<Idle>, Error>)
        ensures
            !has_name(self@.config@.motors, name@) ==> (r matches Err(e) && is_motor_not_found(
                e,
                name,
            )),
            has_name(self@.config@.motors, name@) ==> (r matches Ok(m) && each_named(
                self@.config@.motors,
                name@,
                |i: int|
                    m@.constraints.derived_from(self@.config@.motors[i].1) && m@.name
                        == self@.config@.motors[i].1.name@,
            )),
    {
        match self.config.motor(name) {
            Some(m) => StepperMotorBuilder::new().from_motor_config(m).build(),
            None => Err(motor_not_found(name)),
        }
    }

    /// Whether motor `name` is registered.
    pub fn is_registered(&self, name: &str) -> (r: bool)
        ensures
            r == has_name(self@.registered, name@),
    {
        registered_get(&self.registered_motors, name).is_some()
    }

    /// Number of registered motors.
    pub fn registered_count(&self) -> (r: usize)
        ensures
            r == self@.registered.len(),
    {
        registered_len(&self.registered_motors)
    }

    /// Constraints of registered motor `name`.
    pub fn registered_constraints(&self, name: &str) -> (r: Option<&MechanicalConstraints>)
        ensures
            r is None <==> !has_name(self@.registered, name@),
            forall|i: int|
                0 <= i < self@.registered.len() && (#[trigger] self@.registered[i]).0@ == name@
                    ==> r == Some(&self@.registered[i].1),
    {
        registered_get(&self.registered_motors, name)
    }

    /// Trajectory `name`, or the registry's error that lists the names held.
    pub fn trajectory(&self, name: &str) -> (r: Result<&TrajectoryConfig, Error>)
        ensures
            has_name(self@.registry, name@) <==> r is Ok,
            r matches Ok(t) ==> each_named(self@.registry, name@, |i: int| *t == self@.registry[i].1),
    {
        self.registry.get_or_error(name)
    }

    /// Names of the trajectories of motor `motor_name`, in order.
    pub fn trajectories_for_motor(&self, motor_name: &str) -> (r: Vec<String>)
        ensures
            r@.map_values(|n: String| n@) == names_for_motor(self@.registry, motor_name@),
    {
        let entries = self.registry.iter();
        let wanted = motor_name.to_owned();
        let mut r: Vec<String> = Vec::new();
        let mut j: usize = 0;
        while j < entries.len()
            invariant
                0 <= j <= entries@.len(),
                entries@ == self@.registry,
                wanted@ == motor_name@,
                r@.map_values(|n: String| n@) == names_for_motor(
                    entries@.subrange(0, j as int),
                    motor_name@,
                ),
            decreases entries@.len() - j,
        {
            proof {
                assert(entries@.subrange(0, j + 1).drop_last() =~= entries@.subrange(0, j as int));
            }
            if entries[j].1.motor == wanted {
                r.push(entries[j].0.clone());
            }
            proof {
                assert(r@.map_values(|n: String| n@) =~= names_for_motor(
                    entries@.subrange(0, j + 1),
                    motor_name@,
                ));
            }
            j = j + 1;
        }
        proof {
            assert(entries@.subrange(0, entries@.len() as int) =~= entries@);
        }
        r
    }
}

/// Names of the entries whose trajectory is for motor `motor`, in order.
pub open spec fn names_for_motor(entries: Seq<(String, TrajectoryConfig)>, motor: Seq<char>) -> Seq<
    Seq<char>,
>
    decreases entries.len(),
{
    if entries.len() == 0 {
        Seq::empty()
    } else {
        let rest = names_for_motor(entries.drop_last(), motor);
        if entries.last().1.motor@ == motor {
            rest.push(entries.last().0@)
        } else {
            rest
        }
    }
}

} // verus!
