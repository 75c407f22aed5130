//! The configuration store: the one record that the time gate keeps, read and
//! written field by field.

use vstd::prelude::*;
use crate::cycle_start::CycleStartTime;
use crate::error::ContractError;

verus! {

/// The configuration as contracts speak of it: the start of the cycle, the
/// destinations in rotation order, each as its characters, and the width of a
/// slot in seconds.
pub struct ConfigurationView {
    pub cycle_start_time: CycleStartTime,
    pub gate_addresses: Seq<Seq<char>>,
    pub time_interval: u64,
}

impl ConfigurationView {
    /// What holds of every stored configuration: the start is a real date and
    /// time, there is at least one destination, and the interval is positive.
    pub open spec fn wf(self) -> bool {
        &&& self.cycle_start_time.is_valid()
        &&& self.gate_addresses.len() > 0
        &&& self.time_interval > 0
    }
}

/// Whether a store content is either absent or well formed.
pub open spec fn wf_state(state: Option<ConfigurationView>) -> bool {
    state matches Some(c) ==> c.wf()
}

struct Configuration {
    cycle_start_time: CycleStartTime,
    gate_addresses: Vec<String>,
    time_interval: u64,
}

/// The store of one time gate. It is empty until the time gate is
/// initialized, and from then on it holds a well-formed configuration.
pub struct ConfigStore {
    config: Option<Configuration>,
}

impl View for ConfigStore {
    type V = Option<ConfigurationView>;

    closed spec fn view(&self) -> Option<ConfigurationView> {
        match self.config {
            Some(c) => Some(
                ConfigurationView {
                    cycle_start_time: c.cycle_start_time,
                    gate_addresses: c.gate_addresses.deep_view(),
                    time_interval: c.time_interval,
                },
            ),
            None => None,
        }
    }
}

impl ConfigStore {
    /// Holds of every store at every moment: what it holds is well formed.
    #[verifier::type_invariant]
    pub(crate) open spec fn inv(self) -> bool {
        wf_state(self@)
    }

    /// A store that holds nothing yet.
    pub fn new() -> (store: Self)
        ensures
            store@ is None,
    {
        ConfigStore { config: None }
    }

    /// Whether the time gate has been initialized.
    pub fn is_initialized(&self) -> (b: bool)
        ensures
            b == self@.is_some(),
            wf_state(self@),
    {
        proof {
            use_type_invariant(self);
        }
        self.config.is_some()
    }

    /// Reads the start of the cycle.
    pub fn load_cycle_start_time(&self) -> (r: Result<CycleStartTime, ContractError>)
        ensures
            wf_state(self@),
            match self@ {
                Some(c) => r == Ok::<CycleStartTime, ContractError>(c.cycle_start_time),
                None => r == Err::<CycleStartTime, ContractError>(ContractError::NotFound),
            },
    {
        proof {
            use_type_invariant(self);
        }
        match &self.config {
            Some(c) => Ok(c.cycle_start_time),
            None => Err(ContractError::NotFound),
        }
    }

    /// Reads the destinations, in rotation order.
    pub fn load_gate_addresses(&self) -> (r: Result<Vec<String>, ContractError>)
        ensures
            wf_state(self@),
            match self@ {
                Some(c) => r matches Ok(list) && list.deep_view() == c.gate_addresses,
                None => r == Err::<Vec<String>, ContractError>(ContractError::NotFound),
            },
    {
        proof {
            use_type_invariant(self);
        }
        match &self.config {
            Some(c) => {
                let list: Vec<String> = c.gate_addresses.clone();
                Ok(list)
            },
            None => Err(ContractError::NotFound),
        }
    }

    /// Reads the rotation interval, in seconds.
    pub fn load_time_interval(&self) -> (r: Result<u64, ContractError>)
        ensures
            wf_state(self@),
            match self@ {
                Some(c) => r == Ok::<u64, ContractError>(c.time_interval),
                None => r == Err::<u64, ContractError>(ContractError::NotFound),
            },
    {
        proof {
            use_type_invariant(self);
        }
        match &self.config {
            Some(c) => Ok(c.time_interval),
            None => Err(ContractError::NotFound),
        }
    }

    /// Writes all three fields at once.
    pub(crate) fn save(
        &mut self,
        cycle_start_time: CycleStartTime,
        gate_addresses: Vec<String>,
        time_interval: u64,
    )
        requires
            cycle_start_time.is_valid(),
            gate_addresses.len() > 0,
            time_interval > 0,
        ensures
            final(self)@ == Some(
                ConfigurationView {
                    cycle_start_time,
                    gate_addresses: gate_addresses.deep_view(),
                    time_interval,
                },
            ),
    {
        self.config = Some(Configuration { cycle_start_time, gate_addresses, time_interval });
    }

    /// Writes the start of the cycle and leaves the other fields as they are.
    pub(crate) fn save_cycle_start_time(&mut self, cycle_start_time: CycleStartTime)
        requires
            old(self)@ is Some,
            cycle_start_time.is_valid(),
        ensures
            final(self)@ == Some(
                ConfigurationView { cycle_start_time, ..old(self)@->Some_0 },
            ),
    {
        proof {
            use_type_invariant(&*self);
        }
        let mut held: Option<Configuration> = None;
        core::mem::swap(&mut held, &mut self.config);
        match held {
            Some(c) => {
                self.config = Some(Configuration { cycle_start_time, ..c });
            },
            None => {},
        }
    }

    /// Writes the destinations and leaves the other fields as they are.
    pub(crate) fn save_gate_addresses(&mut self, gate_addresses: Vec<String>)
        requires
            old(self)@ is Some,
            gate_addresses.len() > 0,
        ensures
            final(self)@ == Some(
                ConfigurationView {
                    gate_addresses: gate_addresses.deep_view(),
                    ..old(self)@->Some_0
                },
            ),
    {
        proof {
            use_type_invariant(&*self);
        }
        let mut held: Option<Configuration> = None;
        core::mem::swap(&mut held, &mut self.config);
        match held {
            Some(c) => {
                self.config = Some(Configuration { gate_addresses, ..c });
            },
            None => {},
        }
    }

    /// Writes the rotation interval and leaves the other fields as they are.
    pub(crate) fn save_time_interval(&mut self, time_interval: u64)
        requires
            old(self)@ is Some,
            time_interval > 0,
        ensures
            final(self)@ == Some(ConfigurationView { time_interval, ..old(self)@->Some_0 }),
    {
        proof {
            use_type_invariant(&*self);
        }
        let mut held: Option<Configuration> = None;
        core::mem::swap(&mut held, &mut self.config);
        match held {
            Some(c) => {
                self.config = Some(Configuration { time_interval, ..c });
            },
            None => {},
        }
    }
}

} // verus!
