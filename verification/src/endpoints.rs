//! The endpoints the protocol depends on, and the check that a device offers them.

use vstd::prelude::*;
use crate::error::{ConfigurationFault, DriverError};
use crate::frame::{COMMAND_ENDPOINT, DATA_ENDPOINT, READBACK_ENDPOINT};

verus! {

/// The endpoint addresses a session needs: a command endpoint, a data
/// endpoint and, where registers are to be read back, an input endpoint.
#[derive(Debug, Clone, Copy, PartialEq, Eq)]
pub struct RequiredEndpoints {
    pub command: u8,
    pub data: u8,
    pub readback: Option<u8>,
}

impl RequiredEndpoints {
    /// The required addresses as a set.
    pub open spec fn addresses(self) -> Set<u8> {
        match self.readback {
            Some(input) => set![self.command, self.data, input],
            None => set![self.command, self.data],
        }
    }

    /// Every required address is among `advertised`.
    pub open spec fn satisfied_by(self, advertised: Seq<u8>) -> bool {
        self.addresses().subset_of(advertised.to_set())
    }

    /// The three endpoints of the chip's bridge: command, data and readback.
    pub open spec fn with_readback_spec() -> RequiredEndpoints {
        RequiredEndpoints {
            command: COMMAND_ENDPOINT,
            data: DATA_ENDPOINT,
            readback: Some(READBACK_ENDPOINT),
        }
    }

    /// The two endpoints that writing alone needs: command and data.
    pub open spec fn write_only_spec() -> RequiredEndpoints {
        RequiredEndpoints { command: COMMAND_ENDPOINT, data: DATA_ENDPOINT, readback: None }
    }

    /// Command, data and readback endpoints.
    pub fn with_readback() -> (required: RequiredEndpoints)
        ensures
            required == Self::with_readback_spec(),
    {
        RequiredEndpoints {
            command: COMMAND_ENDPOINT,
            data: DATA_ENDPOINT,
            readback: Some(READBACK_ENDPOINT),
        }
    }

    /// Command and data endpoints only.
    pub fn write_only() -> (required: RequiredEndpoints)
        ensures
            required == Self::write_only_spec(),
    {
        RequiredEndpoints { command: COMMAND_ENDPOINT, data: DATA_ENDPOINT, readback: None }
    }

    /// Decides whether `advertised` offers every required endpoint.
    pub fn is_satisfied_by(&self, advertised: &[u8]) -> (satisfied: bool)
        ensures
            satisfied == self.satisfied_by(advertised@),
    {
        let input_present: bool = match self.readback {
            Some(input) => advertises(advertised, input),
            None => true,
        };
        advertises(advertised, self.command) && advertises(advertised, self.data) && input_present
    }

    /// Succeeds when `advertised` offers every required endpoint, and fails
    /// with `ConfigurationError` when one is missing.
    pub fn validate(&self, advertised: &[u8]) -> (checked: Result<(), DriverError>)
        ensures
            checked is Ok <==> self.satisfied_by(advertised@),
            checked is Err ==> checked == Err::<(), DriverError>(
                DriverError::ConfigurationError(ConfigurationFault::MissingEndpoints),
            ),
    {
        if self.is_satisfied_by(advertised) {
            Ok(())
        } else {
            Err(DriverError::ConfigurationError(ConfigurationFault::MissingEndpoints))
        }
    }
}

/// Decides whether `address` is among `advertised`.
pub fn advertises(advertised: &[u8], address: u8) -> (present: bool)
    ensures
        present == advertised@.contains(address),
        present == advertised@.to_set().contains(address),
{
    let mut index: usize = 0;
    while index < advertised.len()
        invariant
            index <= advertised@.len(),
            forall|j: int| 0 <= j < index ==> advertised@[j] != address,
        decreases advertised@.len() - index,
    {
        if advertised[index] == address {
            return true;
        }
        index = index + 1;
    }
    false
}

/// A device that lacks the command, the data or the readback endpoint does
/// not satisfy the three-endpoint requirement.
pub proof fn lemma_with_readback_needs_all_three(advertised: Seq<u8>)
    ensures
        RequiredEndpoints::with_readback_spec().satisfied_by(advertised) <==> {
            &&& advertised.contains(0x01)
            &&& advertised.contains(0x04)
            &&& advertised.contains(0x88)
        },
{
    let required = RequiredEndpoints::with_readback_spec();
    assert(required.addresses().contains(0x01));
    assert(required.addresses().contains(0x04));
    assert(required.addresses().contains(0x88));
}

/// A device that lacks the command or the data endpoint does not satisfy the
/// two-endpoint requirement; in particular one without endpoint `0x04` does not.
pub proof fn lemma_write_only_needs_both(advertised: Seq<u8>)
    ensures
        RequiredEndpoints::write_only_spec().satisfied_by(advertised) <==> {
            &&& advertised.contains(0x01)
            &&& advertised.contains(0x04)
        },
{
    let required = RequiredEndpoints::write_only_spec();
    assert(required.addresses().contains(0x01));
    assert(required.addresses().contains(0x04));
}

/// Whatever is required, a device satisfies it exactly when it advertises
/// each required address.
pub proof fn lemma_satisfied_means_each_present(required: RequiredEndpoints, advertised: Seq<u8>)
    ensures
        required.satisfied_by(advertised) <==> {
            &&& advertised.contains(required.command)
            &&& advertised.contains(required.data)
            &&& (required.readback matches Some(input) ==> advertised.contains(input))
        },
{
    assert(required.addresses().contains(required.command));
    assert(required.addresses().contains(required.data));
    if let Some(input) = required.readback {
        assert(required.addresses().contains(input));
    }
}

} // verus!
