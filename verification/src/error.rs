//! The ways a run can end early. Every one of them is terminal: nothing is retried.

use vstd::prelude::*;

verus! {

/// Why the configuration or interface descriptor could not be used.
#[derive(Debug, Clone, Copy, PartialEq, Eq, Structural)]
pub enum DescriptorFault {
    /// The configuration descriptor could not be read.
    ConfigurationUnreadable,
    /// The configuration declares no interface.
    NoInterface,
    /// The first interface declares no descriptor.
    NoInterfaceDescriptor,
}

/// Which part of bringing the device into its operating mode failed.
#[derive(Debug, Clone, Copy, PartialEq, Eq, Structural)]
pub enum ConfigurationFault {
    /// The device could not be opened.
    OpenFailed,
    /// The active configuration could not be set.
    SetConfigurationFailed,
    /// The interface could not be claimed, for instance because another process holds it.
    ClaimFailed,
    /// The alternate setting could not be activated.
    AlternateSettingFailed,
    /// The active alternate setting lacks an endpoint the protocol depends on.
    MissingEndpoints,
}

/// How a bulk transfer failed.
#[derive(Debug, Clone, Copy, PartialEq, Eq, Structural)]
pub enum TransferFault {
    /// The transfer did not complete within the timeout.
    Timeout,
    /// The transport reported an error (pipe stall, device gone, ...).
    Transport,
    /// Fewer bytes than the frame holds were accepted.
    ShortWrite,
}

/// Terminal error of a run.
#[derive(Debug, Clone, Copy, PartialEq, Eq, Structural)]
pub enum DriverError {
    /// No attached device matches the identity that was asked for.
    DeviceNotFound,
    /// A configuration or interface descriptor is missing or malformed.
    DescriptorError(DescriptorFault),
    /// The device could not be brought into the mode the protocol needs.
    ConfigurationError(ConfigurationFault),
    /// A bulk transfer failed or timed out.
    TransferError(TransferFault),
}

impl DriverError {
    /// The diagnostic text of each error.
    pub open spec fn message_spec(self) -> Seq<char> {
        match self {
            DriverError::DeviceNotFound => "AD9959 not found"@,
            DriverError::DescriptorError(DescriptorFault::ConfigurationUnreadable) =>
                "Configuration descriptor could not be read"@,
            DriverError::DescriptorError(DescriptorFault::NoInterface) => "Interface not found"@,
            DriverError::DescriptorError(DescriptorFault::NoInterfaceDescriptor) =>
                "Interface descriptor not found"@,
            DriverError::ConfigurationError(ConfigurationFault::OpenFailed) =>
                "Device could not be opened"@,
            DriverError::ConfigurationError(ConfigurationFault::SetConfigurationFailed) =>
                "Configuration could not be activated"@,
            DriverError::ConfigurationError(ConfigurationFault::ClaimFailed) =>
                "Interface could not be claimed"@,
            DriverError::ConfigurationError(ConfigurationFault::AlternateSettingFailed) =>
                "Alternate setting could not be activated"@,
            DriverError::ConfigurationError(ConfigurationFault::MissingEndpoints) =>
                "Required endpoints were not found!"@,
            DriverError::TransferError(TransferFault::Timeout) => "Transfer timed out"@,
            DriverError::TransferError(TransferFault::Transport) => "Transfer failed"@,
            DriverError::TransferError(TransferFault::ShortWrite) => "Transfer was cut short"@,
        }
    }

    /// The single diagnostic line shown to the user for this error.
    pub fn message(&self) -> (text: String)
        ensures
            text@ == self.message_spec(),
    {
        let line: &str = match self {
            DriverError::DeviceNotFound => "AD9959 not found",
            DriverError::DescriptorError(DescriptorFault::ConfigurationUnreadable) =>
                "Configuration descriptor could not be read",
            DriverError::DescriptorError(DescriptorFault::NoInterface) => "Interface not found",
            DriverError::DescriptorError(DescriptorFault::NoInterfaceDescriptor) =>
                "Interface descriptor not found",
            DriverError::ConfigurationError(ConfigurationFault::OpenFailed) =>
                "Device could not be opened",
            DriverError::ConfigurationError(ConfigurationFault::SetConfigurationFailed) =>
                "Configuration could not be activated",
            DriverError::ConfigurationError(ConfigurationFault::ClaimFailed) =>
                "Interface could not be claimed",
            DriverError::ConfigurationError(ConfigurationFault::AlternateSettingFailed) =>
                "Alternate setting could not be activated",
            DriverError::ConfigurationError(ConfigurationFault::MissingEndpoints) =>
                "Required endpoints were not found!",
            DriverError::TransferError(TransferFault::Timeout) => "Transfer timed out",
            DriverError::TransferError(TransferFault::Transport) => "Transfer failed",
            DriverError::TransferError(TransferFault::ShortWrite) => "Transfer was cut short",
        };
        line.to_owned()
    }
}

} // verus!
