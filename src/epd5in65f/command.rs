//! Opcodes of the 5.65 inch seven-color panel's controller.
use vstd::prelude::*;

verus! {

/// The commands this driver sends to the 5.65 inch panel.
#[derive(Clone, Copy, Debug, PartialEq, Eq, Structural)]
pub enum Command {
    PanelSetting,
    PowerSetting,
    PowerOff,
    PowerOffSequenceSetting,
    PowerOn,
    BoosterSoftStart,
    DeepSleep,
    DataStartTransmission1,
    DisplayRefresh,
    PllControl,
    TemperatureSensor,
    VcomAndDataIntervalSetting,
    TconSetting,
    TconResolution,
    GetStatus,
    FlashMode,
}

impl Command {
    pub open spec fn spec_address(self) -> u8 {
        match self {
            Command::PanelSetting => 0x00,
            Command::PowerSetting => 0x01,
            Command::PowerOff => 0x02,
            Command::PowerOffSequenceSetting => 0x03,
            Command::PowerOn => 0x04,
            Command::BoosterSoftStart => 0x06,
            Command::DeepSleep => 0x07,
            Command::DataStartTransmission1 => 0x10,
            Command::DisplayRefresh => 0x12,
            Command::PllControl => 0x30,
            Command::TemperatureSensor => 0x41,
            Command::VcomAndDataIntervalSetting => 0x50,
            Command::TconSetting => 0x60,
            Command::TconResolution => 0x61,
            Command::GetStatus => 0x71,
            Command::FlashMode => 0xE3,
        }
    }

    /// The opcode byte of this command.
    #[verifier::when_used_as_spec(spec_address)]
    pub fn address(self) -> (r: u8)
        ensures
            r == self.spec_address(),
    {
        match self {
            Command::PanelSetting => 0x00,
            Command::PowerSetting => 0x01,
            Command::PowerOff => 0x02,
            Command::PowerOffSequenceSetting => 0x03,
            Command::PowerOn => 0x04,
            Command::BoosterSoftStart => 0x06,
            Command::DeepSleep => 0x07,
            Command::DataStartTransmission1 => 0x10,
            Command::DisplayRefresh => 0x12,
            Command::PllControl => 0x30,
            Command::TemperatureSensor => 0x41,
            Command::VcomAndDataIntervalSetting => 0x50,
            Command::TconSetting => 0x60,
            Command::TconResolution => 0x61,
            Command::GetStatus => 0x71,
            Command::FlashMode => 0xE3,
        }
    }
}

} // verus!
