use vstd::prelude::*;

verus! {

/// Everything that can go wrong while building, parsing or exchanging a command.
#[derive(Debug)]
pub enum Error {
    /// A frame did not have the fixed frame length.
    InvalidBufferLength { expected: usize, actual: usize },
    /// A byte that names no operation.
    InvalidCommandId(u8),
    /// A register address outside the device's address table.
    InvalidEEPROMAddress(u16),
    /// A payload length larger than the payload area.
    DataTooLarge(usize),
    /// A write that reaches past the valid payload length.
    InvalidDataLength { offset: usize, data_len: usize, allowed: usize },
    /// A single-byte write outside the valid payload length.
    InvalidOffset(usize),
    /// A paired write that does not start on an even offset.
    OffsetNotAligned(usize),
    /// A failure reported by the transport, with its message.
    TransportError(String),
    /// A response from the device that could not be parsed, with the cause.
    ParseError(Box<Error>),
}

/// The operations understood by the device. `Zero` marks a command whose
/// operation has not been chosen yet.
#[derive(Debug, Clone, Copy, PartialEq, Eq, Structural)]
pub enum CommandId {
    Zero,
    DownLoadData,
    DownLoadDriverStatus,
    GetWirelessMouseOnline,
    GetBatteryLevel,
    SetWirelessDonglePair,
    GetWirelessDonglePairResult,
    SetEEPROM,
    GetEEPROM,
    RestoreFactory,
    ReportMouseStatus,
    Reserved1,
    Reserved2,
    EnterUSBUpgradeMode,
    GetCurrentConfig,
    SetCurrentConfig,
    GetMouseCIDMID,
    Reserved3,
    GetMouseVersion,
    DongleExitPair,
    Set4KRGBMode,
    Get4KRGBMode,
    SetFarDistanceMode,
    GetFarDistanceMode,
    SetDongleLightMode,
    GetDongleLightMode,
    ReportMouseUpgradeErrorStatus,
    ReportMouseUpgradeStatus,
}

impl CommandId {
    /// The byte that encodes the operation on the wire.
    pub open spec fn spec_value(self) -> u8 {
        match self {
            CommandId::Zero => 0x00,
            CommandId::DownLoadData => 0x01,
            CommandId::DownLoadDriverStatus => 0x02,
            CommandId::GetWirelessMouseOnline => 0x03,
            CommandId::GetBatteryLevel => 0x04,
            CommandId::SetWirelessDonglePair => 0x05,
            CommandId::GetWirelessDonglePairResult => 0x06,
            CommandId::SetEEPROM => 0x07,
            CommandId::GetEEPROM => 0x08,
            CommandId::RestoreFactory => 0x09,
            CommandId::ReportMouseStatus => 0x0a,
            CommandId::Reserved1 => 0x0b,
            CommandId::Reserved2 => 0x0c,
            CommandId::EnterUSBUpgradeMode => 0x0d,
            CommandId::GetCurrentConfig => 0x0e,
            CommandId::SetCurrentConfig => 0x0f,
            CommandId::GetMouseCIDMID => 0x10,
            CommandId::Reserved3 => 0x11,
            CommandId::GetMouseVersion => 0x12,
            CommandId::DongleExitPair => 0x13,
            CommandId::Set4KRGBMode => 0x14,
            CommandId::Get4KRGBMode => 0x15,
            CommandId::SetFarDistanceMode => 0x16,
            CommandId::GetFarDistanceMode => 0x17,
            CommandId::SetDongleLightMode => 0x18,
            CommandId::GetDongleLightMode => 0x19,
            CommandId::ReportMouseUpgradeErrorStatus => 0x1a,
            CommandId::ReportMouseUpgradeStatus => 0x1b,
        }
    }

    /// The operation that the byte `v` encodes, if there is one.
    pub open spec fn spec_from_u8(v: u8) -> Option<CommandId> {
        match v {
            0x00 => Some(CommandId::Zero),
            0x01 => Some(CommandId::DownLoadData),
            0x02 => Some(CommandId::DownLoadDriverStatus),
            0x03 => Some(CommandId::GetWirelessMouseOnline),
            0x04 => Some(CommandId::GetBatteryLevel),
            0x05 => Some(CommandId::SetWirelessDonglePair),
            0x06 => Some(CommandId::GetWirelessDonglePairResult),
            0x07 => Some(CommandId::SetEEPROM),
            0x08 => Some(CommandId::GetEEPROM),
            0x09 => Some(CommandId::RestoreFactory),
            0x0a => Some(CommandId::ReportMouseStatus),
            0x0b => Some(CommandId::Reserved1),
            0x0c => Some(CommandId::Reserved2),
            0x0d => Some(CommandId::EnterUSBUpgradeMode),
            0x0e => Some(CommandId::GetCurrentConfig),
            0x0f => Some(CommandId::SetCurrentConfig),
            0x10 => Some(CommandId::GetMouseCIDMID),
            0x11 => Some(CommandId::Reserved3),
            0x12 => Some(CommandId::GetMouseVersion),
            0x13 => Some(CommandId::DongleExitPair),
            0x14 => Some(CommandId::Set4KRGBMode),
            0x15 => Some(CommandId::Get4KRGBMode),
            0x16 => Some(CommandId::SetFarDistanceMode),
            0x17 => Some(CommandId::GetFarDistanceMode),
            0x18 => Some(CommandId::SetDongleLightMode),
            0x19 => Some(CommandId::GetDongleLightMode),
            0x1a => Some(CommandId::ReportMouseUpgradeErrorStatus),
            0x1b => Some(CommandId::ReportMouseUpgradeStatus),
            _ => None,
        }
    }

    /// Every operation decodes from its own byte.
    pub proof fn lemma_value_decodes(self)
        ensures
            CommandId::spec_from_u8(self.spec_value()) == Some(self),
    {
    }

    /// The byte that encodes the operation.
    pub fn value(&self) -> (r: u8)
        ensures
            r == self.spec_value(),
    {
        match self {
            CommandId::Zero => 0x00,
            CommandId::DownLoadData => 0x01,
            CommandId::DownLoadDriverStatus => 0x02,
            CommandId::GetWirelessMouseOnline => 0x03,
            CommandId::GetBatteryLevel => 0x04,
            CommandId::SetWirelessDonglePair => 0x05,
            CommandId::GetWirelessDonglePairResult => 0x06,
            CommandId::SetEEPROM => 0x07,
            CommandId::GetEEPROM => 0x08,
            CommandId::RestoreFactory => 0x09,
            CommandId::ReportMouseStatus => 0x0a,
            CommandId::Reserved1 => 0x0b,
            CommandId::Reserved2 => 0x0c,
            CommandId::EnterUSBUpgradeMode => 0x0d,
            CommandId::GetCurrentConfig => 0x0e,
            CommandId::SetCurrentConfig => 0x0f,
            CommandId::GetMouseCIDMID => 0x10,
            CommandId::Reserved3 => 0x11,
            CommandId::GetMouseVersion => 0x12,
            CommandId::DongleExitPair => 0x13,
            CommandId::Set4KRGBMode => 0x14,
            CommandId::Get4KRGBMode => 0x15,
            CommandId::SetFarDistanceMode => 0x16,
            CommandId::GetFarDistanceMode => 0x17,
            CommandId::SetDongleLightMode => 0x18,
            CommandId::GetDongleLightMode => 0x19,
            CommandId::ReportMouseUpgradeErrorStatus => 0x1a,
            CommandId::ReportMouseUpgradeStatus => 0x1b,
        }
    }

    /// Decodes an operation byte.
    pub fn from_u8(v: u8) -> (r: Result<CommandId, Error>)
        ensures
            match CommandId::spec_from_u8(v) {
                Some(c) => r == Ok::<CommandId, Error>(c),
                None => r == Err::<CommandId, Error>(Error::InvalidCommandId(v)),
            },
    {
        match v {
            0x00 => Ok(CommandId::Zero),
            0x01 => Ok(CommandId::DownLoadData),
            0x02 => Ok(CommandId::DownLoadDriverStatus),
            0x03 => Ok(CommandId::GetWirelessMouseOnline),
            0x04 => Ok(CommandId::GetBatteryLevel),
            0x05 => Ok(CommandId::SetWirelessDonglePair),
            0x06 => Ok(CommandId::GetWirelessDonglePairResult),
            0x07 => Ok(CommandId::SetEEPROM),
            0x08 => Ok(CommandId::GetEEPROM),
            0x09 => Ok(CommandId::RestoreFactory),
            0x0a => Ok(CommandId::ReportMouseStatus),
            0x0b => Ok(CommandId::Reserved1),
            0x0c => Ok(CommandId::Reserved2),
            0x0d => Ok(CommandId::EnterUSBUpgradeMode),
            0x0e => Ok(CommandId::GetCurrentConfig),
            0x0f => Ok(CommandId::SetCurrentConfig),
            0x10 => Ok(CommandId::GetMouseCIDMID),
            0x11 => Ok(CommandId::Reserved3),
            0x12 => Ok(CommandId::GetMouseVersion),
            0x13 => Ok(CommandId::DongleExitPair),
            0x14 => Ok(CommandId::Set4KRGBMode),
            0x15 => Ok(CommandId::Get4KRGBMode),
            0x16 => Ok(CommandId::SetFarDistanceMode),
            0x17 => Ok(CommandId::GetFarDistanceMode),
            0x18 => Ok(CommandId::SetDongleLightMode),
            0x19 => Ok(CommandId::GetDongleLightMode),
            0x1a => Ok(CommandId::ReportMouseUpgradeErrorStatus),
            0x1b => Ok(CommandId::ReportMouseUpgradeStatus),
            _ => Err(Error::InvalidCommandId(v)),
        }
    }
}

/// The registers of the device's configuration memory that a command may
/// address. The table is sparse: most 16-bit values are not registers.
#[derive(Debug, Clone, Copy, PartialEq, Eq, Structural)]
pub enum EEPROMAddress {
    ReportRate,
    ReportRateCrc,
    MaxDpi,
    MaxDpiCrc,
    CurrentDpi,
    CurrentDpiCrc,
    SilentHeight,
    SilentHeightCrc,
    DpiPair1,
    DpiPair3,
    DpiPair5,
    DpiPair7,
    DpiPair1Color,
    DpiPair3Color,
    DpiPair5Color,
    DpiPair7Color,
    DpiRgbLightingEffects,
    DpiRgbLightingEffectsCrc,
    DpiRgbLongBrightBrightness,
    DpiRgbLongBrightBrightnessCrc,
    DpiRgbLongBrightSpeed,
    DpiRgbLongBrightSpeedCrc,
    DpiRgbEnable,
    DpiRgbEnableCrc,
    ArticleLampR,
    ArticleLampG,
    ArticleLampB,
    ArticleLampCRC,
    ArticleLampEffects,
    ArticleLampEffectsCRC,
    ArticleLampLongBrightness,
    ArticleLampLongBrightnessCRC,
    ArticleLampBreathingSpeed,
    ArticleLampBreathingSpeedCRC,
    ArticleLampEnergySaving,
    ArticleLampEnergySavingCRC,
    StabilizationTime,
    StabilizationTimeCRC,
    MotionSync,
    MotionSyncCRC,
    CloseLedTime,
    CloseLedTimeCRC,
    LinearCorrection,
    LinearCorrectionCRC,
    RippleControl,
    RippleControlCRC,
    MoveCloseLights,
    MoveCloseLightsCRC,
    SensorEnable,
    SensorEnableCRC,
    SensorTime,
    SensorTimeCRC,
    SensorMode,
    SensorModeCRC,
    RfTxTime,
    RfTxTimeCRC,
    Key0,
    Key1,
    Key2,
    Key3,
    Key4,
    Key5,
    Key6,
    Key7,
    Key8,
    Key9,
    Key10,
    Key11,
    Key12,
    Key13,
    Key14,
    Key15,
    KeyShortcuts0,
    KeyShortcuts1,
    KeyShortcuts2,
    KeyShortcuts3,
    KeyShortcuts4,
    KeyShortcuts5,
    KeyShortcuts6,
    KeyShortcuts7,
    KeyShortcuts8,
    KeyShortcuts9,
    KeyShortcuts10,
    KeyShortcuts11,
    KeyShortcuts12,
    KeyShortcuts13,
    KeyShortcuts14,
    KeyShortcuts15,
    Macro0,
    Macro1,
    Macro2,
    Macro3,
    Macro4,
    Macro5,
    Macro6,
    Macro7,
    Macro8,
    Macro9,
    Macro10,
    Macro11,
    Macro12,
    Macro13,
    Macro14,
    Macro15,
}

impl EEPROMAddress {
    /// The register's 16-bit address.
    pub open spec fn spec_value(self) -> u16 {
        match self {
            EEPROMAddress::ReportRate => 0x00,
            EEPROMAddress::ReportRateCrc => 0x01,
            EEPROMAddress::MaxDpi => 0x02,
            EEPROMAddress::MaxDpiCrc => 0x03,
            EEPROMAddress::CurrentDpi => 0x04,
            EEPROMAddress::CurrentDpiCrc => 0x05,
            EEPROMAddress::SilentHeight => 0x0a,
            EEPROMAddress::SilentHeightCrc => 0x0b,
            EEPROMAddress::DpiPair1 => 0x0c,
            EEPROMAddress::DpiPair3 => 0x14,
            EEPROMAddress::DpiPair5 => 0x1c,
            EEPROMAddress::DpiPair7 => 0x24,
            EEPROMAddress::DpiPair1Color => 0x2c,
            EEPROMAddress::DpiPair3Color => 0x34,
            EEPROMAddress::DpiPair5Color => 0x3c,
            EEPROMAddress::DpiPair7Color => 0x44,
            EEPROMAddress::DpiRgbLightingEffects => 0x4c,
            EEPROMAddress::DpiRgbLightingEffectsCrc => 0x4d,
            EEPROMAddress::DpiRgbLongBrightBrightness => 0x4e,
            EEPROMAddress::DpiRgbLongBrightBrightnessCrc => 0x4f,
            EEPROMAddress::DpiRgbLongBrightSpeed => 0x50,
            EEPROMAddress::DpiRgbLongBrightSpeedCrc => 0x51,
            EEPROMAddress::DpiRgbEnable => 0x52,
            EEPROMAddress::DpiRgbEnableCrc => 0x53,
            EEPROMAddress::ArticleLampR => 0x54,
            EEPROMAddress::ArticleLampG => 0x55,
            EEPROMAddress::ArticleLampB => 0x56,
            EEPROMAddress::ArticleLampCRC => 0x57,
            EEPROMAddress::ArticleLampEffects => 0x58,
            EEPROMAddress::ArticleLampEffectsCRC => 0x59,
            EEPROMAddress::ArticleLampLongBrightness => 0x5a,
            EEPROMAddress::ArticleLampLongBrightnessCRC => 0x5b,
            EEPROMAddress::ArticleLampBreathingSpeed => 0x5c,
            EEPROMAddress::ArticleLampBreathingSpeedCRC => 0x5d,
            EEPROMAddress::ArticleLampEnergySaving => 0x5e,
            EEPROMAddress::ArticleLampEnergySavingCRC => 0x5f,
            EEPROMAddress::StabilizationTime => 0xa9,
            EEPROMAddress::StabilizationTimeCRC => 0xaa,
            EEPROMAddress::MotionSync => 0xab,
            EEPROMAddress::MotionSyncCRC => 0xac,
            EEPROMAddress::CloseLedTime => 0xad,
            EEPROMAddress::CloseLedTimeCRC => 0xae,
            EEPROMAddress::LinearCorrection => 0xaf,
            EEPROMAddress::LinearCorrectionCRC => 0xb0,
            EEPROMAddress::RippleControl => 0xb1,
            EEPROMAddress::RippleControlCRC => 0xb2,
            EEPROMAddress::MoveCloseLights => 0xb3,
            EEPROMAddress::MoveCloseLightsCRC => 0xb4,
            EEPROMAddress::SensorEnable => 0xb5,
            EEPROMAddress::SensorEnableCRC => 0xb6,
            EEPROMAddress::SensorTime => 0xb7,
            EEPROMAddress::SensorTimeCRC => 0xb8,
            EEPROMAddress::SensorMode => 0xb9,
            EEPROMAddress::SensorModeCRC => 0xba,
            EEPROMAddress::RfTxTime => 0xbb,
            EEPROMAddress::RfTxTimeCRC => 0xbc,
            EEPROMAddress::Key0 => 0x60,
            EEPROMAddress::Key1 => 0x64,
            EEPROMAddress::Key2 => 0x68,
            EEPROMAddress::Key3 => 0x6c,
            EEPROMAddress::Key4 => 0x70,
            EEPROMAddress::Key5 => 0x74,
            EEPROMAddress::Key6 => 0x78,
            EEPROMAddress::Key7 => 0x7c,
            EEPROMAddress::Key8 => 0x80,
            EEPROMAddress::Key9 => 0x84,
            EEPROMAddress::Key10 => 0x88,
            EEPROMAddress::Key11 => 0x8c,
            EEPROMAddress::Key12 => 0x90,
            EEPROMAddress::Key13 => 0x94,
            EEPROMAddress::Key14 => 0x98,
            EEPROMAddress::Key15 => 0x9c,
            EEPROMAddress::KeyShortcuts0 => 0x100,
            EEPROMAddress::KeyShortcuts1 => 0x120,
            EEPROMAddress::KeyShortcuts2 => 0x140,
            EEPROMAddress::KeyShortcuts3 => 0x160,
            EEPROMAddress::KeyShortcuts4 => 0x180,
            EEPROMAddress::KeyShortcuts5 => 0x1a0,
            EEPROMAddress::KeyShortcuts6 => 0x1c0,
            EEPROMAddress::KeyShortcuts7 => 0x1e0,
            EEPROMAddress::KeyShortcuts8 => 0x200,
            EEPROMAddress::KeyShortcuts9 => 0x220,
            EEPROMAddress::KeyShortcuts10 => 0x240,
            EEPROMAddress::KeyShortcuts11 => 0x260,
            EEPROMAddress::KeyShortcuts12 => 0x280,
            EEPROMAddress::KeyShortcuts13 => 0x2a0,
            EEPROMAddress::KeyShortcuts14 => 0x2c0,
            EEPROMAddress::KeyShortcuts15 => 0x2e0,
            EEPROMAddress::Macro0 => 0x300,
            EEPROMAddress::Macro1 => 0x480,
            EEPROMAddress::Macro2 => 0x600,
            EEPROMAddress::Macro3 => 0x780,
            EEPROMAddress::Macro4 => 0x900,
            EEPROMAddress::Macro5 => 0xa80,
            EEPROMAddress::Macro6 => 0xc00,
            EEPROMAddress::Macro7 => 0xd80,
            EEPROMAddress::Macro8 => 0xf00,
            EEPROMAddress::Macro9 => 0x1080,
            EEPROMAddress::Macro10 => 0x1200,
            EEPROMAddress::Macro11 => 0x1380,
            EEPROMAddress::Macro12 => 0x1500,
            EEPROMAddress::Macro13 => 0x1680,
            EEPROMAddress::Macro14 => 0x1800,
            EEPROMAddress::Macro15 => 0x1980,
        }
    }

    /// The register at address `v`, if there is one.
    pub open spec fn spec_from_u16(v: u16) -> Option<EEPROMAddress> {
        match v {
            0x00 => Some(EEPROMAddress::ReportRate),
            0x01 => Some(EEPROMAddress::ReportRateCrc),
            0x02 => Some(EEPROMAddress::MaxDpi),
            0x03 => Some(EEPROMAddress::MaxDpiCrc),
            0x04 => Some(EEPROMAddress::CurrentDpi),
            0x05 => Some(EEPROMAddress::CurrentDpiCrc),
            0x0a => Some(EEPROMAddress::SilentHeight),
            0x0b => Some(EEPROMAddress::SilentHeightCrc),
            0x0c => Some(EEPROMAddress::DpiPair1),
            0x14 => Some(EEPROMAddress::DpiPair3),
            0x1c => Some(EEPROMAddress::DpiPair5),
            0x24 => Some(EEPROMAddress::DpiPair7),
            0x2c => Some(EEPROMAddress::DpiPair1Color),
            0x34 => Some(EEPROMAddress::DpiPair3Color),
            0x3c => Some(EEPROMAddress::DpiPair5Color),
            0x44 => Some(EEPROMAddress::DpiPair7Color),
            0x4c => Some(EEPROMAddress::DpiRgbLightingEffects),
            0x4d => Some(EEPROMAddress::DpiRgbLightingEffectsCrc),
            0x4e => Some(EEPROMAddress::DpiRgbLongBrightBrightness),
            0x4f => Some(EEPROMAddress::DpiRgbLongBrightBrightnessCrc),
            0x50 => Some(EEPROMAddress::DpiRgbLongBrightSpeed),
            0x51 => Some(EEPROMAddress::DpiRgbLongBrightSpeedCrc),
            0x52 => Some(EEPROMAddress::DpiRgbEnable),
            0x53 => Some(EEPROMAddress::DpiRgbEnableCrc),
            0x54 => Some(EEPROMAddress::ArticleLampR),
            0x55 => Some(EEPROMAddress::ArticleLampG),
            0x56 => Some(EEPROMAddress::ArticleLampB),
            0x57 => Some(EEPROMAddress::ArticleLampCRC),
            0x58 => Some(EEPROMAddress::ArticleLampEffects),
            0x59 => Some(EEPROMAddress::ArticleLampEffectsCRC),
            0x5a => Some(EEPROMAddress::ArticleLampLongBrightness),
            0x5b => Some(EEPROMAddress::ArticleLampLongBrightnessCRC),
            0x5c => Some(EEPROMAddress::ArticleLampBreathingSpeed),
            0x5d => Some(EEPROMAddress::ArticleLampBreathingSpeedCRC),
            0x5e => Some(EEPROMAddress::ArticleLampEnergySaving),
            0x5f => Some(EEPROMAddress::ArticleLampEnergySavingCRC),
            0xa9 => Some(EEPROMAddress::StabilizationTime),
            0xaa => Some(EEPROMAddress::StabilizationTimeCRC),
            0xab => Some(EEPROMAddress::MotionSync),
            0xac => Some(EEPROMAddress::MotionSyncCRC),
            0xad => Some(EEPROMAddress::CloseLedTime),
            0xae => Some(EEPROMAddress::CloseLedTimeCRC),
            0xaf => Some(EEPROMAddress::LinearCorrection),
            0xb0 => Some(EEPROMAddress::LinearCorrectionCRC),
            0xb1 => Some(EEPROMAddress::RippleControl),
            0xb2 => Some(EEPROMAddress::RippleControlCRC),
            0xb3 => Some(EEPROMAddress::MoveCloseLights),
            0xb4 => Some(EEPROMAddress::MoveCloseLightsCRC),
            0xb5 => Some(EEPROMAddress::SensorEnable),
            0xb6 => Some(EEPROMAddress::SensorEnableCRC),
            0xb7 => Some(EEPROMAddress::SensorTime),
            0xb8 => Some(EEPROMAddress::SensorTimeCRC),
            0xb9 => Some(EEPROMAddress::SensorMode),
            0xba => Some(EEPROMAddress::SensorModeCRC),
            0xbb => Some(EEPROMAddress::RfTxTime),
            0xbc => Some(EEPROMAddress::RfTxTimeCRC),
            0x60 => Some(EEPROMAddress::Key0),
            0x64 => Some(EEPROMAddress::Key1),
            0x68 => Some(EEPROMAddress::Key2),
            0x6c => Some(EEPROMAddress::Key3),
            0x70 => Some(EEPROMAddress::Key4),
            0x74 => Some(EEPROMAddress::Key5),
            0x78 => Some(EEPROMAddress::Key6),
            0x7c => Some(EEPROMAddress::Key7),
            0x80 => Some(EEPROMAddress::Key8),
            0x84 => Some(EEPROMAddress::Key9),
            0x88 => Some(EEPROMAddress::Key10),
            0x8c => Some(EEPROMAddress::Key11),
            0x90 => Some(EEPROMAddress::Key12),
            0x94 => Some(EEPROMAddress::Key13),
            0x98 => Some(EEPROMAddress::Key14),
            0x9c => Some(EEPROMAddress::Key15),
            0x100 => Some(EEPROMAddress::KeyShortcuts0),
            0x120 => Some(EEPROMAddress::KeyShortcuts1),
            0x140 => Some(EEPROMAddress::KeyShortcuts2),
            0x160 => Some(EEPROMAddress::KeyShortcuts3),
            0x180 => Some(EEPROMAddress::KeyShortcuts4),
            0x1a0 => Some(EEPROMAddress::KeyShortcuts5),
            0x1c0 => Some(EEPROMAddress::KeyShortcuts6),
            0x1e0 => Some(EEPROMAddress::KeyShortcuts7),
            0x200 => Some(EEPROMAddress::KeyShortcuts8),
            0x220 => Some(EEPROMAddress::KeyShortcuts9),
            0x240 => Some(EEPROMAddress::KeyShortcuts10),
            0x260 => Some(EEPROMAddress::KeyShortcuts11),
            0x280 => Some(EEPROMAddress::KeyShortcuts12),
            0x2a0 => Some(EEPROMAddress::KeyShortcuts13),
            0x2c0 => Some(EEPROMAddress::KeyShortcuts14),
            0x2e0 => Some(EEPROMAddress::KeyShortcuts15),
            0x300 => Some(EEPROMAddress::Macro0),
            0x480 => Some(EEPROMAddress::Macro1),
            0x600 => Some(EEPROMAddress::Macro2),
            0x780 => Some(EEPROMAddress::Macro3),
            0x900 => Some(EEPROMAddress::Macro4),
            0xa80 => Some(EEPROMAddress::Macro5),
            0xc00 => Some(EEPROMAddress::Macro6),
            0xd80 => Some(EEPROMAddress::Macro7),
            0xf00 => Some(EEPROMAddress::Macro8),
            0x1080 => Some(EEPROMAddress::Macro9),
            0x1200 => Some(EEPROMAddress::Macro10),
            0x1380 => Some(EEPROMAddress::Macro11),
            0x1500 => Some(EEPROMAddress::Macro12),
            0x1680 => Some(EEPROMAddress::Macro13),
            0x1800 => Some(EEPROMAddress::Macro14),
            0x1980 => Some(EEPROMAddress::Macro15),
            _ => None,
        }
    }

    /// Every register is found again from its own address.
    pub proof fn lemma_value_decodes(self)
        ensures
            EEPROMAddress::spec_from_u16(self.spec_value()) == Some(self),
    {
    }

    /// The register's 16-bit address.
    pub fn value(&self) -> (r: u16)
        ensures
            r == self.spec_value(),
    {
        match self {
            EEPROMAddress::ReportRate => 0x00,
            EEPROMAddress::ReportRateCrc => 0x01,
            EEPROMAddress::MaxDpi => 0x02,
            EEPROMAddress::MaxDpiCrc => 0x03,
            EEPROMAddress::CurrentDpi => 0x04,
            EEPROMAddress::CurrentDpiCrc => 0x05,
            EEPROMAddress::SilentHeight => 0x0a,
            EEPROMAddress::SilentHeightCrc => 0x0b,
            EEPROMAddress::DpiPair1 => 0x0c,
            EEPROMAddress::DpiPair3 => 0x14,
            EEPROMAddress::DpiPair5 => 0x1c,
            EEPROMAddress::DpiPair7 => 0x24,
            EEPROMAddress::DpiPair1Color => 0x2c,
            EEPROMAddress::DpiPair3Color => 0x34,
            EEPROMAddress::DpiPair5Color => 0x3c,
            EEPROMAddress::DpiPair7Color => 0x44,
            EEPROMAddress::DpiRgbLightingEffects => 0x4c,
            EEPROMAddress::DpiRgbLightingEffectsCrc => 0x4d,
            EEPROMAddress::DpiRgbLongBrightBrightness => 0x4e,
            EEPROMAddress::DpiRgbLongBrightBrightnessCrc => 0x4f,
            EEPROMAddress::DpiRgbLongBrightSpeed => 0x50,
            EEPROMAddress::DpiRgbLongBrightSpeedCrc => 0x51,
            EEPROMAddress::DpiRgbEnable => 0x52,
            EEPROMAddress::DpiRgbEnableCrc => 0x53,
            EEPROMAddress::ArticleLampR => 0x54,
            EEPROMAddress::ArticleLampG => 0x55,
            EEPROMAddress::ArticleLampB => 0x56,
            EEPROMAddress::ArticleLampCRC => 0x57,
            EEPROMAddress::ArticleLampEffects => 0x58,
            EEPROMAddress::ArticleLampEffectsCRC => 0x59,
            EEPROMAddress::ArticleLampLongBrightness => 0x5a,
            EEPROMAddress::ArticleLampLongBrightnessCRC => 0x5b,
            EEPROMAddress::ArticleLampBreathingSpeed => 0x5c,
            EEPROMAddress::ArticleLampBreathingSpeedCRC => 0x5d,
            EEPROMAddress::ArticleLampEnergySaving => 0x5e,
            EEPROMAddress::ArticleLampEnergySavingCRC => 0x5f,
            EEPROMAddress::StabilizationTime => 0xa9,
            EEPROMAddress::StabilizationTimeCRC => 0xaa,
            EEPROMAddress::MotionSync => 0xab,
            EEPROMAddress::MotionSyncCRC => 0xac,
            EEPROMAddress::CloseLedTime => 0xad,
            EEPROMAddress::CloseLedTimeCRC => 0xae,
            EEPROMAddress::LinearCorrection => 0xaf,
            EEPROMAddress::LinearCorrectionCRC => 0xb0,
            EEPROMAddress::RippleControl => 0xb1,
            EEPROMAddress::RippleControlCRC => 0xb2,
            EEPROMAddress::MoveCloseLights => 0xb3,
            EEPROMAddress::MoveCloseLightsCRC => 0xb4,
            EEPROMAddress::SensorEnable => 0xb5,
            EEPROMAddress::SensorEnableCRC => 0xb6,
            EEPROMAddress::SensorTime => 0xb7,
            EEPROMAddress::SensorTimeCRC => 0xb8,
            EEPROMAddress::SensorMode => 0xb9,
            EEPROMAddress::SensorModeCRC => 0xba,
            EEPROMAddress::RfTxTime => 0xbb,
            EEPROMAddress::RfTxTimeCRC => 0xbc,
            EEPROMAddress::Key0 => 0x60,
            EEPROMAddress::Key1 => 0x64,
            EEPROMAddress::Key2 => 0x68,
            EEPROMAddress::Key3 => 0x6c,
            EEPROMAddress::Key4 => 0x70,
            EEPROMAddress::Key5 => 0x74,
            EEPROMAddress::Key6 => 0x78,
            EEPROMAddress::Key7 => 0x7c,
            EEPROMAddress::Key8 => 0x80,
            EEPROMAddress::Key9 => 0x84,
            EEPROMAddress::Key10 => 0x88,
            EEPROMAddress::Key11 => 0x8c,
            EEPROMAddress::Key12 => 0x90,
            EEPROMAddress::Key13 => 0x94,
            EEPROMAddress::Key14 => 0x98,
            EEPROMAddress::Key15 => 0x9c,
            EEPROMAddress::KeyShortcuts0 => 0x100,
            EEPROMAddress::KeyShortcuts1 => 0x120,
            EEPROMAddress::KeyShortcuts2 => 0x140,
            EEPROMAddress::KeyShortcuts3 => 0x160,
            EEPROMAddress::KeyShortcuts4 => 0x180,
            EEPROMAddress::KeyShortcuts5 => 0x1a0,
            EEPROMAddress::KeyShortcuts6 => 0x1c0,
            EEPROMAddress::KeyShortcuts7 => 0x1e0,
            EEPROMAddress::KeyShortcuts8 => 0x200,
            EEPROMAddress::KeyShortcuts9 => 0x220,
            EEPROMAddress::KeyShortcuts10 => 0x240,
            EEPROMAddress::KeyShortcuts11 => 0x260,
            EEPROMAddress::KeyShortcuts12 => 0x280,
            EEPROMAddress::KeyShortcuts13 => 0x2a0,
            EEPROMAddress::KeyShortcuts14 => 0x2c0,
            EEPROMAddress::KeyShortcuts15 => 0x2e0,
            EEPROMAddress::Macro0 => 0x300,
            EEPROMAddress::Macro1 => 0x480,
            EEPROMAddress::Macro2 => 0x600,
            EEPROMAddress::Macro3 => 0x780,
            EEPROMAddress::Macro4 => 0x900,
            EEPROMAddress::Macro5 => 0xa80,
            EEPROMAddress::Macro6 => 0xc00,
            EEPROMAddress::Macro7 => 0xd80,
            EEPROMAddress::Macro8 => 0xf00,
            EEPROMAddress::Macro9 => 0x1080,
            EEPROMAddress::Macro10 => 0x1200,
            EEPROMAddress::Macro11 => 0x1380,
            EEPROMAddress::Macro12 => 0x1500,
            EEPROMAddress::Macro13 => 0x1680,
            EEPROMAddress::Macro14 => 0x1800,
            EEPROMAddress::Macro15 => 0x1980,
        }
    }

    /// Looks up the register at address `v`.
    pub fn from_u16(v: u16) -> (r: Result<EEPROMAddress, Error>)
        ensures
            match EEPROMAddress::spec_from_u16(v) {
                Some(a) => r == Ok::<EEPROMAddress, Error>(a),
                None => r == Err::<EEPROMAddress, Error>(Error::InvalidEEPROMAddress(v)),
            },
    {
        match v {
            0x00 => Ok(EEPROMAddress::ReportRate),
            0x01 => Ok(EEPROMAddress::ReportRateCrc),
            0x02 => Ok(EEPROMAddress::MaxDpi),
            0x03 => Ok(EEPROMAddress::MaxDpiCrc),
            0x04 => Ok(EEPROMAddress::CurrentDpi),
            0x05 => Ok(EEPROMAddress::CurrentDpiCrc),
            0x0a => Ok(EEPROMAddress::SilentHeight),
            0x0b => Ok(EEPROMAddress::SilentHeightCrc),
            0x0c => Ok(EEPROMAddress::DpiPair1),
            0x14 => Ok(EEPROMAddress::DpiPair3),
            0x1c => Ok(EEPROMAddress::DpiPair5),
            0x24 => Ok(EEPROMAddress::DpiPair7),
            0x2c => Ok(EEPROMAddress::DpiPair1Color),
            0x34 => Ok(EEPROMAddress::DpiPair3Color),
            0x3c => Ok(EEPROMAddress::DpiPair5Color),
            0x44 => Ok(EEPROMAddress::DpiPair7Color),
            0x4c => Ok(EEPROMAddress::DpiRgbLightingEffects),
            0x4d => Ok(EEPROMAddress::DpiRgbLightingEffectsCrc),
            0x4e => Ok(EEPROMAddress::DpiRgbLongBrightBrightness),
            0x4f => Ok(EEPROMAddress::DpiRgbLongBrightBrightnessCrc),
            0x50 => Ok(EEPROMAddress::DpiRgbLongBrightSpeed),
            0x51 => Ok(EEPROMAddress::DpiRgbLongBrightSpeedCrc),
            0x52 => Ok(EEPROMAddress::DpiRgbEnable),
            0x53 => Ok(EEPROMAddress::DpiRgbEnableCrc),
            0x54 => Ok(EEPROMAddress::ArticleLampR),
            0x55 => Ok(EEPROMAddress::ArticleLampG),
            0x56 => Ok(EEPROMAddress::ArticleLampB),
            0x57 => Ok(EEPROMAddress::ArticleLampCRC),
            0x58 => Ok(EEPROMAddress::ArticleLampEffects),
            0x59 => Ok(EEPROMAddress::ArticleLampEffectsCRC),
            0x5a => Ok(EEPROMAddress::ArticleLampLongBrightness),
            0x5b => Ok(EEPROMAddress::ArticleLampLongBrightnessCRC),
            0x5c => Ok(EEPROMAddress::ArticleLampBreathingSpeed),
            0x5d => Ok(EEPROMAddress::ArticleLampBreathingSpeedCRC),
            0x5e => Ok(EEPROMAddress::ArticleLampEnergySaving),
            0x5f => Ok(EEPROMAddress::ArticleLampEnergySavingCRC),
            0xa9 => Ok(EEPROMAddress::StabilizationTime),
            0xaa => Ok(EEPROMAddress::StabilizationTimeCRC),
            0xab => Ok(EEPROMAddress::MotionSync),
            0xac => Ok(EEPROMAddress::MotionSyncCRC),
            0xad => Ok(EEPROMAddress::CloseLedTime),
            0xae => Ok(EEPROMAddress::CloseLedTimeCRC),
            0xaf => Ok(EEPROMAddress::LinearCorrection),
            0xb0 => Ok(EEPROMAddress::LinearCorrectionCRC),
            0xb1 => Ok(EEPROMAddress::RippleControl),
            0xb2 => Ok(EEPROMAddress::RippleControlCRC),
            0xb3 => Ok(EEPROMAddress::MoveCloseLights),
            0xb4 => Ok(EEPROMAddress::MoveCloseLightsCRC),
            0xb5 => Ok(EEPROMAddress::SensorEnable),
            0xb6 => Ok(EEPROMAddress::SensorEnableCRC),
            0xb7 => Ok(EEPROMAddress::SensorTime),
            0xb8 => Ok(EEPROMAddress::SensorTimeCRC),
            0xb9 => Ok(EEPROMAddress::SensorMode),
            0xba => Ok(EEPROMAddress::SensorModeCRC),
            0xbb => Ok(EEPROMAddress::RfTxTime),
            0xbc => Ok(EEPROMAddress::RfTxTimeCRC),
            0x60 => Ok(EEPROMAddress::Key0),
            0x64 => Ok(EEPROMAddress::Key1),
            0x68 => Ok(EEPROMAddress::Key2),
            0x6c => Ok(EEPROMAddress::Key3),
            0x70 => Ok(EEPROMAddress::Key4),
            0x74 => Ok(EEPROMAddress::Key5),
            0x78 => Ok(EEPROMAddress::Key6),
            0x7c => Ok(EEPROMAddress::Key7),
            0x80 => Ok(EEPROMAddress::Key8),
            0x84 => Ok(EEPROMAddress::Key9),
            0x88 => Ok(EEPROMAddress::Key10),
            0x8c => Ok(EEPROMAddress::Key11),
            0x90 => Ok(EEPROMAddress::Key12),
            0x94 => Ok(EEPROMAddress::Key13),
            0x98 => Ok(EEPROMAddress::Key14),
            0x9c => Ok(EEPROMAddress::Key15),
            0x100 => Ok(EEPROMAddress::KeyShortcuts0),
            0x120 => Ok(EEPROMAddress::KeyShortcuts1),
            0x140 => Ok(EEPROMAddress::KeyShortcuts2),
            0x160 => Ok(EEPROMAddress::KeyShortcuts3),
            0x180 => Ok(EEPROMAddress::KeyShortcuts4),
            0x1a0 => Ok(EEPROMAddress::KeyShortcuts5),
            0x1c0 => Ok(EEPROMAddress::KeyShortcuts6),
            0x1e0 => Ok(EEPROMAddress::KeyShortcuts7),
            0x200 => Ok(EEPROMAddress::KeyShortcuts8),
            0x220 => Ok(EEPROMAddress::KeyShortcuts9),
            0x240 => Ok(EEPROMAddress::KeyShortcuts10),
            0x260 => Ok(EEPROMAddress::KeyShortcuts11),
            0x280 => Ok(EEPROMAddress::KeyShortcuts12),
            0x2a0 => Ok(EEPROMAddress::KeyShortcuts13),
            0x2c0 => Ok(EEPROMAddress::KeyShortcuts14),
            0x2e0 => Ok(EEPROMAddress::KeyShortcuts15),
            0x300 => Ok(EEPROMAddress::Macro0),
            0x480 => Ok(EEPROMAddress::Macro1),
            0x600 => Ok(EEPROMAddress::Macro2),
            0x780 => Ok(EEPROMAddress::Macro3),
            0x900 => Ok(EEPROMAddress::Macro4),
            0xa80 => Ok(EEPROMAddress::Macro5),
            0xc00 => Ok(EEPROMAddress::Macro6),
            0xd80 => Ok(EEPROMAddress::Macro7),
            0xf00 => Ok(EEPROMAddress::Macro8),
            0x1080 => Ok(EEPROMAddress::Macro9),
            0x1200 => Ok(EEPROMAddress::Macro10),
            0x1380 => Ok(EEPROMAddress::Macro11),
            0x1500 => Ok(EEPROMAddress::Macro12),
            0x1680 => Ok(EEPROMAddress::Macro13),
            0x1800 => Ok(EEPROMAddress::Macro14),
            0x1980 => Ok(EEPROMAddress::Macro15),
            _ => Err(Error::InvalidEEPROMAddress(v)),
        }
    }
}

impl TryFrom<u8> for CommandId {
    type Error = Error;

    fn try_from(value: u8) -> (r: Result<CommandId, Error>)
        ensures
            match CommandId::spec_from_u8(value) {
                Some(c) => r == Ok::<CommandId, Error>(c),
                None => r == Err::<CommandId, Error>(Error::InvalidCommandId(value)),
            },
    {
        CommandId::from_u8(value)
    }
}

impl vstd::std_specs::convert::TryFromSpecImpl<u8> for CommandId {
    open spec fn obeys_try_from_spec() -> bool {
        true
    }

    open spec fn try_from_spec(v: u8) -> Result<CommandId, Error> {
        match CommandId::spec_from_u8(v) {
            Some(c) => Ok(c),
            None => Err(Error::InvalidCommandId(v)),
        }
    }
}

impl TryFrom<u16> for EEPROMAddress {
    type Error = Error;

    fn try_from(value: u16) -> (r: Result<EEPROMAddress, Error>)
        ensures
            match EEPROMAddress::spec_from_u16(value) {
                Some(a) => r == Ok::<EEPROMAddress, Error>(a),
                None => r == Err::<EEPROMAddress, Error>(Error::InvalidEEPROMAddress(value)),
            },
    {
        EEPROMAddress::from_u16(value)
    }
}

impl vstd::std_specs::convert::TryFromSpecImpl<u16> for EEPROMAddress {
    open spec fn obeys_try_from_spec() -> bool {
        true
    }

    open spec fn try_from_spec(v: u16) -> Result<EEPROMAddress, Error> {
        match EEPROMAddress::spec_from_u16(v) {
            Some(a) => Ok(a),
            None => Err(Error::InvalidEEPROMAddress(v)),
        }
    }
}

} // verus!
