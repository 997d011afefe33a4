use vstd::prelude::*;

use crate::checksum::{
    byte_sum, checksum_for_sum, lemma_byte_sum_push,
    lemma_checksum_completes, lemma_checksum_from_low_byte, CHECKSUM_TARGET,
};
use crate::types::{CommandId, EEPROMAddress, Error};

verus! {

/// Offset of the first payload byte within a frame.
pub const BASE_OFFSET: usize = 5;

/// Length of a frame, without the transport's report identifier.
pub const FRAME_LEN: usize = 16;

/// Number of payload bytes that a frame carries.
pub const DATA_CAPACITY: usize = FRAME_LEN - BASE_OFFSET - 1;

/// A device family that the command codec serves.
///
/// The frame layout is the same for every family; a family supplies the
/// transport-level report identifier that prefixes each frame on the wire and
/// enters the checksum.
pub trait CommandDescriptor {
    /// The family's report identifier.
    spec fn spec_report_id() -> u8;

    fn report_id() -> (r: u8)
        ensures
            r == Self::spec_report_id(),
    ;
}

/// A device family known by its report identifier alone.
pub struct DeviceFamily<const REPORT_ID: u8>;

impl<const REPORT_ID: u8> CommandDescriptor for DeviceFamily<REPORT_ID> {
    open spec fn spec_report_id() -> u8 {
        REPORT_ID
    }

    fn report_id() -> (r: u8) {
        REPORT_ID
    }
}

/// The abstract content of a command.
pub struct CommandView {
    pub report_id: u8,
    pub id: CommandId,
    pub status: u8,
    pub address: EEPROMAddress,
    pub data_len: nat,
    pub data: Seq<u8>,
    pub checksum: u8,
}

/// The big-endian 16-bit value of two bytes.
pub open spec fn be_u16(hi: u8, lo: u8) -> u16 {
    (hi as int * 256 + lo as int) as u16
}

impl CommandView {
    /// The payload area has its fixed size, the valid length fits in it, and
    /// the bytes past the valid length are zero.
    pub open spec fn wf(self) -> bool {
        &&& self.data_len <= DATA_CAPACITY
        &&& self.data.len() == DATA_CAPACITY
        &&& forall|i: int| self.data_len <= i < DATA_CAPACITY ==> self.data[i] == 0
    }

    /// The sum that the checksum covers: report identifier, operation, status,
    /// the full 16-bit address, valid length and payload bytes.
    pub open spec fn field_sum(self) -> int {
        self.report_id as int + self.id.spec_value() as int + self.status as int
            + self.address.spec_value() as int + self.data_len + byte_sum(self.data)
    }

    pub open spec fn checksum_ok(self) -> bool {
        self.checksum == checksum_for_sum(self.field_sum())
    }

    /// The same command with its checksum brought up to date.
    pub open spec fn with_checksum(self) -> CommandView {
        CommandView { checksum: checksum_for_sum(self.field_sum()), ..self }
    }

    /// The frame that carries the command:
    /// operation, status, address (big-endian), valid length, payload, checksum.
    pub open spec fn frame(self) -> Seq<u8> {
        seq![
            self.id.spec_value(),
            self.status,
            (self.address.spec_value() / 256) as u8,
            (self.address.spec_value() % 256) as u8,
            self.data_len as u8,
        ] + self.data + seq![self.checksum]
    }
}

/// The first fault of a frame, if it has one: a wrong length, an unknown
/// operation, an unknown register, or a valid length past the payload area.
pub open spec fn frame_error(raw: Seq<u8>) -> Option<Error> {
    if raw.len() != FRAME_LEN {
        Some(Error::InvalidBufferLength { expected: FRAME_LEN, actual: raw.len() as usize })
    } else if CommandId::spec_from_u8(raw[0]) == None::<CommandId> {
        Some(Error::InvalidCommandId(raw[0]))
    } else if EEPROMAddress::spec_from_u16(be_u16(raw[2], raw[3])) == None::<EEPROMAddress> {
        Some(Error::InvalidEEPROMAddress(be_u16(raw[2], raw[3])))
    } else if raw[4] > DATA_CAPACITY {
        Some(Error::DataTooLarge(raw[4] as usize))
    } else {
        None
    }
}

/// The command that a sound frame holds, read with the given report
/// identifier. The checksum byte is taken as it stands; payload bytes past the
/// valid length are dropped.
pub open spec fn frame_view(raw: Seq<u8>, report_id: u8) -> CommandView {
    CommandView {
        report_id,
        id: CommandId::spec_from_u8(raw[0]).unwrap(),
        status: raw[1],
        address: EEPROMAddress::spec_from_u16(be_u16(raw[2], raw[3])).unwrap(),
        data_len: raw[4] as nat,
        data: Seq::new(
            DATA_CAPACITY as nat,
            |i: int| if i < raw[4] { raw[BASE_OFFSET + i] } else { 0u8 },
        ),
        checksum: raw[FRAME_LEN - 1],
    }
}

/// Parsing a frame: its first fault, or the command that it holds.
pub open spec fn parse_frame(raw: Seq<u8>, report_id: u8) -> Result<CommandView, Error> {
    match frame_error(raw) {
        Some(e) => Err(e),
        None => Ok(frame_view(raw, report_id)),
    }
}

/// One command frame for a device family `T`: its fields, a payload area of
/// fixed size, and a checksum that every mutation keeps up to date.
pub struct Command<T: CommandDescriptor> {
    command_id: CommandId,
    status: u8,
    eeprom_address: EEPROMAddress,
    data_len: usize,
    data: Vec<u8>,
    report_id: u8,
    checksum: u8,
    _cmd: std::marker::PhantomData<T>,
}

impl<T: CommandDescriptor> View for Command<T> {
    type V = CommandView;

    closed spec fn view(&self) -> CommandView {
        CommandView {
            report_id: self.report_id,
            id: self.command_id,
            status: self.status,
            address: self.eeprom_address,
            data_len: self.data_len as nat,
            data: self.data@,
            checksum: self.checksum,
        }
    }
}

/// The sum of the payload bytes.
fn data_sum(data: &Vec<u8>) -> (r: u32)
    requires
        data@.len() <= DATA_CAPACITY,
    ensures
        r == byte_sum(data@),
        r <= 255 * DATA_CAPACITY,
{
    let mut sum: u32 = 0;
    let mut i: usize = 0;
    while i < data.len()
        invariant
            i <= data@.len() <= DATA_CAPACITY,
            sum == byte_sum(data@.take(i as int)),
            sum <= 255 * i,
        decreases data@.len() - i,
    {
        proof {
            assert(data@.take(i as int + 1) =~= data@.take(i as int).push(data@[i as int]));
            lemma_byte_sum_push(data@.take(i as int), data@[i as int]);
        }
        sum = sum + data[i] as u32;
        i = i + 1;
    }
    assert(data@.take(i as int) =~= data@);
    sum
}

impl<T: CommandDescriptor> Command<T> {
    pub open spec fn wf(&self) -> bool {
        self@.wf()
    }

    /// Whether the command is well formed: the payload area has its fixed
    /// size, the valid length fits in it and the bytes past it are zero.
    /// Every command made and changed through this type is.
    pub fn is_well_formed(&self) -> (r: bool)
        ensures
            r == self.wf(),
    {
        if self.data.len() != DATA_CAPACITY || self.data_len > DATA_CAPACITY {
            return false;
        }
        let mut i: usize = self.data_len;
        while i < DATA_CAPACITY
            invariant
                self.data@.len() == DATA_CAPACITY,
                self.data_len <= i <= DATA_CAPACITY,
                forall|j: int| self.data_len <= j < i ==> self.data@[j] == 0,
            decreases DATA_CAPACITY - i,
        {
            if self.data[i] != 0 {
                return false;
            }
            i = i + 1;
        }
        true
    }

    /// The checksum that the other fields call for.
    fn computed_checksum(&self) -> (r: u8)
        requires
            self.wf(),
        ensures
            r == checksum_for_sum(self@.field_sum()),
    {
        let sum: u32 = self.report_id as u32 + self.command_id.value() as u32
            + self.status as u32 + self.eeprom_address.value() as u32 + self.data_len as u32
            + data_sum(&self.data);
        proof {
            lemma_checksum_from_low_byte(sum as int);
        }
        CHECKSUM_TARGET.wrapping_sub((sum % 256) as u8)
    }

    /// Recomputes the checksum from the other fields.
    fn set_checksum(&mut self)
        requires
            old(self).wf(),
        ensures
            final(self)@ == old(self)@.with_checksum(),
            final(self)@.checksum_ok(),
    {
        self.checksum = self.computed_checksum();
    }

    /// Serializes the command into its frame.
    pub fn as_bytes(&self) -> (r: Vec<u8>)
        requires
            self.wf(),
        ensures
            r@ == self@.frame(),
    {
        let address = self.eeprom_address.value();
        let mut raw: Vec<u8> = Vec::new();
        raw.push(self.command_id.value());
        raw.push(self.status);
        raw.push((address / 256) as u8);
        raw.push((address % 256) as u8);
        raw.push(self.data_len as u8);
        let ghost header = raw@;
        let mut i: usize = 0;
        while i < self.data.len()
            invariant
                i <= self.data@.len(),
                raw@ == header + self.data@.take(i as int),
            decreases self.data@.len() - i,
        {
            assert(self.data@.take(i as int + 1) =~= self.data@.take(i as int).push(
                self.data@[i as int],
            ));
            raw.push(self.data[i]);
            i = i + 1;
        }
        assert(self.data@.take(i as int) =~= self.data@);
        raw.push(self.checksum);
        assert(raw@ =~= self@.frame());
        raw
    }
}

impl<T: CommandDescriptor> Default for Command<T> {
    /// A command with the placeholder operation, zero status, the report-rate
    /// register, an empty payload and a checksum that matches.
    fn default() -> (r: Self)
        ensures
            r.wf(),
            r@.checksum_ok(),
            r@.report_id == T::spec_report_id(),
            r@.id == CommandId::Zero,
            r@.status == 0,
            r@.address == EEPROMAddress::ReportRate,
            r@.data_len == 0,
            r@.data == Seq::new(DATA_CAPACITY as nat, |i: int| 0u8),
    {
        let mut data: Vec<u8> = Vec::new();
        let mut i: usize = 0;
        while i < DATA_CAPACITY
            invariant
                i <= DATA_CAPACITY,
                data@ == Seq::new(i as nat, |j: int| 0u8),
            decreases DATA_CAPACITY - i,
        {
            data.push(0);
            i = i + 1;
            assert(data@ =~= Seq::new(i as nat, |j: int| 0u8));
        }
        let mut command = Command {
            command_id: CommandId::Zero,
            status: 0,
            eeprom_address: EEPROMAddress::ReportRate,
            data_len: 0,
            data,
            report_id: T::report_id(),
            checksum: 0,
            _cmd: std::marker::PhantomData,
        };
        command.set_checksum();
        command
    }
}

impl<T: CommandDescriptor> Command<T> {
    /// Parses a frame received from the device, with the report identifier
    /// of the family `T`. The checksum byte is kept as received.
    pub fn parse(raw: &[u8]) -> (r: Result<Command<T>, Error>)
        ensures
            match frame_error(raw@) {
                Some(e) => r == Err::<Command<T>, Error>(e),
                None => r matches Ok(c) && c.wf() && c@ == frame_view(raw@, T::spec_report_id()),
            },
            raw@.len() != FRAME_LEN ==> r == Err::<Command<T>, Error>(
                Error::InvalidBufferLength { expected: FRAME_LEN, actual: raw@.len() as usize },
            ),
    {
        if raw.len() != FRAME_LEN {
            return Err(Error::InvalidBufferLength { expected: FRAME_LEN, actual: raw.len() });
        }
        let command_id = match CommandId::from_u8(raw[0]) {
            Ok(id) => id,
            Err(e) => return Err(e),
        };
        let address: u16 = raw[2] as u16 * 256 + raw[3] as u16;
        let eeprom_address = match EEPROMAddress::from_u16(address) {
            Ok(a) => a,
            Err(e) => return Err(e),
        };
        let len = raw[4];
        if len as usize > DATA_CAPACITY {
            return Err(Error::DataTooLarge(len as usize));
        }
        let mut data: Vec<u8> = Vec::new();
        let mut i: usize = 0;
        while i < DATA_CAPACITY
            invariant
                i <= DATA_CAPACITY,
                raw@.len() == FRAME_LEN,
                len <= DATA_CAPACITY,
                data@ == Seq::new(
                    i as nat,
                    |j: int| if j < len { raw@[BASE_OFFSET + j] } else { 0u8 },
                ),
            decreases DATA_CAPACITY - i,
        {
            if i < len as usize {
                data.push(raw[BASE_OFFSET + i]);
            } else {
                data.push(0);
            }
            i = i + 1;
            assert(data@ =~= Seq::new(
                i as nat,
                |j: int| if j < len { raw@[BASE_OFFSET + j] } else { 0u8 },
            ));
        }
        let command = Command {
            command_id,
            status: raw[1],
            eeprom_address,
            data_len: len as usize,
            data,
            report_id: T::report_id(),
            checksum: raw[FRAME_LEN - 1],
            _cmd: std::marker::PhantomData,
        };
        Ok(command)
    }

    /// Whether the checksum matches the other fields. A command built and
    /// changed through this type always passes; a parsed one passes when the
    /// device sent a sound frame.
    pub fn has_valid_checksum(&self) -> (r: bool)
        requires
            self.wf(),
        ensures
            r == self@.checksum_ok(),
    {
        self.checksum == self.computed_checksum()
    }

    /// Copies `data` into the payload at `offset`. The write must lie within
    /// the valid length; grow the length first with `set_data_len`.
    pub fn set_data(&mut self, data: &[u8], offset: usize) -> (r: Result<(), Error>)
        requires
            old(self).wf(),
        ensures
            final(self).wf(),
            r is Ok ==> final(self)@.checksum_ok(),
            old(self)@.checksum_ok() ==> final(self)@.checksum_ok(),
            offset + data@.len() <= old(self)@.data_len ==> r is Ok && final(self)@ == (
            CommandView {
                data: Seq::new(
                    DATA_CAPACITY as nat,
                    |i: int|
                        if offset <= i < offset + data@.len() {
                            data@[i - offset]
                        } else {
                            old(self)@.data[i]
                        },
                ),
                ..old(self)@
            }).with_checksum(),
            offset + data@.len() > old(self)@.data_len ==> r == Err::<(), Error>(
                Error::InvalidDataLength {
                    offset,
                    data_len: data@.len() as usize,
                    allowed: old(self)@.data_len as usize,
                },
            ) && final(self)@ == old(self)@,
    {
        if offset > self.data_len || data.len() > self.data_len - offset {
            return Err(
                Error::InvalidDataLength { offset, data_len: data.len(), allowed: self.data_len },
            );
        }
        let ghost before = self.data@;
        let mut j: usize = 0;
        while j < data.len()
            invariant
                self.data_len == old(self).data_len,
                self.command_id == old(self).command_id,
                self.status == old(self).status,
                self.eeprom_address == old(self).eeprom_address,
                self.report_id == old(self).report_id,
                self.checksum == old(self).checksum,
                before == old(self).data@,
                old(self).wf(),
                offset + data@.len() <= self.data_len,
                j <= data@.len(),
                self.data@ == Seq::new(
                    DATA_CAPACITY as nat,
                    |i: int|
                        if offset <= i < offset + j {
                            data@[i - offset]
                        } else {
                            before[i]
                        },
                ),
            decreases data@.len() - j,
        {
            self.data.set(offset + j, data[j]);
            j = j + 1;
            assert(self.data@ =~= Seq::new(
                DATA_CAPACITY as nat,
                |i: int|
                    if offset <= i < offset + j {
                        data@[i - offset]
                    } else {
                        before[i]
                    },
            ));
        }
        self.set_checksum();
        Ok(())
    }

    /// Writes one payload byte at `offset`, which must lie within the valid
    /// length.
    pub fn set_data_byte(&mut self, value: u8, offset: usize) -> (r: Result<(), Error>)
        requires
            old(self).wf(),
        ensures
            final(self).wf(),
            r is Ok ==> final(self)@.checksum_ok(),
            old(self)@.checksum_ok() ==> final(self)@.checksum_ok(),
            offset < old(self)@.data_len ==> r is Ok && final(self)@ == (CommandView {
                data: old(self)@.data.update(offset as int, value),
                ..old(self)@
            }).with_checksum(),
            offset >= old(self)@.data_len ==> r == Err::<(), Error>(Error::InvalidOffset(offset))
                && final(self)@ == old(self)@,
    {
        if offset >= self.data_len {
            return Err(Error::InvalidOffset(offset));
        }
        self.data.set(offset, value);
        self.set_checksum();
        Ok(())
    }

    /// Writes `value` at the even `offset` and its complement
    /// `CHECKSUM_TARGET - value` (wrapping) right after it, so that the two
    /// bytes add up to `CHECKSUM_TARGET` modulo 256. Both bytes must lie within
    /// the valid length; nothing is written otherwise.
    pub fn set_data_byte_with_checksum(&mut self, value: u8, offset: usize) -> (r: Result<
        (),
        Error,
    >)
        requires
            old(self).wf(),
        ensures
            final(self).wf(),
            r is Ok ==> final(self)@.checksum_ok(),
            old(self)@.checksum_ok() ==> final(self)@.checksum_ok(),
            offset % 2 != 0 ==> r == Err::<(), Error>(Error::OffsetNotAligned(offset))
                && final(self)@ == old(self)@,
            offset % 2 == 0 && offset >= old(self)@.data_len ==> r == Err::<(), Error>(
                Error::InvalidOffset(offset),
            ) && final(self)@ == old(self)@,
            offset % 2 == 0 && offset + 1 == old(self)@.data_len ==> r == Err::<(), Error>(
                Error::InvalidOffset((offset + 1) as usize),
            ) && final(self)@ == old(self)@,
            offset % 2 == 0 && offset + 1 < old(self)@.data_len ==> r is Ok && final(self)@ == (
            CommandView {
                data: old(self)@.data.update(offset as int, value).update(
                    offset + 1,
                    CHECKSUM_TARGET.wrapping_sub(value),
                ),
                ..old(self)@
            }).with_checksum(),
            r is Ok ==> (final(self)@.data[offset as int] + final(self)@.data[offset + 1]) % 256
                == CHECKSUM_TARGET as int,
    {
        if offset % 2 != 0 {
            return Err(Error::OffsetNotAligned(offset));
        }
        if offset >= self.data_len {
            return Err(Error::InvalidOffset(offset));
        }
        if offset + 1 >= self.data_len {
            return Err(Error::InvalidOffset(offset + 1));
        }
        self.data.set(offset, value);
        self.data.set(offset + 1, CHECKSUM_TARGET.wrapping_sub(value));
        self.set_checksum();
        Ok(())
    }

    /// The operation.
    pub fn id(&self) -> (r: CommandId)
        ensures
            r == self@.id,
    {
        self.command_id
    }

    /// Sets the operation and updates the checksum.
    pub fn set_id(&mut self, id: CommandId)
        requires
            old(self).wf(),
        ensures
            final(self).wf(),
            final(self)@.checksum_ok(),
            final(self)@ == (CommandView { id, ..old(self)@ }).with_checksum(),
    {
        self.command_id = id;
        self.set_checksum();
    }

    /// The status byte: an argument in a request, the device's result in a
    /// response.
    pub fn status(&self) -> (r: u8)
        ensures
            r == self@.status,
    {
        self.status
    }

    /// Sets the status byte and updates the checksum.
    pub fn set_status(&mut self, status: u8)
        requires
            old(self).wf(),
        ensures
            final(self).wf(),
            final(self)@.checksum_ok(),
            final(self)@ == (CommandView { status, ..old(self)@ }).with_checksum(),
    {
        self.status = status;
        self.set_checksum();
    }

    /// The register that the command addresses.
    pub fn eeprom_address(&self) -> (r: EEPROMAddress)
        ensures
            r == self@.address,
    {
        self.eeprom_address
    }

    /// Sets the register address and updates the checksum.
    pub fn set_eeprom_address(&mut self, address: EEPROMAddress)
        requires
            old(self).wf(),
        ensures
            final(self).wf(),
            final(self)@.checksum_ok(),
            final(self)@ == (CommandView { address, ..old(self)@ }).with_checksum(),
    {
        self.eeprom_address = address;
        self.set_checksum();
    }

    /// The number of meaningful payload bytes.
    pub fn data_len(&self) -> (r: usize)
        ensures
            r == self@.data_len,
    {
        self.data_len
    }

    /// Sets the number of meaningful payload bytes, at most `DATA_CAPACITY`.
    /// Bytes that fall out of the valid length are cleared.
    pub fn set_data_len(&mut self, len: usize) -> (r: Result<(), Error>)
        requires
            old(self).wf(),
        ensures
            final(self).wf(),
            r is Ok ==> final(self)@.checksum_ok(),
            old(self)@.checksum_ok() ==> final(self)@.checksum_ok(),
            len > DATA_CAPACITY ==> r == Err::<(), Error>(Error::DataTooLarge(len))
                && final(self)@ == old(self)@,
            len <= DATA_CAPACITY ==> r is Ok && final(self)@ == (CommandView {
                data_len: len as nat,
                data: Seq::new(
                    DATA_CAPACITY as nat,
                    |i: int| if i < len { old(self)@.data[i] } else { 0u8 },
                ),
                ..old(self)@
            }).with_checksum(),
    {
        if len > DATA_CAPACITY {
            return Err(Error::DataTooLarge(len));
        }
        let ghost before = self.data@;
        let mut j: usize = len;
        while j < DATA_CAPACITY
            invariant
                self.data_len == old(self).data_len,
                self.command_id == old(self).command_id,
                self.status == old(self).status,
                self.eeprom_address == old(self).eeprom_address,
                self.report_id == old(self).report_id,
                self.checksum == old(self).checksum,
                before == old(self).data@,
                old(self).wf(),
                len <= j <= DATA_CAPACITY,
                self.data@ == Seq::new(
                    DATA_CAPACITY as nat,
                    |i: int| if len <= i < j { 0u8 } else { before[i] },
                ),
            decreases DATA_CAPACITY - j,
        {
            self.data.set(j, 0);
            j = j + 1;
            assert(self.data@ =~= Seq::new(
                DATA_CAPACITY as nat,
                |i: int| if len <= i < j { 0u8 } else { before[i] },
            ));
        }
        self.data_len = len;
        assert(self.data@ =~= Seq::new(
            DATA_CAPACITY as nat,
            |i: int| if i < len { before[i] } else { 0u8 },
        ));
        self.set_checksum();
        Ok(())
    }

    /// The whole payload area; bytes past the valid length are zero.
    pub fn data(&self) -> (r: &[u8])
        ensures
            r@ == self@.data,
    {
        self.data.as_slice()
    }

    /// The report identifier of the device family, as the checksum uses it.
    pub fn report_id(&self) -> (r: u8)
        ensures
            r == self@.report_id,
    {
        self.report_id
    }
}

impl<T: CommandDescriptor> Clone for Command<T> {
    fn clone(&self) -> (r: Self)
        ensures
            r@ == self@,
    {
        let mut data: Vec<u8> = Vec::new();
        let mut i: usize = 0;
        while i < self.data.len()
            invariant
                i <= self.data@.len(),
                data@ == self.data@.take(i as int),
            decreases self.data@.len() - i,
        {
            assert(self.data@.take(i as int + 1) =~= self.data@.take(i as int).push(
                self.data@[i as int],
            ));
            data.push(self.data[i]);
            i = i + 1;
        }
        assert(self.data@.take(i as int) =~= self.data@);
        Command {
            command_id: self.command_id,
            status: self.status,
            eeprom_address: self.eeprom_address,
            data_len: self.data_len,
            data,
            report_id: self.report_id,
            checksum: self.checksum,
            _cmd: std::marker::PhantomData,
        }
    }
}

impl<'a, T: CommandDescriptor> TryFrom<&'a [u8]> for Command<T> {
    type Error = Error;

    /// Same as `Command::parse`.
    fn try_from(raw: &'a [u8]) -> (r: Result<Command<T>, Error>)
        ensures
            match frame_error(raw@) {
                Some(e) => r == Err::<Command<T>, Error>(e),
                None => r matches Ok(c) && c.wf() && c@ == frame_view(raw@, T::spec_report_id()),
            },
    {
        Command::parse(raw)
    }
}

impl<'a, T: CommandDescriptor> vstd::std_specs::convert::TryFromSpecImpl<&'a [u8]> for Command<T> {
    /// The result depends on the family's report identifier, which the
    /// contract of `try_from` above describes instead.
    open spec fn obeys_try_from_spec() -> bool {
        false
    }

    open spec fn try_from_spec(raw: &'a [u8]) -> Result<Command<T>, Error> {
        arbitrary()
    }
}

/// The sum that a receiver checks, read off a frame: the report identifier,
/// the operation, the status, the address as one 16-bit value, the valid
/// length, the payload bytes and the checksum.
pub open spec fn frame_total(report_id: u8, b: Seq<u8>) -> int {
    report_id as int + b[0] as int + b[1] as int + be_u16(b[2], b[3]) as int + b[4] as int
        + byte_sum(b.subrange(BASE_OFFSET as int, FRAME_LEN - 1)) + b[FRAME_LEN - 1] as int
}

/// The frame of a well-formed command whose checksum is up to date, read
/// with the command's report identifier, sums to `CHECKSUM_TARGET` modulo 256.
pub proof fn lemma_frame_total(v: CommandView)
    requires
        v.wf(),
        v.checksum_ok(),
    ensures
        frame_total(v.report_id, v.frame()) % 256 == CHECKSUM_TARGET as int,
{
    let b = v.frame();
    assert(b.subrange(BASE_OFFSET as int, FRAME_LEN - 1) =~= v.data);
    assert(be_u16(b[2], b[3]) == v.address.spec_value());
    assert(frame_total(v.report_id, b) == v.field_sum() + v.checksum);
    lemma_checksum_completes(v.field_sum());
}

/// Holds a command while it is being set up.
pub struct CommandBuilder<T: CommandDescriptor> {
    pub command: Command<T>,
}

impl<T: CommandDescriptor> CommandBuilder<T> {
    pub fn new(command: Command<T>) -> (r: Self)
        ensures
            r.command == command,
    {
        CommandBuilder { command }
    }

    /// Hands out the command.
    pub fn build(self) -> (r: Command<T>)
        ensures
            r == self.command,
    {
        self.command
    }
}

/// Parsing the frame of a well-formed command gives the command back, so
/// serializing, parsing and serializing again yields the first frame.
pub proof fn lemma_round_trip(v: CommandView)
    requires
        v.wf(),
    ensures
        parse_frame(v.frame(), v.report_id) == Ok::<CommandView, Error>(v),
        parse_frame(v.frame(), v.report_id) matches Ok(w) && w.frame() == v.frame(),
{
    v.id.lemma_value_decodes();
    v.address.lemma_value_decodes();
    let raw = v.frame();
    assert(be_u16(raw[2], raw[3]) == v.address.spec_value());
    let data = Seq::new(
        DATA_CAPACITY as nat,
        |i: int| if i < raw[4] { raw[BASE_OFFSET + i] } else { 0u8 },
    );
    assert(data =~= v.data);
}

/// Once its checksum is brought up to date, a command's report identifier,
/// fields and checksum add up to `CHECKSUM_TARGET` modulo 256.
pub proof fn lemma_checksum_total(v: CommandView)
    ensures
        v.with_checksum().checksum_ok(),
        v.checksum_ok() ==> (v.field_sum() + v.checksum) % 256 == CHECKSUM_TARGET as int,
        (v.with_checksum().field_sum() + v.with_checksum().checksum) % 256
            == CHECKSUM_TARGET as int,
{
    lemma_checksum_completes(v.field_sum());
}

} // verus!
