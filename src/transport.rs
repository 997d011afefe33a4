use vstd::prelude::*;

use crate::command::{frame_error, frame_view, Command, CommandDescriptor, FRAME_LEN};
use crate::types::Error;

verus! {

/// A channel to one device that carries whole reports: the report identifier
/// followed by a frame. Failures are reported with the channel's own message.
pub trait Transport {
    /// Writes one report and returns the number of bytes written.
    fn write(&self, report: &[u8]) -> Result<usize, String>;

    /// Reads one report, report identifier first.
    fn read(&self) -> Result<Vec<u8>, String>;
}

/// The faults that parsing a frame can find.
pub open spec fn is_frame_fault(e: Error) -> bool {
    ||| e is InvalidBufferLength
    ||| e is InvalidCommandId
    ||| e is InvalidEEPROMAddress
    ||| e is DataTooLarge
}

/// What follows the report identifier in a report read from the device.
pub open spec fn report_payload(report: Seq<u8>) -> Seq<u8> {
    if report.len() == 0 {
        report
    } else {
        report.drop_first()
    }
}

/// Drops the leading report identifier of a report.
pub fn strip_report_id(report: &[u8]) -> (r: Vec<u8>)
    ensures
        r@ == report_payload(report@),
{
    let mut payload: Vec<u8> = Vec::new();
    if report.len() == 0 {
        assert(payload@ =~= report@);
        return payload;
    }
    let mut i: usize = 1;
    while i < report.len()
        invariant
            1 <= i <= report@.len(),
            payload@ == report@.subrange(1, i as int),
        decreases report@.len() - i,
    {
        payload.push(report[i]);
        i = i + 1;
        assert(payload@ =~= report@.subrange(1, i as int));
    }
    assert(payload@ =~= report@.drop_first());
    payload
}

impl<T: CommandDescriptor> Command<T> {
    /// The report that carries the command: its report identifier, then its frame.
    pub fn to_report(&self) -> (r: Vec<u8>)
        requires
            self.wf(),
        ensures
            r@ == seq![self@.report_id] + self@.frame(),
            r@.len() == FRAME_LEN + 1,
    {
        let frame = self.as_bytes();
        let mut report: Vec<u8> = Vec::new();
        report.push(self.report_id());
        let mut i: usize = 0;
        while i < frame.len()
            invariant
                i <= frame@.len(),
                report@ == seq![self@.report_id] + frame@.take(i as int),
            decreases frame@.len() - i,
        {
            assert(frame@.take(i as int + 1) =~= frame@.take(i as int).push(frame@[i as int]));
            report.push(frame[i]);
            i = i + 1;
        }
        assert(frame@.take(i as int) =~= frame@);
        report
    }

    /// Parses a report read from the device: drops the report identifier and
    /// parses the frame that follows.
    pub fn from_report(report: &[u8]) -> (r: Result<Command<T>, Error>)
        ensures
            match frame_error(report_payload(report@)) {
                Some(e) => r == Err::<Command<T>, Error>(e),
                None => r matches Ok(c) && c.wf() && c@ == frame_view(
                    report_payload(report@),
                    T::spec_report_id(),
                ),
            },
    {
        let payload = strip_report_id(report);
        Command::parse(payload.as_slice())
    }

    /// Sends the command over `device`, reads the answer and parses it as a
    /// command of the same family. A transport failure comes back as
    /// `TransportError` with the transport's message; an answer that does not
    /// parse comes back as `ParseError` with the cause.
    pub fn execute<D: Transport>(&self, device: &D) -> (r: Result<Command<T>, Error>)
        requires
            self.wf(),
        ensures
            r matches Ok(c) ==> c.wf() && c@.report_id == T::spec_report_id(),
            r matches Err(e) ==> e is TransportError || e is ParseError,
            r matches Err(Error::ParseError(cause)) ==> is_frame_fault(*cause),
    {
        let report = self.to_report();
        match device.write(report.as_slice()) {
            Ok(_) => {},
            Err(message) => return Err(Error::TransportError(message)),
        }
        let response = match device.read() {
            Ok(bytes) => bytes,
            Err(message) => return Err(Error::TransportError(message)),
        };
        match Command::from_report(response.as_slice()) {
            Ok(c) => Ok(c),
            Err(e) => Err(Error::ParseError(Box::new(e))),
        }
    }
}

} // verus!
