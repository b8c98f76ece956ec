//! The CMSIS-DAP command interpreter: commands, the reader of a request and
//! the writer of a response.

use vstd::prelude::*;
use crate::app::PinState;
use crate::bytes::{le16, le32, push_slice, push_u16, push_u32, word16, word32};
use crate::gpio::{OutputType, Pin, PinConfig, PinMode, Pins};
use crate::spi::{SPIClock, SPI};
use crate::swd::{APnDP, Error, SWD};

verus! {

/// The commands of CMSIS-DAP. `Unimplemented` stands for every command byte
/// that is none of the others.
#[allow(non_camel_case_types)]
#[derive(Copy, Clone, PartialEq, Eq, Structural, Debug)]
pub enum Command {
    DAP_Info,
    DAP_HostStatus,
    DAP_Connect,
    DAP_Disconnect,
    DAP_WriteABORT,
    DAP_Delay,
    DAP_ResetTarget,
    DAP_SWJ_Pins,
    DAP_SWJ_Clock,
    DAP_SWJ_Sequence,
    DAP_SWD_Configure,
    DAP_SWD_Sequence,
    DAP_SWO_Transport,
    DAP_SWO_Mode,
    DAP_SWO_Baudrate,
    DAP_SWO_Control,
    DAP_SWO_Status,
    DAP_SWO_ExtendedStatus,
    DAP_SWO_Data,
    DAP_JTAG_Sequence,
    DAP_JTAG_Configure,
    DAP_JTAG_IDCODE,
    DAP_TransferConfigure,
    DAP_Transfer,
    DAP_TransferBlock,
    DAP_TransferAbort,
    DAP_ExecuteCommands,
    DAP_QueueCommands,
    Unimplemented,
}

impl Command {
    /// The command for a command byte.
    pub open spec fn spec_from_u8(v: u8) -> Command {
        match v {
            0x00 => Command::DAP_Info,
            0x01 => Command::DAP_HostStatus,
            0x02 => Command::DAP_Connect,
            0x03 => Command::DAP_Disconnect,
            0x08 => Command::DAP_WriteABORT,
            0x09 => Command::DAP_Delay,
            0x0A => Command::DAP_ResetTarget,
            0x10 => Command::DAP_SWJ_Pins,
            0x11 => Command::DAP_SWJ_Clock,
            0x12 => Command::DAP_SWJ_Sequence,
            0x13 => Command::DAP_SWD_Configure,
            0x1D => Command::DAP_SWD_Sequence,
            0x17 => Command::DAP_SWO_Transport,
            0x18 => Command::DAP_SWO_Mode,
            0x19 => Command::DAP_SWO_Baudrate,
            0x1A => Command::DAP_SWO_Control,
            0x1B => Command::DAP_SWO_Status,
            0x1E => Command::DAP_SWO_ExtendedStatus,
            0x1C => Command::DAP_SWO_Data,
            0x14 => Command::DAP_JTAG_Sequence,
            0x15 => Command::DAP_JTAG_Configure,
            0x16 => Command::DAP_JTAG_IDCODE,
            0x04 => Command::DAP_TransferConfigure,
            0x05 => Command::DAP_Transfer,
            0x06 => Command::DAP_TransferBlock,
            0x07 => Command::DAP_TransferAbort,
            0x7F => Command::DAP_ExecuteCommands,
            0x7E => Command::DAP_QueueCommands,
            _ => Command::Unimplemented,
        }
    }

    pub fn from_u8(v: u8) -> (r: Command)
        ensures
            r == Self::spec_from_u8(v),
    {
        match v {
            0x00 => Command::DAP_Info,
            0x01 => Command::DAP_HostStatus,
            0x02 => Command::DAP_Connect,
            0x03 => Command::DAP_Disconnect,
            0x08 => Command::DAP_WriteABORT,
            0x09 => Command::DAP_Delay,
            0x0A => Command::DAP_ResetTarget,
            0x10 => Command::DAP_SWJ_Pins,
            0x11 => Command::DAP_SWJ_Clock,
            0x12 => Command::DAP_SWJ_Sequence,
            0x13 => Command::DAP_SWD_Configure,
            0x1D => Command::DAP_SWD_Sequence,
            0x17 => Command::DAP_SWO_Transport,
            0x18 => Command::DAP_SWO_Mode,
            0x19 => Command::DAP_SWO_Baudrate,
            0x1A => Command::DAP_SWO_Control,
            0x1B => Command::DAP_SWO_Status,
            0x1E => Command::DAP_SWO_ExtendedStatus,
            0x1C => Command::DAP_SWO_Data,
            0x14 => Command::DAP_JTAG_Sequence,
            0x15 => Command::DAP_JTAG_Configure,
            0x16 => Command::DAP_JTAG_IDCODE,
            0x04 => Command::DAP_TransferConfigure,
            0x05 => Command::DAP_Transfer,
            0x06 => Command::DAP_TransferBlock,
            0x07 => Command::DAP_TransferAbort,
            0x7F => Command::DAP_ExecuteCommands,
            0x7E => Command::DAP_QueueCommands,
            _ => Command::Unimplemented,
        }
    }

    /// The command byte of a command.
    pub open spec fn spec_code(self) -> u8 {
        match self {
            Command::DAP_Info => 0x00u8,
            Command::DAP_HostStatus => 0x01u8,
            Command::DAP_Connect => 0x02u8,
            Command::DAP_Disconnect => 0x03u8,
            Command::DAP_WriteABORT => 0x08u8,
            Command::DAP_Delay => 0x09u8,
            Command::DAP_ResetTarget => 0x0Au8,
            Command::DAP_SWJ_Pins => 0x10u8,
            Command::DAP_SWJ_Clock => 0x11u8,
            Command::DAP_SWJ_Sequence => 0x12u8,
            Command::DAP_SWD_Configure => 0x13u8,
            Command::DAP_SWD_Sequence => 0x1Du8,
            Command::DAP_SWO_Transport => 0x17u8,
            Command::DAP_SWO_Mode => 0x18u8,
            Command::DAP_SWO_Baudrate => 0x19u8,
            Command::DAP_SWO_Control => 0x1Au8,
            Command::DAP_SWO_Status => 0x1Bu8,
            Command::DAP_SWO_ExtendedStatus => 0x1Eu8,
            Command::DAP_SWO_Data => 0x1Cu8,
            Command::DAP_JTAG_Sequence => 0x14u8,
            Command::DAP_JTAG_Configure => 0x15u8,
            Command::DAP_JTAG_IDCODE => 0x16u8,
            Command::DAP_TransferConfigure => 0x04u8,
            Command::DAP_Transfer => 0x05u8,
            Command::DAP_TransferBlock => 0x06u8,
            Command::DAP_TransferAbort => 0x07u8,
            Command::DAP_ExecuteCommands => 0x7Fu8,
            Command::DAP_QueueCommands => 0x7Eu8,
            Command::Unimplemented => 0xFFu8,
        }
    }

    pub fn code(self) -> (r: u8)
        ensures
            r == self.spec_code(),
    {
        match self {
            Command::DAP_Info => 0x00,
            Command::DAP_HostStatus => 0x01,
            Command::DAP_Connect => 0x02,
            Command::DAP_Disconnect => 0x03,
            Command::DAP_WriteABORT => 0x08,
            Command::DAP_Delay => 0x09,
            Command::DAP_ResetTarget => 0x0A,
            Command::DAP_SWJ_Pins => 0x10,
            Command::DAP_SWJ_Clock => 0x11,
            Command::DAP_SWJ_Sequence => 0x12,
            Command::DAP_SWD_Configure => 0x13,
            Command::DAP_SWD_Sequence => 0x1D,
            Command::DAP_SWO_Transport => 0x17,
            Command::DAP_SWO_Mode => 0x18,
            Command::DAP_SWO_Baudrate => 0x19,
            Command::DAP_SWO_Control => 0x1A,
            Command::DAP_SWO_Status => 0x1B,
            Command::DAP_SWO_ExtendedStatus => 0x1E,
            Command::DAP_SWO_Data => 0x1C,
            Command::DAP_JTAG_Sequence => 0x14,
            Command::DAP_JTAG_Configure => 0x15,
            Command::DAP_JTAG_IDCODE => 0x16,
            Command::DAP_TransferConfigure => 0x04,
            Command::DAP_Transfer => 0x05,
            Command::DAP_TransferBlock => 0x06,
            Command::DAP_TransferAbort => 0x07,
            Command::DAP_ExecuteCommands => 0x7F,
            Command::DAP_QueueCommands => 0x7E,
            Command::Unimplemented => 0xFF,
        }
    }
}

/// Response status: 0x00.
pub const DAP_OK: u8 = 0x00;

/// Response status: 0xFF.
pub const DAP_ERROR: u8 = 0xFF;

/// Largest request and response.
pub const PACKET_SIZE: usize = 64;

/// Byte `i` of a request. A request that is shorter than a command needs is
/// read as if zeros followed it.
pub open spec fn byte_at(data: Seq<u8>, i: int) -> u8 {
    if 0 <= i < data.len() {
        data[i]
    } else {
        0u8
    }
}

/// A request: its command, and a cursor over the bytes behind the command
/// byte.
pub struct Request {
    pub command: Command,
    pub data: Vec<u8>,
    pub pos: usize,
}

impl Request {
    pub open spec fn wf(&self) -> bool {
        self.pos <= self.data@.len()
    }

    /// The byte `k` places behind the cursor.
    pub open spec fn peek(&self, k: int) -> u8 {
        byte_at(self.data@, self.pos + k)
    }

    /// The cursor moved on by `k` bytes, but not past the end.
    pub open spec fn advanced(&self, other: &Request, k: int) -> bool {
        &&& self.wf()
        &&& self.command == other.command
        &&& self.data@ == other.data@
        &&& self.pos == if other.pos + k <= other.data@.len() {
            other.pos + k
        } else {
            other.data@.len() as int
        }
    }

    /// Reads the command byte of a report. An empty report is no request.
    pub fn from_report(report: &[u8]) -> (r: Option<Request>)
        ensures
            report@.len() == 0 <==> r.is_none(),
            match r {
                Some(req) => req.wf() && req.command == Command::spec_from_u8(report@[0])
                    && req.data@ == report@.skip(1) && req.pos == 0,
                None => true,
            },
    {
        if report.len() == 0 {
            return None;
        }
        let command = Command::from_u8(report[0]);
        let mut data: Vec<u8> = Vec::new();
        let rest = vstd::slice::slice_subrange(report, 1, report.len());
        push_slice(&mut data, rest);
        assert(data@ =~= report@.skip(1));
        Some(Request { command, data, pos: 0 })
    }

    /// Takes the next byte.
    pub fn next_u8(&mut self) -> (r: u8)
        requires
            old(self).wf(),
        ensures
            r == old(self).peek(0),
            final(self).advanced(old(self), 1),
    {
        if self.pos < self.data.len() {
            let value: u8 = self.data[self.pos];
            self.pos += 1;
            value
        } else {
            0
        }
    }

    /// Takes the next two bytes as a little-endian integer.
    pub fn next_u16(&mut self) -> (r: u16)
        requires
            old(self).wf(),
        ensures
            r == word16(old(self).peek(0), old(self).peek(1)),
            final(self).advanced(old(self), 2),
    {
        let b0: u8 = self.next_u8();
        let b1: u8 = self.next_u8();
        (b0 as u16) | ((b1 as u16) << 8)
    }

    /// Takes the next four bytes as a little-endian integer.
    pub fn next_u32(&mut self) -> (r: u32)
        requires
            old(self).wf(),
        ensures
            r == word32(old(self).peek(0), old(self).peek(1), old(self).peek(2), old(self).peek(3)),
            final(self).advanced(old(self), 4),
    {
        let b0: u8 = self.next_u8();
        let b1: u8 = self.next_u8();
        let b2: u8 = self.next_u8();
        let b3: u8 = self.next_u8();
        (b0 as u32) | ((b1 as u32) << 8) | ((b2 as u32) << 16) | ((b3 as u32) << 24)
    }

    /// The bytes behind the cursor.
    pub fn rest(self) -> (r: Vec<u8>)
        requires
            self.wf(),
        ensures
            r@ == self.data@.skip(self.pos as int),
    {
        let mut r: Vec<u8> = Vec::new();
        let tail = vstd::slice::slice_subrange(self.data.as_slice(), self.pos, self.data.len());
        push_slice(&mut r, tail);
        assert(r@ =~= self.data@.skip(self.pos as int));
        r
    }
}

/// A response under construction: the bytes written so far, the command byte
/// first. A response holds at most 64 bytes.
pub struct ResponseWriter {
    pub buf: Vec<u8>,
}

impl ResponseWriter {
    pub open spec fn wf(&self) -> bool {
        1 <= self.buf@.len() <= 64
    }

    /// Bytes that still fit.
    pub open spec fn room(&self) -> int {
        64 - self.buf@.len()
    }

    /// Starts the response to `command`.
    pub fn new(command: Command) -> (r: ResponseWriter)
        ensures
            r.wf(),
            r.buf@ == seq![command.spec_code()],
    {
        let mut buf: Vec<u8> = Vec::new();
        buf.push(command.code());
        assert(buf@ =~= seq![command.spec_code()]);
        ResponseWriter { buf }
    }

    pub fn write_u8(&mut self, value: u8)
        requires
            old(self).wf(),
            old(self).room() >= 1,
        ensures
            final(self).wf(),
            final(self).buf@ == old(self).buf@.push(value),
    {
        self.buf.push(value);
    }

    pub fn write_u16(&mut self, value: u16)
        requires
            old(self).wf(),
            old(self).room() >= 2,
        ensures
            final(self).wf(),
            final(self).buf@ == old(self).buf@ + le16(value),
    {
        push_u16(&mut self.buf, value);
    }

    pub fn write_u32(&mut self, value: u32)
        requires
            old(self).wf(),
            old(self).room() >= 4,
        ensures
            final(self).wf(),
            final(self).buf@ == old(self).buf@ + le32(value),
    {
        push_u32(&mut self.buf, value);
    }

    pub fn write_slice(&mut self, data: &[u8])
        requires
            old(self).wf(),
            old(self).room() >= data@.len(),
        ensures
            final(self).wf(),
            final(self).buf@ == old(self).buf@ + data@,
    {
        push_slice(&mut self.buf, data);
    }

    pub fn write_ok(&mut self)
        requires
            old(self).wf(),
            old(self).room() >= 1,
        ensures
            final(self).wf(),
            final(self).buf@ == old(self).buf@.push(DAP_OK),
    {
        self.write_u8(DAP_OK);
    }

    pub fn write_err(&mut self)
        requires
            old(self).wf(),
            old(self).room() >= 1,
        ensures
            final(self).wf(),
            final(self).buf@ == old(self).buf@.push(DAP_ERROR),
    {
        self.write_u8(DAP_ERROR);
    }

    /// Overwrites a byte that was written before.
    pub fn write_u8_at(&mut self, idx: usize, value: u8)
        requires
            idx < old(self).buf@.len(),
        ensures
            final(self).buf@ == old(self).buf@.update(idx as int, value),
    {
        self.buf.set(idx, value);
    }

    /// Overwrites two bytes that were written before.
    pub fn write_u16_at(&mut self, idx: usize, value: u16)
        requires
            old(self).wf(),
            idx + 1 < old(self).buf@.len(),
        ensures
            final(self).wf(),
            final(self).buf@ == old(self).buf@.update(idx as int, le16(value)[0]).update(
                idx + 1,
                le16(value)[1],
            ),
    {
        self.buf.set(idx, (value & 0xff) as u8);
        self.buf.set(idx + 1, (value >> 8) as u8);
    }

    /// The byte at `idx`, to be overwritten in place.
    pub fn mut_at(&mut self, idx: usize) -> (r: &mut u8)
        requires
            idx < old(self).buf@.len(),
        ensures
            *r == old(self).buf@[idx as int],
            final(self).buf@ == old(self).buf@.update(idx as int, *final(r)),
    {
        &mut self.buf[idx]
    }

    pub fn read_u8_at(&self, idx: usize) -> (r: u8)
        requires
            idx < self.buf@.len(),
        ensures
            r == self.buf@[idx as int],
    {
        self.buf[idx]
    }

    /// The finished response.
    pub fn finished(self) -> (r: Vec<u8>)
        ensures
            r@ == self.buf@,
    {
        self.buf
    }
}

/// One SWD transaction that the interpreter asks for.
#[derive(Copy, Clone, PartialEq, Eq, Structural, Debug)]
pub enum SwdOp {
    Read { apndp: APnDP, a: u8 },
    Write { apndp: APnDP, a: u8, data: u32 },
}

/// What the interpreter answers once the transaction that it waited for is
/// done: a response, no response, or the next transaction.
pub enum Resumed {
    Reply(Option<Seq<u8>>),
    Swd(SwdOp),
}

/// What the interpreter asks of its caller after a step. Every variant but
/// `Reply` names work on the hardware whose outcome the interpreter needs, or
/// that has to happen before the response goes out.
pub enum Action {
    /// The command is done: send this response, or none.
    Reply(Option<Vec<u8>>),
    /// Run the transaction and hand its result to `DAP::resume_swd`.
    Swd(SwdOp),
    /// Wait for `cycles` processor cycles, then send `reply`.
    Delay { cycles: u32, reply: Vec<u8> },
    /// Wait for `wait` microseconds, read the pins, and hand their levels to
    /// `DAP::finish_swj_pins`.
    SwjPins { wait: u32 },
    /// Send `bytes` on the wire, least significant bit first, then send
    /// `reply`.
    Sequence { bytes: Vec<u8>, reply: Vec<u8> },
    /// Set the baud rate of the trace receiver to `target` and hand the rate
    /// that it took to `DAP::finish_swo_baudrate`.
    SwoBaudrate { target: u32 },
    /// Read up to `max` bytes of trace data and hand them to
    /// `DAP::finish_swo_data`.
    SwoData { max: usize },
}

/// Levels of the five pins that `DAP_SWJ_Pins` reports.
#[derive(Copy, Clone, PartialEq, Eq, Structural, Debug)]
pub struct PinLevels {
    pub swclk: PinState,
    pub swdio: PinState,
    pub tdi: PinState,
    pub tdo: PinState,
    pub nreset: PinState,
}

/// A response of the command byte and one more byte.
pub fn reply1(command: Command, value: u8) -> (r: Vec<u8>)
    ensures
        r@ == seq![command.spec_code(), value],
{
    let mut resp = ResponseWriter::new(command);
    resp.write_u8(value);
    let r = resp.finished();
    assert(r@ =~= seq![command.spec_code(), value]);
    r
}

/// The response to `DAP_Info` for information `id`: a length and the data.
/// Vendor, product, serial number, target vendor and target name are empty,
/// so that the host takes them from the USB descriptors; the capabilities are
/// SWD, SWO over UART and SWO streaming; one packet of 64 bytes is accepted at
/// a time. Nothing is sent for an unknown `id`.
pub open spec fn spec_info(id: u8, version: Seq<u8>, swo_buffer_len: u32) -> Option<Seq<u8>> {
    if id == 0x01 || id == 0x02 || id == 0x03 || id == 0x05 || id == 0x06 {
        Some(seq![0u8, 0u8])
    } else if id == 0x04 {
        Some(seq![0u8, version.len() as u8] + version)
    } else if id == 0xF0 {
        Some(seq![0u8, 1u8, 0b0100_0101u8])
    } else if id == 0xFD {
        Some(seq![0u8, 4u8] + le32(swo_buffer_len))
    } else if id == 0xFE {
        Some(seq![0u8, 1u8, 1u8])
    } else if id == 0xFF {
        Some(seq![0u8, 2u8] + le16(64))
    } else {
        None
    }
}

/// The number of bits that `DAP_SWJ_Sequence` sends for a count byte of `n`:
/// 0 stands for 256, and 51, which one host sends with seven bytes of ones
/// for a line reset, is taken as 56.
pub open spec fn spec_swj_bits(n: u8) -> int {
    if n == 0 {
        256
    } else if n == 51 {
        56
    } else {
        n as int
    }
}

/// The bytes of a request from byte `from` on, `n` of them.
pub open spec fn request_bytes(data: Seq<u8>, from: int, n: int) -> Seq<u8> {
    Seq::new(n as nat, |i: int| byte_at(data, from + i))
}

/// The pin-state byte of `DAP_SWJ_Pins`: SWCLK in bit 0, SWDIO in bit 1, TDI
/// in bit 2, TDO in bit 3, nTRST always set in bit 5, nRESET in bit 7.
pub open spec fn spec_pin_byte(l: PinLevels) -> u8 {
    l.swclk.spec_bit() | (l.swdio.spec_bit() << 1) | (l.tdi.spec_bit() << 2) | (l.tdo.spec_bit()
        << 3) | (1u8 << 5) | (l.nreset.spec_bit() << 7)
}

/// The status byte of a transfer for the result of its SWD transaction: 1
/// for OK, 2 for WAIT, 4 for FAULT, and a protocol error with all three
/// acknowledgement bits for everything else.
pub open spec fn spec_status<T>(r: Result<T, Error>) -> u8 {
    match r {
        Ok(_) => 1u8,
        Err(Error::AckWait) => 2u8,
        Err(Error::AckFault) => 4u8,
        Err(_) => 0x0Fu8,
    }
}

/// The status byte for the result of an SWD read, and its value if it
/// succeeded.
pub fn check(r: Result<u32, Error>) -> (out: (u8, Option<u32>))
    ensures
        out.0 == spec_status(r),
        out.1 == match r {
            Ok(v) => Some(v),
            Err(_) => None::<u32>,
        },
{
    match r {
        Ok(v) => (1, Some(v)),
        Err(Error::AckWait) => (2, None),
        Err(Error::AckFault) => (4, None),
        Err(_) => (0x0F, None),
    }
}

/// The interpreter.
pub struct DAP {
    pub swd: SWD,
    /// The firmware version that `DAP_Info` reports.
    pub version: Vec<u8>,
    /// Size of the trace buffer that `DAP_Info` reports.
    pub swo_buffer_len: u32,
    /// The trace receiver is running.
    pub swo_active: bool,
    pub configured: bool,
    pub swo_streaming: bool,
    pub match_retries: usize,
    /// A `DAP_WriteABORT` waits for its transaction.
    pub abort_pending: bool,
    /// A `DAP_Transfer` in progress.
    pub transfer: Option<Transfer>,
    /// A `DAP_TransferBlock` in progress.
    pub block: Option<BlockTransfer>,
}

impl DAP {
    pub open spec fn wf(&self) -> bool {
        &&& self.version@.len() <= 60
        &&& match self.transfer {
            Some(t) => t.wf() && t.resp.buf@.len() + 4 <= 64,
            None => true,
        }
        &&& match self.block {
            Some(b) => b.wf() && (b@.reads() ==> b.resp.buf@.len() + 4 <= 64) && (b.posting
                || b.idx < b.ntransfers),
            None => true,
        }
    }

    /// The settings that commands change.
    pub open spec fn settings(&self) -> Settings {
        Settings {
            configured: self.configured,
            swo_streaming: self.swo_streaming,
            swo_active: self.swo_active,
            wait_retries: self.swd.wait_retries,
            match_retries: self.match_retries,
        }
    }

    /// No command waits for a transaction.
    pub open spec fn idle(&self) -> bool {
        !self.abort_pending && self.transfer.is_none() && self.block.is_none()
    }

    /// The answer to the result of the transaction that the interpreter
    /// waited for. A `DAP_WriteABORT` that waits is answered with OK or ERROR;
    /// a transfer or a block goes on as its state says, and answers with its
    /// response when it ends; where nothing waits, nothing is answered.
    pub open spec fn spec_resume_swd(&self, result: Result<u32, Error>) -> Resumed {
        if self.abort_pending {
            Resumed::Reply(Some(seq![0x08u8, if result.is_ok() { DAP_OK } else { DAP_ERROR }]))
        } else if self.transfer.is_some() {
            let next = self.transfer.unwrap()@.resume(result, self.match_retries);
            match next.1 {
                Some(op) => Resumed::Swd(op),
                None => Resumed::Reply(Some(next.0.resp)),
            }
        } else if self.block.is_some() {
            let next = self.block.unwrap()@.resume(result);
            match next.1 {
                Some(op) => Resumed::Swd(op),
                None => Resumed::Reply(Some(next.0.resp)),
            }
        } else {
            Resumed::Reply(None)
        }
    }

    /// Whether the action `r` is the answer `a`.
    pub open spec fn answers(r: Action, a: Resumed) -> bool {
        match a {
            Resumed::Reply(Some(bytes)) => r matches Action::Reply(Some(v)) && v@ == bytes,
            Resumed::Reply(None) => r matches Action::Reply(None),
            Resumed::Swd(op) => r matches Action::Swd(o) && o == op,
        }
    }

    /// What is in progress after the result of a transaction was handed in:
    /// a `DAP_WriteABORT` is done and leaves a transfer or block as it was;
    /// else the transfer, or if there is none the block, has taken its step,
    /// and is gone once it has ended.
    pub open spec fn resumed(&self, old: &DAP, result: Result<u32, Error>) -> bool {
        &&& self.same_settings(old)
        &&& !self.abort_pending
        &&& if old.abort_pending {
            self.transfer == old.transfer && self.block == old.block
        } else if old.transfer.is_some() {
            &&& self.block == old.block
            &&& match old.transfer.unwrap()@.resume(result, old.match_retries).1 {
                Some(_) => self.transfer.is_some() && self.transfer.unwrap()@
                    == old.transfer.unwrap()@.resume(result, old.match_retries).0,
                None => self.transfer.is_none(),
            }
        } else if old.block.is_some() {
            &&& self.transfer.is_none()
            &&& match old.block.unwrap()@.resume(result).1 {
                Some(_) => self.block.is_some() && self.block.unwrap()@
                    == old.block.unwrap()@.resume(result).0,
                None => self.block.is_none(),
            }
        } else {
            self.idle()
        }
    }

    /// The settings that commands change, without what is in progress.
    pub open spec fn same_settings(&self, old: &DAP) -> bool {
        &&& self.swd == old.swd
        &&& self.version@ == old.version@
        &&& self.swo_buffer_len == old.swo_buffer_len
        &&& self.swo_active == old.swo_active
        &&& self.configured == old.configured
        &&& self.swo_streaming == old.swo_streaming
        &&& self.match_retries == old.match_retries
    }

    /// An interpreter that is not connected, with five match retries.
    pub fn new(swd: SWD, version: Vec<u8>, swo_buffer_len: u32) -> (r: DAP)
        requires
            version@.len() <= 60,
        ensures
            r.wf(),
            r.idle(),
            r.swd == swd,
            r.version@ == version@,
            r.swo_buffer_len == swo_buffer_len,
            !r.configured,
            !r.swo_streaming,
            !r.swo_active,
            r.match_retries == 5,
    {
        DAP {
            swd,
            version,
            swo_buffer_len,
            swo_active: false,
            configured: false,
            swo_streaming: false,
            match_retries: 5,
            abort_pending: false,
            transfer: None,
            block: None,
        }
    }

    /// Whether trace data goes to the streaming endpoint now.
    pub fn is_swo_streaming(&self) -> (r: bool)
        ensures
            r == (self.swo_active && self.swo_streaming),
    {
        self.swo_active && self.swo_streaming
    }

    /// The chunk of trace data to stream: the data that was read, if any.
    pub fn poll_swo(&self, data: Vec<u8>) -> (r: Option<Vec<u8>>)
        ensures
            data@.len() == 0 ==> r.is_none(),
            data@.len() > 0 ==> r == Some(data),
    {
        if data.len() == 0 {
            None
        } else {
            Some(data)
        }
    }

    pub fn process_info(&self, mut req: Request) -> (r: Option<Vec<u8>>)
        requires
            self.version@.len() <= 60,
            req.wf(),
        ensures
            match spec_info(req.peek(0), self.version@, self.swo_buffer_len) {
                Some(bytes) => r.is_some() && r.unwrap()@ == bytes,
                None => r.is_none(),
            },
    {
        let mut resp = ResponseWriter::new(Command::DAP_Info);
        let id: u8 = req.next_u8();
        if id == 0x01 || id == 0x02 || id == 0x03 || id == 0x05 || id == 0x06 {
            resp.write_u8(0);
        } else if id == 0x04 {
            resp.write_u8(self.version.len() as u8);
            resp.write_slice(self.version.as_slice());
        } else if id == 0xF0 {
            resp.write_u8(1);
            resp.write_u8(0b0100_0101);
        } else if id == 0xFD {
            resp.write_u8(4);
            resp.write_u32(self.swo_buffer_len);
        } else if id == 0xFE {
            resp.write_u8(1);
            resp.write_u8(1);
        } else if id == 0xFF {
            resp.write_u8(2);
            resp.write_u16(64);
        } else {
            return None;
        }
        let r = resp.finished();
        assert(r@ =~= spec_info(id, self.version@, self.swo_buffer_len).unwrap());
        Some(r)
    }

    /// `DAP_HostStatus`: the LED shows whether the host is connected to the
    /// target. Only the connect status with a value of 0 or 1 changes it.
    pub fn process_host_status(mut req: Request, pins: &mut Pins) -> (r: Vec<u8>)
        requires
            req.wf(),
        ensures
            r@ == seq![0x01u8, 0u8],
            *final(pins) == (Pins {
                led: Pin {
                    level: if req.peek(0) == 0 && req.peek(1) == 0 {
                        PinState::Low
                    } else if req.peek(0) == 0 && req.peek(1) == 1 {
                        PinState::High
                    } else {
                        old(pins).led.level
                    },
                    ..old(pins).led
                },
                ..*old(pins)
            }),
    {
        let status_type: u8 = req.next_u8();
        let status_status: u8 = req.next_u8();
        if status_type == 0 {
            if status_status == 0 {
                pins.led.set_low();
            } else if status_status == 1 {
                pins.led.set_high();
            }
        }
        reply1(Command::DAP_HostStatus, 0)
    }

    /// `DAP_Connect`: the default port and SWD put the pins into SWD mode
    /// and turn the SPI block on; any other port fails and changes nothing.
    pub fn process_connect(&mut self, mut req: Request, pins: &mut Pins, spi: &mut SPI) -> (r: Vec<
        u8,
    >)
        requires
            req.wf(),
        ensures
            req.peek(0) <= 1 ==> {
                &&& r@ == seq![0x02u8, 1u8]
                &&& *final(pins) == old(pins).spec_enter(PinConfig::SWD)
                &&& *final(spi) == SPI::spec_profile_swd()
                &&& *final(self) == (DAP { configured: true, ..*old(self) })
            },
            req.peek(0) > 1 ==> {
                &&& r@ == seq![0x02u8, 0u8]
                &&& *final(pins) == *old(pins)
                &&& *final(spi) == *old(spi)
                &&& *final(self) == *old(self)
            },
    {
        let port: u8 = req.next_u8();
        if port == 0 || port == 1 {
            pins.swd_mode();
            spi.setup_swd();
            self.configured = true;
            reply1(Command::DAP_Connect, 1)
        } else {
            reply1(Command::DAP_Connect, 0)
        }
    }

    /// `DAP_Disconnect`: pins to high impedance, SPI block off.
    pub fn process_disconnect(&mut self, req: Request, pins: &mut Pins, spi: &mut SPI) -> (r: Vec<
        u8,
    >)
        ensures
            r@ == seq![0x03u8, DAP_OK],
            *final(pins) == old(pins).spec_enter(PinConfig::HighImpedance),
            *final(spi) == (SPI { enabled: false, ..*old(spi) }),
            *final(self) == (DAP { configured: false, ..*old(self) }),
    {
        pins.high_impedance_mode();
        self.configured = false;
        spi.disable();
        reply1(Command::DAP_Disconnect, DAP_OK)
    }

    /// `DAP_WriteABORT`: refused while not connected; else the word is
    /// written to the debug port's register 0.
    pub fn process_write_abort(&mut self, mut req: Request) -> (r: Action)
        requires
            req.wf(),
        ensures
            final(self).same_settings(old(self)),
            final(self).transfer == old(self).transfer,
            final(self).block == old(self).block,
            !old(self).configured ==> final(self).abort_pending == old(self).abort_pending && (
            r matches Action::Reply(Some(v)) && v@ == seq![0x08u8, DAP_ERROR]),
            old(self).configured ==> final(self).abort_pending && (r matches Action::Swd(op) && op
                == (SwdOp::Write {
                apndp: APnDP::DP,
                a: 0,
                data: word32(req.peek(1), req.peek(2), req.peek(3), req.peek(4)),
            })),
    {
        if !self.configured {
            return Action::Reply(Some(reply1(Command::DAP_WriteABORT, DAP_ERROR)));
        }
        let _idx: u8 = req.next_u8();
        let word: u32 = req.next_u32();
        self.abort_pending = true;
        Action::Swd(SwdOp::Write { apndp: APnDP::DP, a: 0, data: word })
    }

    /// The response to `DAP_WriteABORT` once its write has been done.
    pub fn finish_write_abort(result: Result<u32, Error>) -> (r: Vec<u8>)
        ensures
            r@ == seq![0x08u8, if result.is_ok() { DAP_OK } else { DAP_ERROR }],
    {
        match result {
            Ok(_) => reply1(Command::DAP_WriteABORT, DAP_OK),
            Err(_) => reply1(Command::DAP_WriteABORT, DAP_ERROR),
        }
    }

    /// `DAP_Delay`: 48 processor cycles for each microsecond asked for.
    pub fn process_delay(mut req: Request) -> (r: Action)
        requires
            req.wf(),
        ensures
            r matches Action::Delay { cycles, reply } && cycles == 48 * word16(
                req.peek(0),
                req.peek(1),
            ) && reply@ == seq![0x09u8, DAP_OK],
    {
        let delay: u32 = req.next_u16() as u32;
        Action::Delay { cycles: 48 * delay, reply: reply1(Command::DAP_Delay, DAP_OK) }
    }

    /// `DAP_ResetTarget`: there is no reset sequence for any device.
    pub fn process_reset_target(req: Request) -> (r: Vec<u8>)
        ensures
            r@ == seq![0x0Au8, DAP_OK, 0u8],
    {
        let mut resp = ResponseWriter::new(Command::DAP_ResetTarget);
        resp.write_ok();
        resp.write_u8(0);
        let r = resp.finished();
        assert(r@ =~= seq![0x0Au8, DAP_OK, 0u8]);
        r
    }

    /// `DAP_SWJ_Pins`: of the pins only nRESET can be set. Where bit 7 of
    /// the mask is set, a zero in bit 7 of the output drives nRESET low, as an
    /// open-drain output, and a one releases it. The pins are read after the
    /// wait.
    pub fn process_swj_pins(mut req: Request, pins: &mut Pins) -> (r: Action)
        requires
            req.wf(),
        ensures
            r matches Action::SwjPins { wait } && wait == word32(
                req.peek(2),
                req.peek(3),
                req.peek(4),
                req.peek(5),
            ),
            *final(pins) == (Pins {
                flash_so: if req.peek(1) & 0x80 == 0 {
                    old(pins).flash_so
                } else if req.peek(0) & 0x80 == 0 {
                    Pin {
                        otype: OutputType::OpenDrain,
                        level: PinState::Low,
                        mode: PinMode::Output,
                        ..old(pins).flash_so
                    }
                } else {
                    Pin { mode: PinMode::Input, ..old(pins).flash_so }
                },
                ..*old(pins)
            }),
    {
        let output: u8 = req.next_u8();
        let mask: u8 = req.next_u8();
        let wait: u32 = req.next_u32();
        if (mask & 0x80) != 0 {
            if output & 0x80 == 0 {
                pins.flash_so.set_otype_opendrain();
                pins.flash_so.set_low();
                pins.flash_so.set_mode_output();
            } else {
                pins.flash_so.set_mode_input();
            }
        }
        Action::SwjPins { wait }
    }

    /// The response to `DAP_SWJ_Pins` for the levels read from the pins.
    pub fn finish_swj_pins(levels: PinLevels) -> (r: Vec<u8>)
        ensures
            r@ == seq![0x10u8, spec_pin_byte(levels)],
    {
        let state: u8 = levels.swclk.bit() | (levels.swdio.bit() << 1) | (levels.tdi.bit() << 2) | (
        levels.tdo.bit() << 3) | (1u8 << 5) | (levels.nreset.bit() << 7);
        reply1(Command::DAP_SWJ_Pins, state)
    }

    /// `DAP_SWJ_Clock`: the fastest SPI clock that is not above the rate
    /// asked for; a rate below the slowest clock is refused.
    pub fn process_swj_clock(mut req: Request, spi: &mut SPI) -> (r: Vec<u8>)
        requires
            req.wf(),
        ensures
            ({
                let hz = word32(req.peek(0), req.peek(1), req.peek(2), req.peek(3));
                &&& *final(spi) == (match SPIClock::spec_from_max(hz) {
                    Some(c) => SPI { clock: c, ..*old(spi) },
                    None => *old(spi),
                })
                &&& if hz < 187_500 {
                    r@ == seq![0x11u8, DAP_ERROR] && *final(spi) == *old(spi)
                } else {
                    &&& r@ == seq![0x11u8, DAP_OK]
                    &&& *final(spi) == (SPI { clock: final(spi).clock, ..*old(spi) })
                    &&& final(spi).clock.spec_hz() <= hz
                    &&& forall|d: SPIClock|
                        #![trigger d.spec_hz()]
                        d.spec_hz() <= hz ==> d.spec_hz() <= final(spi).clock.spec_hz()
                }
            }),
    {
        let clock: u32 = req.next_u32();
        match SPIClock::from_max(clock) {
            Some(clk) => {
                spi.set_clock(clk);
                reply1(Command::DAP_SWJ_Clock, DAP_OK)
            },
            None => reply1(Command::DAP_SWJ_Clock, DAP_ERROR),
        }
    }

    /// `DAP_SWJ_Sequence`: sends whole bytes only. A count that is no
    /// multiple of eight is refused.
    pub fn process_swj_sequence(mut req: Request) -> (r: Action)
        requires
            req.wf(),
        ensures
            spec_swj_bits(req.peek(0)) % 8 != 0 ==> (r matches Action::Reply(Some(v)) && v@
                == seq![0x12u8, DAP_ERROR]),
            spec_swj_bits(req.peek(0)) % 8 == 0 ==> (r matches Action::Sequence { bytes, reply }
                && bytes@ == request_bytes(req.data@, req.pos + 1, spec_swj_bits(req.peek(0)) / 8)
                && reply@ == seq![0x12u8, DAP_OK]),
    {
        let n: u8 = req.next_u8();
        let nbits: usize = if n == 0 {
            256
        } else if n == 51 {
            56
        } else {
            n as usize
        };
        if nbits % 8 != 0 {
            return Action::Reply(Some(reply1(Command::DAP_SWJ_Sequence, DAP_ERROR)));
        }
        let nbytes: usize = nbits / 8;
        let mut bytes: Vec<u8> = Vec::new();
        let ghost start = req;
        let mut i: usize = 0;
        while i < nbytes
            invariant
                i <= nbytes,
                nbytes <= 32,
                req.wf(),
                req.data@ == start.data@,
                req.pos == if start.pos + i <= start.data@.len() {
                    start.pos + i
                } else {
                    start.data@.len() as int
                },
                bytes@ == request_bytes(start.data@, start.pos as int, i as int),
            decreases nbytes - i,
        {
            let b: u8 = req.next_u8();
            bytes.push(b);
            i += 1;
            assert(bytes@ =~= request_bytes(start.data@, start.pos as int, i as int));
        }
        Action::Sequence { bytes, reply: reply1(Command::DAP_SWJ_Sequence, DAP_OK) }
    }

    /// `DAP_SWD_Configure`: only the default turnaround of one clock without
    /// a data phase on errors is supported.
    pub fn process_swd_configure(mut req: Request) -> (r: Vec<u8>)
        requires
            req.wf(),
        ensures
            r@ == seq![0x13u8, if req.peek(0) & 0b111 == 0 { DAP_OK } else { DAP_ERROR }],
    {
        let config: u8 = req.next_u8();
        let clk_period: u8 = config & 0b011;
        let always_data: bool = (config & 0b100) != 0;
        assert((config & 0b111 == 0) <==> (config & 0b011 == 0 && config & 0b100 == 0))
            by (bit_vector);
        if clk_period == 0 && !always_data {
            reply1(Command::DAP_SWD_Configure, DAP_OK)
        } else {
            reply1(Command::DAP_SWD_Configure, DAP_ERROR)
        }
    }

    /// `DAP_SWO_Transport`: transport 2 sends the trace to the streaming
    /// endpoint; transports 0 and 1 do not; any other is refused.
    pub fn process_swo_transport(&mut self, mut req: Request) -> (r: Vec<u8>)
        requires
            req.wf(),
        ensures
            r@ == seq![0x17u8, if req.peek(0) <= 2 { DAP_OK } else { DAP_ERROR }],
            *final(self) == (DAP {
                swo_streaming: if req.peek(0) <= 1 {
                    false
                } else if req.peek(0) == 2 {
                    true
                } else {
                    old(self).swo_streaming
                },
                ..*old(self)
            }),
    {
        let transport: u8 = req.next_u8();
        if transport == 0 || transport == 1 {
            self.swo_streaming = false;
            reply1(Command::DAP_SWO_Transport, DAP_OK)
        } else if transport == 2 {
            self.swo_streaming = true;
            reply1(Command::DAP_SWO_Transport, DAP_OK)
        } else {
            reply1(Command::DAP_SWO_Transport, DAP_ERROR)
        }
    }

    /// `DAP_SWO_Mode`: off and UART are accepted.
    pub fn process_swo_mode(mut req: Request) -> (r: Vec<u8>)
        requires
            req.wf(),
        ensures
            r@ == seq![0x18u8, if req.peek(0) <= 1 { DAP_OK } else { DAP_ERROR }],
    {
        let mode: u8 = req.next_u8();
        if mode <= 1 {
            reply1(Command::DAP_SWO_Mode, DAP_OK)
        } else {
            reply1(Command::DAP_SWO_Mode, DAP_ERROR)
        }
    }

    /// `DAP_SWO_Baudrate`: the rate asked for goes to the trace receiver.
    pub fn process_swo_baudrate(mut req: Request) -> (r: Action)
        requires
            req.wf(),
        ensures
            r matches Action::SwoBaudrate { target } && target == word32(
                req.peek(0),
                req.peek(1),
                req.peek(2),
                req.peek(3),
            ),
    {
        let target: u32 = req.next_u32();
        Action::SwoBaudrate { target }
    }

    /// The response to `DAP_SWO_Baudrate`: the rate that the receiver took.
    pub fn finish_swo_baudrate(actual: u32) -> (r: Vec<u8>)
        ensures
            r@ == seq![0x19u8] + le32(actual),
    {
        let mut resp = ResponseWriter::new(Command::DAP_SWO_Baudrate);
        resp.write_u32(actual);
        resp.finished()
    }

    /// `DAP_SWO_Control`: 0 stops the trace receiver, 1 starts it.
    pub fn process_swo_control(&mut self, mut req: Request) -> (r: Vec<u8>)
        requires
            req.wf(),
        ensures
            r@ == seq![0x1Au8, if req.peek(0) <= 1 { DAP_OK } else { DAP_ERROR }],
            *final(self) == (DAP {
                swo_active: if req.peek(0) == 0 {
                    false
                } else if req.peek(0) == 1 {
                    true
                } else {
                    old(self).swo_active
                },
                ..*old(self)
            }),
    {
        let control: u8 = req.next_u8();
        if control == 0 {
            self.swo_active = false;
            reply1(Command::DAP_SWO_Control, DAP_OK)
        } else if control == 1 {
            self.swo_active = true;
            reply1(Command::DAP_SWO_Control, DAP_OK)
        } else {
            reply1(Command::DAP_SWO_Control, DAP_ERROR)
        }
    }

    /// `DAP_SWO_Status`: whether the receiver runs, and the number of bytes
    /// that wait in the trace buffer.
    pub fn process_swo_status(&self, req: Request, available: u32) -> (r: Vec<u8>)
        ensures
            r@ == seq![0x1Bu8, if self.swo_active { 1u8 } else { 0u8 }] + le32(available),
    {
        let mut resp = ResponseWriter::new(Command::DAP_SWO_Status);
        resp.write_u8(if self.swo_active { 1 } else { 0 });
        resp.write_u32(available);
        let r = resp.finished();
        assert(r@ =~= seq![0x1Bu8, if self.swo_active { 1u8 } else { 0u8 }] + le32(available));
        r
    }

    /// `DAP_SWO_ExtendedStatus`: the status, then a trace index and a
    /// timestamp that are always zero.
    pub fn process_swo_extended_status(&self, req: Request, available: u32) -> (r: Vec<u8>)
        ensures
            r@ == seq![0x1Eu8, if self.swo_active { 1u8 } else { 0u8 }] + le32(available) + le32(0)
                + le32(0),
    {
        let mut resp = ResponseWriter::new(Command::DAP_SWO_ExtendedStatus);
        resp.write_u8(if self.swo_active { 1 } else { 0 });
        resp.write_u32(available);
        resp.write_u32(0);
        resp.write_u32(0);
        let r = resp.finished();
        assert(r@ =~= seq![0x1Eu8, if self.swo_active { 1u8 } else { 0u8 }] + le32(available)
            + le32(0) + le32(0));
        r
    }

    /// `DAP_SWO_Data`: at most 60 bytes are read, so that the response fits
    /// into one packet.
    pub fn process_swo_data(mut req: Request) -> (r: Action)
        requires
            req.wf(),
        ensures
            r matches Action::SwoData { max } && max == (if word16(req.peek(0), req.peek(1))
                < 60 {
                word16(req.peek(0), req.peek(1)) as int
            } else {
                60
            }),
    {
        let n: usize = req.next_u16() as usize;
        Action::SwoData { max: if n < 60 { n } else { 60 } }
    }

    /// The response to `DAP_SWO_Data`: the status, the number of bytes, and
    /// the bytes that were read.
    pub fn finish_swo_data(&self, data: &[u8]) -> (r: Vec<u8>)
        requires
            data@.len() <= 60,
        ensures
            r@ == seq![0x1Cu8, if self.swo_active { 1u8 } else { 0u8 }] + le16(data@.len() as u16)
                + data@,
            r@.len() <= 64,
    {
        let mut resp = ResponseWriter::new(Command::DAP_SWO_Data);
        resp.write_u8(if self.swo_active { 1 } else { 0 });
        resp.write_u16(data.len() as u16);
        resp.write_slice(data);
        let r = resp.finished();
        assert(r@ =~= seq![0x1Cu8, if self.swo_active { 1u8 } else { 0u8 }] + le16(
            data@.len() as u16,
        ) + data@);
        r
    }

    /// `DAP_TransferConfigure`: the idle cycles are ignored; the WAIT
    /// retries go to the SWD core and the match retries are kept.
    pub fn process_transfer_configure(&mut self, mut req: Request) -> (r: Vec<u8>)
        requires
            req.wf(),
        ensures
            r@ == seq![0x04u8, DAP_OK],
            *final(self) == (DAP {
                swd: SWD { wait_retries: word16(req.peek(1), req.peek(2)) as usize },
                match_retries: word16(req.peek(3), req.peek(4)) as usize,
                ..*old(self)
            }),
    {
        let _idle_cycles: u8 = req.next_u8();
        let wait_retries: u16 = req.next_u16();
        self.swd.set_wait_retries(wait_retries as usize);
        let match_retries: u16 = req.next_u16();
        self.match_retries = match_retries as usize;
        reply1(Command::DAP_TransferConfigure, DAP_OK)
    }

    /// `DAP_TransferAbort`: a transfer blocks the interpreter until it is
    /// done, so there is never one to abort, and nothing to answer.
    pub fn process_transfer_abort(_req: Request) -> (r: Option<Vec<u8>>)
        ensures
            r.is_none(),
    {
        None
    }
}

/// Where a transfer stands while it waits for a transaction.
#[derive(Copy, Clone, PartialEq, Eq, Structural, Debug)]
pub enum Stage {
    /// A read of an access port was posted; a read of RDBUFF fetches its
    /// value.
    Posted,
    /// The read that gives the value of the element.
    Value,
    /// A repeated read of a value match.
    Retry,
    /// A write.
    Write,
}

/// The access that an element byte names: bit 0 is APnDP.
pub open spec fn spec_element_port(e: u8) -> APnDP {
    if e & 1 != 0 {
        APnDP::AP
    } else {
        APnDP::DP
    }
}

/// The register address of an element byte: bits 2 and 3.
pub open spec fn spec_element_addr(e: u8) -> u8 {
    (e & 0x0C) >> 2
}

/// The state of a `DAP_Transfer`, as mathematics.
pub struct TransferView {
    /// The request behind the command byte.
    pub data: Seq<u8>,
    /// Cursor into `data`.
    pub pos: int,
    /// The response so far: command byte, transfers executed, status byte,
    /// then the values read.
    pub resp: Seq<u8>,
    pub ntransfers: u8,
    pub executed: u8,
    /// Number of values in the response.
    pub reads: nat,
    pub match_mask: u32,
    pub stage: Stage,
    /// The element in progress.
    pub element: u8,
    /// The value that a value match waits for.
    pub target: u32,
    /// Repeated reads of the value match so far.
    pub tries: usize,
}

/// The cursor `pos` moved on by `k` bytes, but not past the end of `data`.
pub open spec fn moved(data: Seq<u8>, pos: int, k: int) -> int {
    if pos + k <= data.len() {
        pos + k
    } else {
        data.len() as int
    }
}

/// The little-endian word at `pos` of a request.
pub open spec fn word_at(data: Seq<u8>, pos: int) -> u32 {
    word32(
        byte_at(data, pos),
        byte_at(data, pos + 1),
        byte_at(data, pos + 2),
        byte_at(data, pos + 3),
    )
}

impl TransferView {
    /// The response holds the command byte, the number of transfers executed,
    /// a status byte, and four bytes for each value read, and fits a packet.
    pub open spec fn wf(self) -> bool {
        &&& 0 <= self.pos <= self.data.len()
        &&& self.resp.len() == 3 + 4 * self.reads
        &&& self.resp.len() <= 64
        &&& self.resp[0] == 0x05
        &&& self.resp[1] == self.executed
        &&& self.executed <= self.ntransfers
    }

    /// Takes up the elements that follow, until one needs a transaction
    /// (its operation is the second result) or none is left. A write with the
    /// match-mask flag only sets the mask. Elements stop being taken up when
    /// the response has no room for another value.
    pub open spec fn advance(self) -> (TransferView, Option<SwdOp>)
        decreases self.ntransfers - self.executed,
    {
        if self.executed >= self.ntransfers || self.resp.len() + 4 > 64 {
            (self, None)
        } else {
            let e = byte_at(self.data, self.pos);
            let started = TransferView {
                executed: (self.executed + 1) as u8,
                resp: self.resp.update(1, (self.executed + 1) as u8),
                element: e,
                tries: 0,
                ..self
            };
            let word = word_at(self.data, moved(self.data, self.pos, 1));
            if e & 0x02 != 0 {
                let op = SwdOp::Read { apndp: spec_element_port(e), a: spec_element_addr(e) };
                let stage = if e & 1 != 0 {
                    Stage::Posted
                } else {
                    Stage::Value
                };
                if e & 0x10 != 0 {
                    (
                        TransferView {
                            pos: moved(self.data, self.pos, 5),
                            target: word,
                            stage,
                            ..started
                        },
                        Some(op),
                    )
                } else {
                    (TransferView { pos: moved(self.data, self.pos, 1), stage, ..started }, Some(op))
                }
            } else if e & 0x20 != 0 {
                (TransferView {
                    pos: moved(self.data, self.pos, 5),
                    match_mask: word,
                    ..started
                }).advance()
            } else {
                (
                    TransferView {
                        pos: moved(self.data, self.pos, 5),
                        stage: Stage::Write,
                        ..started
                    },
                    Some(
                        SwdOp::Write {
                            apndp: spec_element_port(e),
                            a: spec_element_addr(e),
                            data: word,
                        },
                    ),
                )
            }
        }
    }

    /// Goes on after the transaction that the transfer waited for gave
    /// `result`. The status byte takes the status of the result. A failed
    /// transaction ends the transfer. A posted read is followed by a read of
    /// RDBUFF. A value that was read is appended to the response, unless the
    /// element asks for a value match: then the read is repeated until the
    /// masked value is the one asked for, at most `match_retries` times, and
    /// a value that still differs, or a repeated read that fails, sets bit 4
    /// of the status byte and ends the transfer.
    pub open spec fn resume(self, result: Result<u32, Error>, match_retries: usize) -> (
        TransferView,
        Option<SwdOp>,
    ) {
        let status = spec_status(result);
        let noted = TransferView { resp: self.resp.update(2, status), ..self };
        let mismatch = TransferView { resp: self.resp.update(2, status | 0x10), ..self };
        match result {
            Err(_) => if self.stage == Stage::Retry {
                (mismatch, None)
            } else {
                (noted, None)
            },
            Ok(x) => if self.stage == Stage::Posted {
                (
                    TransferView { stage: Stage::Value, ..noted },
                    Some(SwdOp::Read { apndp: APnDP::DP, a: 3 }),
                )
            } else if self.stage == Stage::Write {
                noted.advance()
            } else if self.element & 0x10 != 0 {
                if x & self.match_mask == self.target {
                    noted.advance()
                } else if self.tries >= match_retries {
                    (mismatch, None)
                } else {
                    (
                        TransferView {
                            stage: Stage::Retry,
                            tries: (self.tries + 1) as usize,
                            ..noted
                        },
                        Some(
                            SwdOp::Read {
                                apndp: spec_element_port(self.element),
                                a: spec_element_addr(self.element),
                            },
                        ),
                    )
                }
            } else {
                (TransferView {
                    resp: noted.resp + le32(x),
                    reads: self.reads + 1,
                    ..noted
                }).advance()
            },
        }
    }

    /// The state at the start of a transfer for the request `data`: byte 0 is
    /// the index of the debug port, which is ignored, byte 1 the number of
    /// transfers.
    pub open spec fn start(data: Seq<u8>) -> TransferView {
        TransferView {
            data,
            pos: moved(data, 0, 2),
            resp: seq![0x05u8, 0u8, 0u8],
            ntransfers: byte_at(data, 1),
            executed: 0,
            reads: 0,
            match_mask: 0xFFFF_FFFF,
            stage: Stage::Value,
            element: 0,
            target: 0,
            tries: 0,
        }
    }
}

/// Taking up elements keeps the shape of the response: after the command
/// byte come the number of transfers executed, the status byte, and four bytes
/// for each value read.
pub proof fn lemma_advance_shape(v: TransferView)
    requires
        v.wf(),
    ensures
        v.advance().0.wf(),
        v.advance().0.reads == v.reads,
        v.advance().0.resp.len() == v.resp.len(),
        v.advance().0.resp[2] == v.resp[2],
        v.advance().1.is_some() ==> v.advance().0.resp.len() + 4 <= 64,
    decreases v.ntransfers - v.executed,
{
    if v.executed >= v.ntransfers || v.resp.len() + 4 > 64 {
    } else {
        let e = byte_at(v.data, v.pos);
        if e & 0x02 == 0 && e & 0x20 != 0 {
            let started = TransferView {
                executed: (v.executed + 1) as u8,
                resp: v.resp.update(1, (v.executed + 1) as u8),
                element: e,
                tries: 0,
                ..v
            };
            lemma_advance_shape(
                TransferView {
                    pos: moved(v.data, v.pos, 5),
                    match_mask: word_at(v.data, moved(v.data, v.pos, 1)),
                    ..started
                },
            );
        }
    }
}

/// Every step of a transfer keeps the shape of the response, and the status
/// byte is that of the last transaction, with bit 4 added on a mismatch: a
/// response of a transfer has `2 + 4 * reads` bytes behind the command byte,
/// the first of them the number of transfers executed, the second the status.
pub proof fn lemma_resume_shape(v: TransferView, result: Result<u32, Error>, match_retries: usize)
    requires
        v.wf(),
        v.resp.len() + 4 <= 64,
    ensures
        v.resume(result, match_retries).0.wf(),
        v.resume(result, match_retries).0.resp.len() == 3 + 4 * v.resume(
            result,
            match_retries,
        ).0.reads,
        v.resume(result, match_retries).0.resp[1] == v.resume(result, match_retries).0.executed,
        v.resume(result, match_retries).0.resp[2] == spec_status(result) || v.resume(
            result,
            match_retries,
        ).0.resp[2] == spec_status(result) | 0x10,
        v.resume(result, match_retries).0.reads == v.reads + (if result.is_ok() && (v.stage
            == Stage::Value || v.stage == Stage::Retry) && v.element & 0x10 == 0 {
            1nat
        } else {
            0nat
        }),
        v.resume(result, match_retries).1.is_some() ==> v.resume(
            result,
            match_retries,
        ).0.resp.len() + 4 <= 64,
{
    let status = spec_status(result);
    let noted = TransferView { resp: v.resp.update(2, status), ..v };
    match result {
        Err(_) => {},
        Ok(x) => {
            if v.stage == Stage::Posted {
            } else if v.stage == Stage::Write {
                lemma_advance_shape(noted);
            } else if v.element & 0x10 != 0 {
                if x & v.match_mask == v.target {
                    lemma_advance_shape(noted);
                }
            } else {
                lemma_advance_shape(
                    TransferView { resp: noted.resp + le32(x), reads: v.reads + 1, ..noted },
                );
            }
        },
    }
}

/// A `DAP_Transfer` in progress.
pub struct Transfer {
    pub req: Request,
    pub resp: ResponseWriter,
    pub ntransfers: u8,
    pub executed: u8,
    pub reads: usize,
    pub match_mask: u32,
    pub stage: Stage,
    pub element: u8,
    pub target: u32,
    pub tries: usize,
}

impl Transfer {
    pub open spec fn view(&self) -> TransferView {
        TransferView {
            data: self.req.data@,
            pos: self.req.pos as int,
            resp: self.resp.buf@,
            ntransfers: self.ntransfers,
            executed: self.executed,
            reads: self.reads as nat,
            match_mask: self.match_mask,
            stage: self.stage,
            element: self.element,
            target: self.target,
            tries: self.tries,
        }
    }

    pub open spec fn wf(&self) -> bool {
        self.view().wf()
    }

    /// Starts a transfer for a request.
    pub fn start(mut req: Request) -> (t: Transfer)
        requires
            req.wf(),
            req.pos == 0,
        ensures
            t@ == TransferView::start(req.data@),
            t.wf(),
    {
        let _idx: u8 = req.next_u8();
        let ntransfers: u8 = req.next_u8();
        let mut resp = ResponseWriter::new(Command::DAP_Transfer);
        resp.write_u8(0);
        resp.write_u8(0);
        assert(resp.buf@ =~= seq![0x05u8, 0u8, 0u8]);
        Transfer {
            req,
            resp,
            ntransfers,
            executed: 0,
            reads: 0,
            match_mask: 0xFFFF_FFFF,
            stage: Stage::Value,
            element: 0,
            target: 0,
            tries: 0,
        }
    }

    /// Takes up the elements that follow until one needs a transaction.
    pub fn advance(&mut self) -> (op: Option<SwdOp>)
        requires
            old(self).wf(),
        ensures
            (final(self)@, op) == old(self)@.advance(),
            final(self).wf(),
    {
        proof {
            lemma_advance_shape(self@);
        }
        while self.executed < self.ntransfers && self.resp.buf.len() + 4 <= 64
            invariant
                self.wf(),
                self@.advance() == old(self)@.advance(),
            decreases self.ntransfers - self.executed,
        {
            let ghost before = self@;
            self.executed += 1;
            self.resp.write_u8_at(1, self.executed);
            let e: u8 = self.req.next_u8();
            self.element = e;
            self.tries = 0;
            let apndp = if e & 1 != 0 {
                APnDP::AP
            } else {
                APnDP::DP
            };
            let a: u8 = (e & 0x0C) >> 2;
            if e & 0x02 != 0 {
                self.stage = if e & 1 != 0 {
                    Stage::Posted
                } else {
                    Stage::Value
                };
                if e & 0x10 != 0 {
                    self.target = self.req.next_u32();
                }
                assert((self@, Some(SwdOp::Read { apndp, a })) == before.advance());
                proof {
                    lemma_advance_shape(before);
                }
                return Some(SwdOp::Read { apndp, a });
            } else if e & 0x20 != 0 {
                self.match_mask = self.req.next_u32();
                assert(self@.advance() == before.advance());
            } else {
                let data: u32 = self.req.next_u32();
                self.stage = Stage::Write;
                assert((self@, Some(SwdOp::Write { apndp, a, data })) == before.advance());
                proof {
                    lemma_advance_shape(before);
                }
                return Some(SwdOp::Write { apndp, a, data });
            }
        }
        None
    }

    /// Goes on after the transaction that the transfer waited for.
    pub fn resume(&mut self, result: Result<u32, Error>, match_retries: usize) -> (op: Option<
        SwdOp,
    >)
        requires
            old(self).wf(),
            old(self).resp.buf@.len() + 4 <= 64,
        ensures
            (final(self)@, op) == old(self)@.resume(result, match_retries),
            final(self).wf(),
    {
        proof {
            lemma_resume_shape(self@, result, match_retries);
        }
        let (status, value) = check(result);
        match value {
            None => {
                if self.stage == Stage::Retry {
                    self.resp.write_u8_at(2, status | 0x10);
                } else {
                    self.resp.write_u8_at(2, status);
                }
                None
            },
            Some(x) => {
                self.resp.write_u8_at(2, status);
                if self.stage == Stage::Posted {
                    self.stage = Stage::Value;
                    Some(SwdOp::Read { apndp: APnDP::DP, a: 3 })
                } else if self.stage == Stage::Write {
                    self.advance()
                } else if self.element & 0x10 != 0 {
                    if x & self.match_mask == self.target {
                        self.advance()
                    } else if self.tries >= match_retries {
                        self.resp.write_u8_at(2, status | 0x10);
                        assert(self.resp.buf@ =~= old(self).resp.buf@.update(
                            2,
                            (status | 0x10) as u8,
                        ));
                        None
                    } else {
                        self.stage = Stage::Retry;
                        self.tries = self.tries + 1;
                        let e: u8 = self.element;
                        let apndp = if e & 1 != 0 {
                            APnDP::AP
                        } else {
                            APnDP::DP
                        };
                        Some(SwdOp::Read { apndp, a: (e & 0x0C) >> 2 })
                    }
                } else {
                    self.resp.write_u32(x);
                    self.reads = self.reads + 1;
                    self.advance()
                }
            },
        }
    }
}

/// The state of a `DAP_TransferBlock`, as mathematics.
pub struct BlockView {
    /// The request behind the command byte.
    pub data: Seq<u8>,
    /// Cursor into `data`.
    pub pos: int,
    /// The response so far: command byte, two bytes for the number of
    /// transfers, status byte, then the values read.
    pub resp: Seq<u8>,
    pub ntransfers: u16,
    /// Index of the transfer in progress.
    pub idx: u16,
    /// The element byte that all transfers of the block share.
    pub element: u8,
    /// The first read of an access port, posted before the block itself,
    /// is in progress.
    pub posting: bool,
}

impl BlockView {
    pub open spec fn wf(self) -> bool {
        &&& 0 <= self.pos <= self.data.len()
        &&& 4 <= self.resp.len() <= 64
        &&& self.resp[0] == 0x06
        &&& self.idx <= self.ntransfers
    }

    /// The response with `count` as the number of transfers.
    pub open spec fn with_count(self, count: u16) -> BlockView {
        BlockView {
            resp: self.resp.update(1, le16(count)[0]).update(2, le16(count)[1]),
            ..self
        }
    }

    /// Whether the block reads.
    pub open spec fn reads(self) -> bool {
        self.element & 0x02 != 0
    }

    /// The transaction for the transfer at `idx`, or the end of the block.
    /// Reads of an access port are posted: each read but the last fetches the
    /// value of the one before and posts the next, and the last one reads
    /// RDBUFF. The block ends early when the response has no room for another
    /// value. A block of no transfers reports one.
    pub open spec fn issue(self) -> (BlockView, Option<SwdOp>) {
        if self.idx >= self.ntransfers || (self.reads() && self.resp.len() + 4 > 64) {
            (
                self.with_count(
                    if self.ntransfers == 0 {
                        1u16
                    } else {
                        self.idx
                    },
                ),
                None,
            )
        } else if self.reads() {
            if self.element & 1 == 0 {
                (self, Some(SwdOp::Read { apndp: APnDP::DP, a: spec_element_addr(self.element) }))
            } else if self.idx < self.ntransfers - 1 {
                (self, Some(SwdOp::Read { apndp: APnDP::AP, a: spec_element_addr(self.element) }))
            } else {
                (self, Some(SwdOp::Read { apndp: APnDP::DP, a: 3 }))
            }
        } else {
            (
                BlockView { pos: moved(self.data, self.pos, 4), ..self },
                Some(
                    SwdOp::Write {
                        apndp: spec_element_port(self.element),
                        a: spec_element_addr(self.element),
                        data: word_at(self.data, self.pos),
                    },
                ),
            )
        }
    }

    /// Goes on after the transaction that the block waited for gave `result`.
    /// A failed transaction ends the block, and counts as a transfer.
    pub open spec fn resume(self, result: Result<u32, Error>) -> (BlockView, Option<SwdOp>) {
        let noted = BlockView { resp: self.resp.update(3, spec_status(result)), ..self };
        match result {
            Err(_) => (
                noted.with_count(
                    if self.posting {
                        1u16
                    } else {
                        (self.idx + 1) as u16
                    },
                ),
                None,
            ),
            Ok(x) => if self.posting {
                (BlockView { posting: false, ..noted }).issue()
            } else {
                (BlockView {
                    resp: if self.reads() {
                        noted.resp + le32(x)
                    } else {
                        noted.resp
                    },
                    idx: (self.idx + 1) as u16,
                    ..noted
                }).issue()
            },
        }
    }

    /// The state at the start of a block for the request `data`: byte 0 is
    /// the index of the debug port, which is ignored, bytes 1 and 2 the
    /// number of transfers, byte 3 the element.
    pub open spec fn start(data: Seq<u8>) -> BlockView {
        BlockView {
            data,
            pos: moved(data, 0, 4),
            resp: seq![0x06u8, 0u8, 0u8, 0u8],
            ntransfers: word16(byte_at(data, 1), byte_at(data, 2)),
            idx: 0,
            element: byte_at(data, 3),
            posting: byte_at(data, 3) & 0x03 == 0x03,
        }
    }

    /// The first transaction of a block: the posted read, or that of the
    /// first transfer.
    pub open spec fn begin(self) -> (BlockView, Option<SwdOp>) {
        if self.posting {
            (self, Some(SwdOp::Read { apndp: APnDP::AP, a: spec_element_addr(self.element) }))
        } else {
            self.issue()
        }
    }
}

/// A `DAP_TransferBlock` in progress.
pub struct BlockTransfer {
    pub req: Request,
    pub resp: ResponseWriter,
    pub ntransfers: u16,
    pub idx: u16,
    pub element: u8,
    pub posting: bool,
}

impl BlockTransfer {
    pub open spec fn view(&self) -> BlockView {
        BlockView {
            data: self.req.data@,
            pos: self.req.pos as int,
            resp: self.resp.buf@,
            ntransfers: self.ntransfers,
            idx: self.idx,
            element: self.element,
            posting: self.posting,
        }
    }

    pub open spec fn wf(&self) -> bool {
        self.view().wf()
    }

    /// Starts a block for a request.
    pub fn start(mut req: Request) -> (t: BlockTransfer)
        requires
            req.wf(),
            req.pos == 0,
        ensures
            t@ == BlockView::start(req.data@),
            t.wf(),
    {
        let _idx: u8 = req.next_u8();
        let ntransfers: u16 = req.next_u16();
        let element: u8 = req.next_u8();
        let mut resp = ResponseWriter::new(Command::DAP_TransferBlock);
        resp.write_u8(0);
        resp.write_u8(0);
        resp.write_u8(0);
        assert(resp.buf@ =~= seq![0x06u8, 0u8, 0u8, 0u8]);
        BlockTransfer { req, resp, ntransfers, idx: 0, element, posting: element & 0x03 == 0x03 }
    }

    /// The first transaction of the block.
    pub fn begin(&mut self) -> (op: Option<SwdOp>)
        requires
            old(self).wf(),
            old(self).resp.buf@.len() + 4 <= 64,
        ensures
            (final(self)@, op) == old(self)@.begin(),
            final(self).wf(),
            op.is_some() && final(self)@.reads() ==> final(self).resp.buf@.len() + 4 <= 64,
            op.is_some() ==> final(self).posting || final(self).idx < final(self).ntransfers,
    {
        if self.posting {
            Some(SwdOp::Read { apndp: APnDP::AP, a: (self.element & 0x0C) >> 2 })
        } else {
            self.issue()
        }
    }

    /// The transaction for the transfer at `idx`, or the end of the block.
    pub fn issue(&mut self) -> (op: Option<SwdOp>)
        requires
            old(self).wf(),
        ensures
            (final(self)@, op) == old(self)@.issue(),
            final(self).wf(),
            op.is_some() && final(self)@.reads() ==> final(self).resp.buf@.len() + 4 <= 64,
            op.is_some() ==> final(self).idx < final(self).ntransfers,
    {
        let e: u8 = self.element;
        let reads: bool = e & 0x02 != 0;
        let a: u8 = (e & 0x0C) >> 2;
        if self.idx >= self.ntransfers || (reads && self.resp.buf.len() + 4 > 64) {
            let count: u16 = if self.ntransfers == 0 {
                1
            } else {
                self.idx
            };
            self.resp.write_u16_at(1, count);
            None
        } else if reads {
            if e & 1 == 0 {
                Some(SwdOp::Read { apndp: APnDP::DP, a })
            } else if self.idx < self.ntransfers - 1 {
                Some(SwdOp::Read { apndp: APnDP::AP, a })
            } else {
                Some(SwdOp::Read { apndp: APnDP::DP, a: 3 })
            }
        } else {
            let apndp = if e & 1 != 0 {
                APnDP::AP
            } else {
                APnDP::DP
            };
            let data: u32 = self.req.next_u32();
            Some(SwdOp::Write { apndp, a, data })
        }
    }

    /// Goes on after the transaction that the block waited for.
    pub fn resume(&mut self, result: Result<u32, Error>) -> (op: Option<SwdOp>)
        requires
            old(self).wf(),
            old(self)@.reads() ==> old(self).resp.buf@.len() + 4 <= 64,
            old(self).posting || old(self).idx < old(self).ntransfers,
        ensures
            (final(self)@, op) == old(self)@.resume(result),
            final(self).wf(),
            op.is_some() && final(self)@.reads() ==> final(self).resp.buf@.len() + 4 <= 64,
            op.is_some() ==> final(self).idx < final(self).ntransfers,
    {
        let (status, value) = check(result);
        self.resp.write_u8_at(3, status);
        match value {
            None => {
                let count: u16 = if self.posting {
                    1
                } else {
                    self.idx + 1
                };
                self.resp.write_u16_at(1, count);
                None
            },
            Some(x) => {
                if self.posting {
                    self.posting = false;
                } else {
                    if self.element & 0x02 != 0 {
                        self.resp.write_u32(x);
                    }
                    self.idx = self.idx + 1;
                }
                self.issue()
            },
        }
    }
}

/// The response to a command that is answered at once, for a request with
/// the bytes `d` behind the command byte. `None` for the commands that need
/// the hardware first, and for those that are not answered at all.
pub open spec fn spec_immediate(
    command: Command,
    d: Seq<u8>,
    dap: &DAP,
    available: u32,
) -> Option<Seq<u8>> {
    let ok_if = |c: bool|
        if c {
            DAP_OK
        } else {
            DAP_ERROR
        };
    let active = if dap.swo_active {
        1u8
    } else {
        0u8
    };
    match command {
        Command::DAP_Info => match spec_info(byte_at(d, 0), dap.version@, dap.swo_buffer_len) {
            Some(bytes) => Some(bytes),
            None => None,
        },
        Command::DAP_HostStatus => Some(seq![0x01u8, 0u8]),
        Command::DAP_Connect => Some(seq![0x02u8, if byte_at(d, 0) <= 1 { 1u8 } else { 0u8 }]),
        Command::DAP_Disconnect => Some(seq![0x03u8, DAP_OK]),
        Command::DAP_WriteABORT => if dap.configured {
            None
        } else {
            Some(seq![0x08u8, DAP_ERROR])
        },
        Command::DAP_ResetTarget => Some(seq![0x0Au8, DAP_OK, 0u8]),
        Command::DAP_SWJ_Clock => Some(seq![0x11u8, ok_if(word_at(d, 0) >= 187_500)]),
        Command::DAP_SWJ_Sequence => if spec_swj_bits(byte_at(d, 0)) % 8 != 0 {
            Some(seq![0x12u8, DAP_ERROR])
        } else {
            None
        },
        Command::DAP_SWD_Configure => Some(seq![0x13u8, ok_if(byte_at(d, 0) & 0b111 == 0)]),
        Command::DAP_SWO_Transport => Some(seq![0x17u8, ok_if(byte_at(d, 0) <= 2)]),
        Command::DAP_SWO_Mode => Some(seq![0x18u8, ok_if(byte_at(d, 0) <= 1)]),
        Command::DAP_SWO_Control => Some(seq![0x1Au8, ok_if(byte_at(d, 0) <= 1)]),
        Command::DAP_SWO_Status => Some(seq![0x1Bu8, active] + le32(available)),
        Command::DAP_SWO_ExtendedStatus => Some(
            seq![0x1Eu8, active] + le32(available) + le32(0) + le32(0),
        ),
        Command::DAP_TransferConfigure => Some(seq![0x04u8, DAP_OK]),
        Command::DAP_Transfer => match TransferView::start(d).advance().1 {
            Some(_) => None,
            None => Some(TransferView::start(d).advance().0.resp),
        },
        Command::DAP_TransferBlock => match BlockView::start(d).begin().1 {
            Some(_) => None,
            None => Some(BlockView::start(d).begin().0.resp),
        },
        Command::DAP_Delay => None,
        Command::DAP_SWJ_Pins => None,
        Command::DAP_SWO_Baudrate => None,
        Command::DAP_SWO_Data => None,
        Command::DAP_TransferAbort => None,
        _ => Some(seq![0xFFu8]),
    }
}

/// The settings of the interpreter that commands change.
pub struct Settings {
    pub configured: bool,
    pub swo_streaming: bool,
    pub swo_active: bool,
    pub wait_retries: usize,
    pub match_retries: usize,
}

/// The pins after a command with the bytes `d` behind the command byte: the
/// host status sets the LED, connecting and disconnecting switch the pin
/// configuration, and `DAP_SWJ_Pins` drives or releases nRESET. No other
/// command touches a pin.
pub open spec fn spec_pins_after(command: Command, d: Seq<u8>, pins: Pins) -> Pins {
    match command {
        Command::DAP_HostStatus => Pins {
            led: Pin {
                level: if byte_at(d, 0) == 0 && byte_at(d, 1) == 0 {
                    PinState::Low
                } else if byte_at(d, 0) == 0 && byte_at(d, 1) == 1 {
                    PinState::High
                } else {
                    pins.led.level
                },
                ..pins.led
            },
            ..pins
        },
        Command::DAP_Connect => if byte_at(d, 0) <= 1 {
            pins.spec_enter(PinConfig::SWD)
        } else {
            pins
        },
        Command::DAP_Disconnect => pins.spec_enter(PinConfig::HighImpedance),
        Command::DAP_SWJ_Pins => Pins {
            flash_so: if byte_at(d, 1) & 0x80 == 0 {
                pins.flash_so
            } else if byte_at(d, 0) & 0x80 == 0 {
                Pin {
                    otype: OutputType::OpenDrain,
                    level: PinState::Low,
                    mode: PinMode::Output,
                    ..pins.flash_so
                }
            } else {
                Pin { mode: PinMode::Input, ..pins.flash_so }
            },
            ..pins
        },
        _ => pins,
    }
}

/// The SPI block after a command: connecting gives it the SWD profile,
/// disconnecting turns it off, and `DAP_SWJ_Clock` sets the fastest clock that
/// is not above the rate asked for. No other command touches it.
pub open spec fn spec_spi_after(command: Command, d: Seq<u8>, spi: SPI) -> SPI {
    match command {
        Command::DAP_Connect => if byte_at(d, 0) <= 1 {
            SPI::spec_profile_swd()
        } else {
            spi
        },
        Command::DAP_Disconnect => SPI { enabled: false, ..spi },
        Command::DAP_SWJ_Clock => match SPIClock::spec_from_max(word_at(d, 0)) {
            Some(c) => SPI { clock: c, ..spi },
            None => spi,
        },
        _ => spi,
    }
}

/// The settings after a command.
pub open spec fn spec_settings_after(command: Command, d: Seq<u8>, s: Settings) -> Settings {
    match command {
        Command::DAP_Connect => Settings { configured: byte_at(d, 0) <= 1 || s.configured, ..s },
        Command::DAP_Disconnect => Settings { configured: false, ..s },
        Command::DAP_SWO_Transport => Settings {
            swo_streaming: if byte_at(d, 0) <= 1 {
                false
            } else if byte_at(d, 0) == 2 {
                true
            } else {
                s.swo_streaming
            },
            ..s
        },
        Command::DAP_SWO_Control => Settings {
            swo_active: if byte_at(d, 0) == 0 {
                false
            } else if byte_at(d, 0) == 1 {
                true
            } else {
                s.swo_active
            },
            ..s
        },
        Command::DAP_TransferConfigure => Settings {
            wait_retries: word16(byte_at(d, 1), byte_at(d, 2)) as usize,
            match_retries: word16(byte_at(d, 3), byte_at(d, 4)) as usize,
            ..s
        },
        _ => s,
    }
}

/// Whether a command asks for work on the hardware before it is answered.
pub open spec fn spec_needs(command: Command, d: Seq<u8>, dap: &DAP) -> bool {
    match command {
        Command::DAP_WriteABORT => dap.configured,
        Command::DAP_Delay => true,
        Command::DAP_SWJ_Pins => true,
        Command::DAP_SWJ_Sequence => spec_swj_bits(byte_at(d, 0)) % 8 == 0,
        Command::DAP_SWO_Baudrate => true,
        Command::DAP_SWO_Data => true,
        Command::DAP_Transfer => TransferView::start(d).advance().1.is_some(),
        Command::DAP_TransferBlock => BlockView::start(d).begin().1.is_some(),
        _ => false,
    }
}

impl DAP {
    /// `DAP_Transfer`: takes up the elements of the request until one needs
    /// a transaction, or answers at once if none does.
    pub fn process_transfer(&mut self, req: Request) -> (r: Action)
        requires
            old(self).wf(),
            req.wf(),
            req.pos == 0,
        ensures
            final(self).wf(),
            final(self).same_settings(old(self)),
            final(self).block == old(self).block,
            final(self).abort_pending == old(self).abort_pending,
            match TransferView::start(req.data@).advance().1 {
                Some(op) => r matches Action::Swd(o) && o == op && final(self).transfer.is_some()
                    && final(self).transfer.unwrap()@ == TransferView::start(
                    req.data@,
                ).advance().0,
                None => final(self).transfer.is_none() && (r matches Action::Reply(Some(v)) && v@
                    == TransferView::start(req.data@).advance().0.resp),
            },
    {
        let mut t = Transfer::start(req);
        proof {
            lemma_advance_shape(t@);
        }
        match t.advance() {
            Some(op) => {
                self.transfer = Some(t);
                Action::Swd(op)
            },
            None => {
                self.transfer = None;
                Action::Reply(Some(t.resp.finished()))
            },
        }
    }

    /// `DAP_TransferBlock`: asks for the first transaction of the block, or
    /// answers at once if there is none.
    pub fn process_transfer_block(&mut self, req: Request) -> (r: Action)
        requires
            old(self).wf(),
            req.wf(),
            req.pos == 0,
        ensures
            final(self).wf(),
            final(self).same_settings(old(self)),
            final(self).transfer == old(self).transfer,
            final(self).abort_pending == old(self).abort_pending,
            match BlockView::start(req.data@).begin().1 {
                Some(op) => r matches Action::Swd(o) && o == op && final(self).block.is_some()
                    && final(self).block.unwrap()@ == BlockView::start(req.data@).begin().0,
                None => final(self).block.is_none() && (r matches Action::Reply(Some(v)) && v@
                    == BlockView::start(req.data@).begin().0.resp),
            },
    {
        let mut t = BlockTransfer::start(req);
        match t.begin() {
            Some(op) => {
                self.block = Some(t);
                Action::Swd(op)
            },
            None => {
                self.block = None;
                Action::Reply(Some(t.resp.finished()))
            },
        }
    }

    /// Hands the result of the transaction that the interpreter asked for
    /// back to the command that waits for it. A write gives `Ok` with any
    /// value. Where nothing waits, nothing is answered.
    pub fn resume_swd(&mut self, result: Result<u32, Error>) -> (r: Action)
        requires
            old(self).wf(),
        ensures
            final(self).wf(),
            Self::answers(r, old(self).spec_resume_swd(result)),
            final(self).resumed(old(self), result),
            r matches Action::Reply(Some(v)) ==> v@.len() <= 64,
            final(self).same_settings(old(self)),
            !final(self).abort_pending,
            old(self).abort_pending ==> (r matches Action::Reply(Some(v)) && v@ == seq![
                0x08u8,
                if result.is_ok() { DAP_OK } else { DAP_ERROR },
            ]) && final(self).transfer == old(self).transfer && final(self).block == old(
                self,
            ).block,
            !old(self).abort_pending && old(self).transfer.is_some() ==> final(self).block == old(
                self,
            ).block && match old(self).transfer.unwrap()@.resume(result, old(self).match_retries).1 {
                Some(op) => r matches Action::Swd(o) && o == op && final(self).transfer.is_some()
                    && final(self).transfer.unwrap()@ == old(self).transfer.unwrap()@.resume(
                    result,
                    old(self).match_retries,
                ).0,
                None => final(self).transfer.is_none() && (r matches Action::Reply(Some(v)) && v@
                    == old(self).transfer.unwrap()@.resume(result, old(self).match_retries).0.resp),
            },
            !old(self).abort_pending && old(self).transfer.is_none() && old(self).block.is_some()
                ==> match old(self).block.unwrap()@.resume(result).1 {
                Some(op) => r matches Action::Swd(o) && o == op && final(self).block.is_some()
                    && final(self).block.unwrap()@ == old(self).block.unwrap()@.resume(result).0,
                None => final(self).block.is_none() && (r matches Action::Reply(Some(v)) && v@
                    == old(self).block.unwrap()@.resume(result).0.resp),
            },
            old(self).idle() ==> (r matches Action::Reply(None)) && final(self).idle(),
    {
        if self.abort_pending {
            self.abort_pending = false;
            return Action::Reply(Some(Self::finish_write_abort(result)));
        }
        let transfer = self.transfer.take();
        match transfer {
            Some(mut t) => {
                proof {
                    lemma_resume_shape(t@, result, self.match_retries);
                }
                match t.resume(result, self.match_retries) {
                    Some(op) => {
                        self.transfer = Some(t);
                        Action::Swd(op)
                    },
                    None => Action::Reply(Some(t.resp.finished())),
                }
            },
            None => {
                let block = self.block.take();
                match block {
                    Some(mut b) => match b.resume(result) {
                        Some(op) => {
                            self.block = Some(b);
                            Action::Swd(op)
                        },
                        None => Action::Reply(Some(b.resp.finished())),
                    },
                    None => Action::Reply(None),
                }
            },
        }
    }

    /// Processes a CMSIS-DAP command. An empty report is not answered. A
    /// command that is not implemented is answered with the single byte
    /// 0xFF. A command that arrives while another waits for a transaction
    /// takes its place. `available` is the number of bytes that wait in the
    /// trace buffer.
    pub fn process_command(
        &mut self,
        report: &[u8],
        pins: &mut Pins,
        spi: &mut SPI,
        available: u32,
    ) -> (r: Action)
        requires
            old(self).wf(),
        ensures
            final(self).wf(),
            report@.len() == 0 ==> (r matches Action::Reply(None)) && *final(pins) == *old(pins)
                && *final(spi) == *old(spi) && *final(self) == *old(self),
            report@.len() > 0 ==> ({
                let command = Command::spec_from_u8(report@[0]);
                let d = report@.skip(1);
                &&& match spec_immediate(command, d, old(self), available) {
                    Some(bytes) => r matches Action::Reply(Some(v)) && v@ == bytes,
                    None => spec_needs(command, d, old(self)) || (r matches Action::Reply(None)),
                }
                &&& spec_needs(command, d, old(self)) ==> !(r matches Action::Reply(_))
                &&& *final(pins) == spec_pins_after(command, d, *old(pins))
                &&& *final(spi) == spec_spi_after(command, d, *old(spi))
                &&& final(self).settings() == spec_settings_after(command, d, old(self).settings())
                &&& final(self).version@ == old(self).version@
                &&& final(self).swo_buffer_len == old(self).swo_buffer_len
                &&& final(self).abort_pending == (command == Command::DAP_WriteABORT && old(
                    self,
                ).configured)
                &&& command == Command::DAP_WriteABORT && old(self).configured ==> (
                r matches Action::Swd(op) && op == (SwdOp::Write {
                    apndp: APnDP::DP,
                    a: 0,
                    data: word_at(d, 1),
                }))
                &&& command == Command::DAP_Delay ==> (r matches Action::Delay { cycles, reply }
                    && cycles == 48 * word16(byte_at(d, 0), byte_at(d, 1)) && reply@ == seq![
                    0x09u8,
                    DAP_OK,
                ])
                &&& command == Command::DAP_SWJ_Pins ==> (r matches Action::SwjPins { wait } && wait
                    == word_at(d, 2))
                &&& command == Command::DAP_SWO_Baudrate ==> (r matches Action::SwoBaudrate {
                    target,
                } && target == word_at(d, 0))
                &&& command == Command::DAP_SWJ_Sequence && spec_swj_bits(byte_at(d, 0)) % 8 == 0
                    ==> (r matches Action::Sequence { bytes, reply } && bytes@ == request_bytes(
                    d,
                    1,
                    spec_swj_bits(byte_at(d, 0)) / 8,
                ) && reply@ == seq![0x12u8, DAP_OK])
                &&& command == Command::DAP_SWO_Data ==> (r matches Action::SwoData { max } && max
                    <= 60 && max == (if word16(byte_at(d, 0), byte_at(d, 1)) < 60 {
                    word16(byte_at(d, 0), byte_at(d, 1)) as int
                } else {
                    60
                }))
                &&& command == Command::DAP_Transfer ==> match TransferView::start(d).advance().1 {
                    Some(op) => r matches Action::Swd(o) && o == op && final(self).transfer.is_some() && final(self).transfer.unwrap()@ == TransferView::start(
                        d,
                    ).advance().0,
                    None => true,
                }
                &&& command == Command::DAP_TransferBlock ==> match BlockView::start(d).begin().1 {
                    Some(op) => r matches Action::Swd(o) && o == op && final(self).block.is_some()
                        && final(self).block.unwrap()@ == BlockView::start(d).begin().0,
                    None => true,
                }
            }),
    {
        let req = match Request::from_report(report) {
            Some(req) => req,
            None => {
                return Action::Reply(None);
            },
        };
        self.abort_pending = false;
        self.transfer = None;
        self.block = None;
        match req.command {
            Command::DAP_Info => Action::Reply(self.process_info(req)),
            Command::DAP_HostStatus => Action::Reply(Some(Self::process_host_status(req, pins))),
            Command::DAP_Connect => Action::Reply(Some(self.process_connect(req, pins, spi))),
            Command::DAP_Disconnect => Action::Reply(Some(self.process_disconnect(req, pins, spi))),
            Command::DAP_WriteABORT => self.process_write_abort(req),
            Command::DAP_Delay => Self::process_delay(req),
            Command::DAP_ResetTarget => Action::Reply(Some(Self::process_reset_target(req))),
            Command::DAP_SWJ_Pins => Self::process_swj_pins(req, pins),
            Command::DAP_SWJ_Clock => Action::Reply(Some(Self::process_swj_clock(req, spi))),
            Command::DAP_SWJ_Sequence => Self::process_swj_sequence(req),
            Command::DAP_SWD_Configure => Action::Reply(Some(Self::process_swd_configure(req))),
            Command::DAP_SWO_Transport => Action::Reply(Some(self.process_swo_transport(req))),
            Command::DAP_SWO_Mode => Action::Reply(Some(Self::process_swo_mode(req))),
            Command::DAP_SWO_Baudrate => Self::process_swo_baudrate(req),
            Command::DAP_SWO_Control => Action::Reply(Some(self.process_swo_control(req))),
            Command::DAP_SWO_Status => Action::Reply(Some(self.process_swo_status(req, available))),
            Command::DAP_SWO_ExtendedStatus => Action::Reply(
                Some(self.process_swo_extended_status(req, available)),
            ),
            Command::DAP_SWO_Data => Self::process_swo_data(req),
            Command::DAP_TransferConfigure => Action::Reply(
                Some(self.process_transfer_configure(req)),
            ),
            Command::DAP_Transfer => self.process_transfer(req),
            Command::DAP_TransferBlock => self.process_transfer_block(req),
            Command::DAP_TransferAbort => Action::Reply(Self::process_transfer_abort(req)),
            _ => {
                let resp = ResponseWriter::new(Command::Unimplemented);
                Action::Reply(Some(resp.finished()))
            },
        }
    }
}

} // verus!
