//! Bus transactions of the driver and their framing.
//!
//! The controller tells commands from display data by the control byte that
//! opens a transaction. The functions here build the three kinds of write the
//! driver uses; carrying a request out on the bus is left to the caller.
use vstd::prelude::*;
use vstd::slice::slice_to_vec;

verus! {

/// Control byte that announces command bytes.
pub const COMMAND_CONTROL: u8 = 0x00;

/// Control byte that announces display data.
pub const DATA_CONTROL: u8 = 0x40;

/// One request to the bus master, carried out as a single transaction.
#[derive(Debug, PartialEq, Eq)]
pub enum BusRequest {
    /// Select the device that the following transactions address.
    SetSlaveAddress { address: u16 },
    /// Send `command`, then the bytes of `buffer`.
    BlockWrite { command: u8, buffer: Vec<u8> },
    /// Send the bytes of `buffer` as they are.
    Write { buffer: Vec<u8> },
}

/// What a [`BusRequest`] asks for, as a mathematical value.
pub enum Transfer {
    SetSlaveAddress { address: u16 },
    BlockWrite { command: u8, buffer: Seq<u8> },
    Write { buffer: Seq<u8> },
}

impl Transfer {
    /// The bytes that the transaction puts on the bus after the device address.
    pub open spec fn wire(self) -> Seq<u8> {
        match self {
            Transfer::SetSlaveAddress { .. } => Seq::empty(),
            Transfer::BlockWrite { command, buffer } => seq![command] + buffer,
            Transfer::Write { buffer } => buffer,
        }
    }

    /// A block write that is framed as command bytes.
    pub open spec fn is_command(self) -> bool {
        self matches Transfer::BlockWrite { command, .. } && command == COMMAND_CONTROL
    }

    /// A block write that is framed as display data.
    pub open spec fn is_data(self) -> bool {
        self matches Transfer::BlockWrite { command, .. } && command == DATA_CONTROL
    }
}

impl View for BusRequest {
    type V = Transfer;

    open spec fn view(&self) -> Transfer {
        match *self {
            BusRequest::SetSlaveAddress { address } => Transfer::SetSlaveAddress { address },
            BusRequest::BlockWrite { command, buffer } => Transfer::BlockWrite {
                command,
                buffer: buffer@,
            },
            BusRequest::Write { buffer } => Transfer::Write { buffer: buffer@ },
        }
    }
}

impl Clone for BusRequest {
    /// A second request for the same transfer.
    fn clone(&self) -> (copy: BusRequest)
        ensures
            copy@ == self@,
    {
        match self {
            BusRequest::SetSlaveAddress { address } => BusRequest::SetSlaveAddress {
                address: *address,
            },
            BusRequest::BlockWrite { command, buffer } => BusRequest::BlockWrite {
                command: *command,
                buffer: slice_to_vec(buffer.as_slice()),
            },
            BusRequest::Write { buffer } => BusRequest::Write {
                buffer: slice_to_vec(buffer.as_slice()),
            },
        }
    }
}

/// The transfer that sends the single command byte `cmd`.
pub open spec fn command_transfer(cmd: u8) -> Transfer {
    Transfer::BlockWrite { command: COMMAND_CONTROL, buffer: seq![cmd] }
}

/// The transfer that sends `buffer` as display data.
pub open spec fn data_transfer(buffer: Seq<u8>) -> Transfer {
    Transfer::BlockWrite { command: DATA_CONTROL, buffer }
}

/// The transfer that sends `buffer` unframed.
pub open spec fn raw_transfer(buffer: Seq<u8>) -> Transfer {
    Transfer::Write { buffer }
}

/// Frames one command byte: the command control byte, then `cmd`.
pub fn write_cmd(cmd: u8) -> (request: BusRequest)
    ensures
        request@ == command_transfer(cmd),
        request@.wire() == seq![COMMAND_CONTROL, cmd],
{
    let mut buffer: Vec<u8> = Vec::new();
    buffer.push(cmd);
    assert(buffer@ =~= seq![cmd]);
    assert(seq![COMMAND_CONTROL] + seq![cmd] =~= seq![COMMAND_CONTROL, cmd]);
    BusRequest::BlockWrite { command: COMMAND_CONTROL, buffer }
}

/// Frames display data: the data control byte, then all of `buffer`.
pub fn write_data(buffer: &[u8]) -> (request: BusRequest)
    ensures
        request@ == data_transfer(buffer@),
        request@.wire() == seq![DATA_CONTROL] + buffer@,
{
    BusRequest::BlockWrite { command: DATA_CONTROL, buffer: slice_to_vec(buffer) }
}

/// Asks for `buffer` to go out as it is, with no control byte put before it:
/// for a buffer that opens with its own.
pub fn write(buffer: &[u8]) -> (request: BusRequest)
    ensures
        request@ == raw_transfer(buffer@),
        request@.wire() == buffer@,
{
    BusRequest::Write { buffer: slice_to_vec(buffer) }
}

impl BusRequest {
    /// The bytes that the transaction puts on the bus after the device address.
    pub fn wire_bytes(&self) -> (bytes: Vec<u8>)
        ensures
            bytes@ == self@.wire(),
    {
        match self {
            BusRequest::SetSlaveAddress { .. } => Vec::new(),
            BusRequest::BlockWrite { command, buffer } => {
                let mut bytes: Vec<u8> = Vec::new();
                bytes.push(*command);
                let mut i: usize = 0;
                while i < buffer.len()
                    invariant
                        i <= buffer.len(),
                        bytes@ == seq![*command] + buffer@.subrange(0, i as int),
                    decreases buffer.len() - i,
                {
                    bytes.push(buffer[i]);
                    i += 1;
                }
                assert(buffer@.subrange(0, i as int) =~= buffer@);
                bytes
            },
            BusRequest::Write { buffer } => slice_to_vec(buffer.as_slice()),
        }
    }
}

} // verus!
