//! The work of one read / write cycle, apart from the I/O: which window to
//! read, what the reply decodes to, and which register to write next.

use crate::codec::{
    address_bounds, all_in_window, decode, decoded, encode, high_word, is_plan_of, low_word, plan,
    plan_of, reading_views, window_fits, Reading, RegisterDescriptor, RegisterPlan,
    REGISTERS_PER_VALUE,
};
use crate::link::{Action, Failure, ReadReply};
use vstd::prelude::*;

verus! {

/// The window that a read cycle asks for, or the failure that ends the
/// cycle before anything is read: no register is configured, or the
/// registers lie too far apart for one window.
pub open spec fn read_request(read_registers: Seq<RegisterDescriptor>) -> Result<
    RegisterPlan,
    Failure,
> {
    if read_registers.len() == 0 {
        Err(Failure::NoRegistersConfigured)
    } else if !window_fits(read_registers) {
        Err(Failure::AddressOutOfPlanRange)
    } else {
        Ok(plan_of(read_registers))
    }
}

/// What a read cycle yields once the transport has answered: name and
/// pattern of every register, or the failure that ends the cycle.
pub open spec fn read_result(
    plan: RegisterPlan,
    reply: ReadReply,
    read_registers: Seq<RegisterDescriptor>,
) -> Result<Seq<(Seq<char>, u32)>, Failure> {
    match reply {
        ReadReply::Failed => Err(Failure::ReadFailed),
        ReadReply::Registers(values) => if all_in_window(
            plan.start_address,
            values@.len(),
            read_registers,
        ) {
            Ok(decoded(plan.start_address, values@, read_registers))
        } else {
            Err(Failure::AddressOutOfPlanRange)
        },
    }
}

/// Opens a read cycle: plans the window over the configured registers,
/// having made sure that there is one to plan.
pub fn begin_read(read_registers: &Vec<RegisterDescriptor>) -> (result: Result<
    RegisterPlan,
    Failure,
>)
    ensures
        result == read_request(read_registers@),
        result matches Ok(window) ==> is_plan_of(window, read_registers@),
{
    match address_bounds(read_registers) {
        None => Err(Failure::NoRegistersConfigured),
        Some((low, high)) => {
            let ghost i = choose|i: int|
                0 <= i < read_registers.len() && (#[trigger] read_registers@[i]).address == high;
            let ghost j = choose|j: int|
                0 <= j < read_registers.len() && (#[trigger] read_registers@[j]).address == low;
            if high - low > u16::MAX - REGISTERS_PER_VALUE {
                assert(read_registers@[i].address - read_registers@[j].address
                    + REGISTERS_PER_VALUE > u16::MAX);
                Err(Failure::AddressOutOfPlanRange)
            } else {
                match plan(read_registers) {
                    Ok(window) => Ok(window),
                    Err(_) => Err(Failure::NoRegistersConfigured),
                }
            }
        },
    }
}

/// Closes a read cycle: decodes the registers that came back.
pub fn finish_read(
    plan: &RegisterPlan,
    reply: ReadReply,
    read_registers: &Vec<RegisterDescriptor>,
) -> (result: Result<Vec<Reading>, Failure>)
    ensures
        result matches Ok(readings) ==> read_result(*plan, reply, read_registers@) == Ok::<
            Seq<(Seq<char>, u32)>,
            Failure,
        >(reading_views(readings@)),
        result matches Err(failure) ==> read_result(*plan, reply, read_registers@) == Err::<
            Seq<(Seq<char>, u32)>,
            Failure,
        >(failure),
{
    match reply {
        ReadReply::Failed => Err(Failure::ReadFailed),
        ReadReply::Registers(values) => match decode(plan, &values, read_registers) {
            Ok(readings) => Ok(readings),
            Err(_) => Err(Failure::AddressOutOfPlanRange),
        },
    }
}

/// What a write round does at one position of the list of registers.
#[derive(Clone, Copy, Debug, PartialEq, Eq, Structural)]
pub enum WriteStep {
    /// Write these two registers at `address`.
    Send { address: u16, high: u16, low: u16 },
    /// Every register has been written.
    Finished,
    /// The round cannot go on.
    Rejected(Failure),
}

/// The write for one register: its value, encoded, at its address. A
/// register without a value cannot be written.
pub open spec fn write_of(register: RegisterDescriptor) -> Option<Action> {
    match register.value {
        Some(bits) => Some(
            Action::Write {
                address: register.address,
                high: high_word(bits),
                low: low_word(bits),
            },
        ),
        None => None,
    }
}

/// What a write round does when `cursor` registers have been written.
pub open spec fn write_request(
    write_registers: Seq<RegisterDescriptor>,
    cursor: usize,
) -> WriteStep {
    if write_registers.len() == 0 {
        WriteStep::Rejected(Failure::NoRegistersConfigured)
    } else if cursor >= write_registers.len() {
        WriteStep::Finished
    } else {
        match write_registers[cursor as int].value {
            Some(bits) => WriteStep::Send {
                address: write_registers[cursor as int].address,
                high: high_word(bits),
                low: low_word(bits),
            },
            None => WriteStep::Rejected(Failure::WriteValueMissing),
        }
    }
}

/// Encodes the value of one register and addresses the write to it.
pub fn modbus_write(register: &RegisterDescriptor) -> (action: Option<Action>)
    ensures
        action == write_of(*register),
{
    match register.value {
        Some(bits) => {
            let words = encode(bits);
            Some(Action::Write { address: register.address, high: words[0], low: words[1] })
        },
        None => None,
    }
}

/// Finds what a write round does next, `cursor` registers having been
/// written: the registers are written one by one, in the order configured.
pub fn perform_write_operations(
    write_registers: &Vec<RegisterDescriptor>,
    cursor: usize,
) -> (step: WriteStep)
    ensures
        step == write_request(write_registers@, cursor),
{
    if write_registers.len() == 0 {
        WriteStep::Rejected(Failure::NoRegistersConfigured)
    } else if cursor >= write_registers.len() {
        WriteStep::Finished
    } else {
        match modbus_write(&write_registers[cursor]) {
            Some(Action::Write { address, high, low }) => WriteStep::Send { address, high, low },
            _ => WriteStep::Rejected(Failure::WriteValueMissing),
        }
    }
}

} // verus!
