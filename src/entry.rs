//! Decisions of the module's load sequence and of its fatal halt.

use vstd::prelude::*;
use crate::hex::{hex_digits, push_hex};
use crate::status::{invalid_parameter, invalid_parameter_code, is_error_code, status_is_error};
use crate::table::HookError;

verus! {

/// A condition after which the module must stop rather than go on.
#[derive(Clone, Copy, Debug, PartialEq, Eq, Structural)]
pub enum Fault {
    /// A platform handle was missing, or the hook was installed twice.
    PreconditionViolation,
    /// The checksum primitive failed with this status.
    IntegrityFailure(usize),
    /// The address translation failed with this status.
    RelocationFailure(usize),
}

/// What the load sequence does next.
#[derive(Clone, Copy, Debug, PartialEq, Eq, Structural)]
pub enum EntryAction {
    /// Go on with the next step.
    Proceed,
    /// Return this status to the loader.
    Finish(usize),
    /// Close the registered event, then return this status to the loader.
    CloseEventAndFinish(usize),
    /// Halt.
    Halt(Fault),
}

/// `0x` and the status in lower case hex.
pub open spec fn status_text(status: usize) -> Seq<u8> {
    seq![48u8, 120u8] + hex_digits(status as nat, false)
}

/// `Driver being loaded`.
pub open spec fn load_start_text() -> Seq<u8> {
    seq![
        68u8, 114u8, 105u8, 118u8, 101u8, 114u8, 32u8, 98u8, 101u8, 105u8, 110u8, 103u8, 32u8,
        108u8, 111u8, 97u8, 100u8, 101u8, 100u8,
    ]
}

/// `create_event_ex failed : `.
pub open spec fn registration_failed_text() -> Seq<u8> {
    seq![
        99u8, 114u8, 101u8, 97u8, 116u8, 101u8, 95u8, 101u8, 118u8, 101u8, 110u8, 116u8, 95u8,
        101u8, 120u8, 32u8, 102u8, 97u8, 105u8, 108u8, 101u8, 100u8, 32u8, 58u8, 32u8,
    ]
}

/// `exchange_table_pointer failed : `.
pub open spec fn install_failed_text() -> Seq<u8> {
    seq![
        101u8, 120u8, 99u8, 104u8, 97u8, 110u8, 103u8, 101u8, 95u8, 116u8, 97u8, 98u8, 108u8,
        101u8, 95u8, 112u8, 111u8, 105u8, 110u8, 116u8, 101u8, 114u8, 32u8, 102u8, 97u8, 105u8,
        108u8, 101u8, 100u8, 32u8, 58u8, 32u8,
    ]
}

/// The line written before halting on `fault`.
pub open spec fn halt_line(fault: Fault) -> Seq<u8> {
    match fault {
        Fault::PreconditionViolation => seq![
            112u8, 114u8, 101u8, 99u8, 111u8, 110u8, 100u8, 105u8, 116u8, 105u8, 111u8, 110u8,
            32u8, 118u8, 105u8, 111u8, 108u8, 97u8, 116u8, 101u8, 100u8,
        ],
        Fault::IntegrityFailure(st) => seq![
            99u8, 97u8, 108u8, 99u8, 117u8, 108u8, 97u8, 116u8, 101u8, 95u8, 99u8, 114u8, 99u8,
            51u8, 50u8, 32u8, 102u8, 97u8, 105u8, 108u8, 101u8, 100u8, 32u8, 58u8, 32u8,
        ] + status_text(st),
        Fault::RelocationFailure(st) => seq![
            99u8, 111u8, 110u8, 118u8, 101u8, 114u8, 116u8, 95u8, 112u8, 111u8, 105u8, 110u8,
            116u8, 101u8, 114u8, 32u8, 102u8, 97u8, 105u8, 108u8, 101u8, 100u8, 32u8, 58u8, 32u8,
        ] + status_text(st),
    }
}

fn push_status(out: &mut Vec<u8>, status: usize)
    ensures
        final(out)@ == old(out)@ + status_text(status),
{
    let ghost start = out@;
    out.extend_from_slice(&[48u8, 120]);
    push_hex(out, status as u64, 0, false);
    assert(out@ =~= start + status_text(status));
}

/// The line that opens the load sequence.
pub fn load_start_line() -> (r: Vec<u8>)
    ensures
        r@ == load_start_text(),
{
    let mut out: Vec<u8> = Vec::new();
    out.extend_from_slice(
        &[68u8, 114, 105, 118, 101, 114, 32, 98, 101, 105, 110, 103, 32, 108, 111, 97, 100, 101, 100],
    );
    assert(out@ =~= load_start_text());
    out
}

/// Next step once the relocation event's registration returned `status`,
/// with the line to log (empty when there is none).
pub fn after_registration(status: usize) -> (r: (EntryAction, Vec<u8>))
    ensures
        !is_error_code(status) ==> r.0 == EntryAction::Proceed && r.1@ == Seq::<u8>::empty(),
        is_error_code(status) ==> r.0 == EntryAction::Finish(status) && r.1@
            == registration_failed_text() + status_text(status),
{
    let mut out: Vec<u8> = Vec::new();
    if status_is_error(status) {
        out.extend_from_slice(
            &[
                99u8, 114, 101, 97, 116, 101, 95, 101, 118, 101, 110, 116, 95, 101, 120, 32, 102,
                97, 105, 108, 101, 100, 32, 58, 32,
            ],
        );
        push_status(&mut out, status);
        assert(out@ =~= registration_failed_text() + status_text(status));
        (EntryAction::Finish(status), out)
    } else {
        assert(out@ =~= Seq::<u8>::empty());
        (EntryAction::Proceed, out)
    }
}

/// Next step once the install returned `result`, with the line to log
/// (empty when there is none).
///
/// Success ends the sequence with the status that the checksum primitive
/// returned (a success or a warning). A table that has no such entry
/// refuses the exchange before any change: the event is released and the
/// loader told of an invalid parameter. A second install and a failed
/// checksum are fatal.
pub fn after_install(result: Result<usize, HookError>) -> (r: (EntryAction, Vec<u8>))
    ensures
        result matches Ok(st) ==> r.0 == EntryAction::Finish(st) && r.1@ == Seq::<u8>::empty(),
        result == Err::<usize, HookError>(HookError::InvalidSlot) ==> r.0
            == EntryAction::CloseEventAndFinish(invalid_parameter_code()) && r.1@ == install_failed_text()
            + status_text(invalid_parameter_code()),
        result == Err::<usize, HookError>(HookError::AlreadyInstalled) ==> r.0 == EntryAction::Halt(
            Fault::PreconditionViolation,
        ) && r.1@ == Seq::<u8>::empty(),
        result matches Err(HookError::IntegrityFailure(st)) ==> r.0 == EntryAction::Halt(
            Fault::IntegrityFailure(st),
        ) && r.1@ == Seq::<u8>::empty(),
{
    let mut out: Vec<u8> = Vec::new();
    assert(out@ =~= Seq::<u8>::empty());
    match result {
        Ok(st) => (EntryAction::Finish(st), out),
        Err(HookError::InvalidSlot) => {
            let status = invalid_parameter();
            out.extend_from_slice(
                &[
                    101u8, 120, 99, 104, 97, 110, 103, 101, 95, 116, 97, 98, 108, 101, 95, 112, 111,
                    105, 110, 116, 101, 114, 32, 102, 97, 105, 108, 101, 100, 32, 58, 32,
                ],
            );
            push_status(&mut out, status);
            assert(out@ =~= install_failed_text() + status_text(status));
            (EntryAction::CloseEventAndFinish(status), out)
        },
        Err(HookError::AlreadyInstalled) => (EntryAction::Halt(Fault::PreconditionViolation), out),
        Err(HookError::IntegrityFailure(st)) => (EntryAction::Halt(Fault::IntegrityFailure(st)), out),
    }
}

/// The line the module writes as it halts on `fault`; the halt itself is
/// the caller's.
pub fn panic_handler(fault: Fault) -> (r: Vec<u8>)
    ensures
        r@ == halt_line(fault),
{
    let mut out: Vec<u8> = Vec::new();
    match fault {
        Fault::PreconditionViolation => {
            out.extend_from_slice(
                &[
                    112u8, 114, 101, 99, 111, 110, 100, 105, 116, 105, 111, 110, 32, 118, 105, 111,
                    108, 97, 116, 101, 100,
                ],
            );
        },
        Fault::IntegrityFailure(st) => {
            out.extend_from_slice(
                &[
                    99u8, 97, 108, 99, 117, 108, 97, 116, 101, 95, 99, 114, 99, 51, 50, 32, 102, 97,
                    105, 108, 101, 100, 32, 58, 32,
                ],
            );
            push_status(&mut out, st);
        },
        Fault::RelocationFailure(st) => {
            out.extend_from_slice(
                &[
                    99u8, 111, 110, 118, 101, 114, 116, 95, 112, 111, 105, 110, 116, 101, 114, 32,
                    102, 97, 105, 108, 101, 100, 32, 58, 32,
                ],
            );
            push_status(&mut out, st);
        },
    }
    assert(out@ =~= halt_line(fault));
    out
}

} // verus!
