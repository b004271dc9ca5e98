//! The saved address of the original service, and the two operations that
//! may change it: capture at install, translation at the addressing switch.

use vstd::prelude::*;
use crate::hex::{hex_padded, push_hex};
use crate::status::{is_error_code, status_is_error};
use crate::table::{HookError, ServiceTable, install_outcome, well_formed_image};

verus! {

/// Where the forwarding slot stands in its life.
#[derive(Clone, Copy, Debug, PartialEq, Eq, Structural)]
pub enum SlotPhase {
    /// Holds the address the module was built with; nothing installed yet.
    Pristine,
    /// Holds the original service's physical address; the hook is live.
    Installed,
    /// Holds the original service's translated address.
    Relocated,
}

/// Why the address translation failed.
#[derive(Clone, Copy, Debug, PartialEq, Eq, Structural)]
pub enum RelocationError {
    /// The translation primitive returned this error status.
    TranslationFailed(usize),
}

/// The address through which intercepted calls are forwarded.
pub struct ForwardingSlot {
    target: u64,
    phase: SlotPhase,
}

/// `GetVariable relocated from 0x<old> to 0x<new>`, each address in lower
/// case hex of at least six digits.
pub open spec fn relocation_line(from: u64, to: u64) -> Seq<u8> {
    relocated_from_text() + seq![48u8, 120u8] + hex_padded(from as nat, 6, false) + seq![
        32u8,
        116u8,
        111u8,
        32u8,
    ] + seq![48u8, 120u8] + hex_padded(to as nat, 6, false)
}

/// `GetVariable relocated from `.
pub open spec fn relocated_from_text() -> Seq<u8> {
    seq![
        71u8, 101u8, 116u8, 86u8, 97u8, 114u8, 105u8, 97u8, 98u8, 108u8, 101u8, 32u8, 114u8,
        101u8, 108u8, 111u8, 99u8, 97u8, 116u8, 101u8, 100u8, 32u8, 102u8, 114u8, 111u8, 109u8,
        32u8,
    ]
}

/// The relocation line names both addresses: the old one after the 29 bytes
/// `GetVariable relocated from 0x`, the new one after ` to 0x`.
pub proof fn law_relocation_line_names_both(from: u64, to: u64)
    ensures
        ({
            let line = relocation_line(from, to);
            let a = hex_padded(from as nat, 6, false);
            let b = hex_padded(to as nat, 6, false);
            &&& line.subrange(29, 29 + a.len() as int) == a
            &&& line.subrange(29 + a.len() as int + 6, line.len() as int) == b
        }),
{
    let line = relocation_line(from, to);
    let a = hex_padded(from as nat, 6, false);
    let b = hex_padded(to as nat, 6, false);
    assert(line.subrange(29, 29 + a.len() as int) =~= a);
    assert(line.subrange(29 + a.len() as int + 6, line.len() as int) =~= b);
}

impl ForwardingSlot {
    pub closed spec fn spec_target(&self) -> u64 {
        self.target
    }

    pub closed spec fn spec_phase(&self) -> SlotPhase {
        self.phase
    }

    /// A slot holding the address the module was built with.
    pub fn new(pristine: u64) -> (r: ForwardingSlot)
        ensures
            r.spec_target() == pristine,
            r.spec_phase() == SlotPhase::Pristine,
    {
        ForwardingSlot { target: pristine, phase: SlotPhase::Pristine }
    }

    /// The address calls are forwarded to.
    pub fn target(&self) -> (r: u64)
        ensures
            r == self.spec_target(),
    {
        self.target
    }

    pub fn phase(&self) -> (r: SlotPhase)
        ensures
            r == self.spec_phase(),
    {
        self.phase
    }

    /// Installs the hook: exchanges the table entry at `entry` for
    /// `new_function` (see `ServiceTable::install`) and, on success, keeps the
    /// entry's former value as the forwarding target and returns the status of
    /// the checksum primitive.
    ///
    /// A slot that is no longer pristine refuses, changing nothing.
    pub fn install<F: Fn(&[u8]) -> (usize, u32)>(&mut self, table: &mut ServiceTable, entry: usize, new_function: u64, checksum: F) -> (r: Result<usize, HookError>)
        requires
            well_formed_image(old(table)@),
            forall|b: &[u8]| checksum.requires((b,)),
        ensures
            well_formed_image(final(table)@),
            old(self).spec_phase() != SlotPhase::Pristine ==> r == Err::<usize, HookError>(
                HookError::AlreadyInstalled,
            ) && final(table)@ == old(table)@ && *final(self) == *old(self),
            old(self).spec_phase() == SlotPhase::Pristine ==> exists|res: Result<(u64, usize), HookError>|
                {
                    &&& #[trigger] install_outcome(
                        old(table)@,
                        final(table)@,
                        entry as int,
                        new_function,
                        checksum,
                        res,
                    )
                    &&& match res {
                        Ok((original, st)) => {
                            &&& r == Ok::<usize, HookError>(st)
                            &&& final(self).spec_target() == original
                            &&& final(self).spec_phase() == SlotPhase::Installed
                        },
                        Err(e) => r == Err::<usize, HookError>(e) && *final(self) == *old(self),
                    }
                },
    {
        if self.phase != SlotPhase::Pristine {
            return Err(HookError::AlreadyInstalled);
        }
        let res = table.install(entry, new_function, checksum);
        match res {
            Ok((original, st)) => {
                self.target = original;
                self.phase = SlotPhase::Installed;
                Ok(st)
            },
            Err(e) => Err(e),
        }
    }

    /// Takes the outcome of translating the target at the addressing switch:
    /// the target becomes `translated` and the line to log names both
    /// addresses; an error `status` is reported after that.
    pub fn relocate(&mut self, status: usize, translated: u64) -> (r: (
        Vec<u8>,
        Result<(), RelocationError>,
    ))
        requires
            old(self).spec_phase() == SlotPhase::Installed,
        ensures
            final(self).spec_target() == translated,
            final(self).spec_phase() == SlotPhase::Relocated,
            r.0@ == relocation_line(old(self).spec_target(), translated),
            r.1 == if is_error_code(status) {
                Err::<(), RelocationError>(RelocationError::TranslationFailed(status))
            } else {
                Ok::<(), RelocationError>(())
            },
    {
        let from = self.target;
        self.target = translated;
        self.phase = SlotPhase::Relocated;
        let mut line: Vec<u8> = Vec::new();
        line.extend_from_slice(
            &[
                71u8, 101, 116, 86, 97, 114, 105, 97, 98, 108, 101, 32, 114, 101, 108, 111, 99, 97,
                116, 101, 100, 32, 102, 114, 111, 109, 32,
            ],
        );
        line.extend_from_slice(&[48u8, 120]);
        push_hex(&mut line, from, 6, false);
        line.extend_from_slice(&[32u8, 116, 111, 32]);
        line.extend_from_slice(&[48u8, 120]);
        push_hex(&mut line, translated, 6, false);
        assert(line@ =~= relocation_line(from, translated));
        let result = if status_is_error(status) {
            Err(RelocationError::TranslationFailed(status))
        } else {
            Ok(())
        };
        (line, result)
    }
}

} // verus!
