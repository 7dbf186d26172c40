//! Terminal Mode Controller: scoped raw mode for the client's local terminal.
//!
//! `enter_raw_mode` snapshots the attribute set of a descriptor, clears
//! canonical input processing and local echo, and applies the result.  The
//! returned guard restores the snapshot exactly once, however many times it is
//! released; the client relay releases it on every exit path before the result
//! is reported.  Double application of raw mode on one descriptor within one
//! process lifetime is not supported.

use vstd::prelude::*;
use crate::errors::TunnelError;

verus! {

/// Local-mode bit for canonical (line-buffered) input processing.
pub const CANONICAL_BIT: u32 = 0o000002;
/// Local-mode bit for local echo.
pub const ECHO_BIT: u32 = 0o000010;

/// Raw mode clears canonical processing and local echo and keeps every other
/// local-mode bit as the snapshot had it.
pub open spec fn raw_local_flags(lflag: u32) -> u32 {
    lflag & !(CANONICAL_BIT | ECHO_BIT)
}

/// The terminal attribute set of the `termios` crate, carried opaquely: the
/// controller snapshots it, overrides its local-mode flags, and restores it.
#[verifier::external_type_specification]
#[verifier::external_body]
pub struct ExTermios(termios::Termios);

/// std's I/O error, carried opaquely out of the attribute syscalls.
#[verifier::external_type_specification]
#[verifier::external_body]
pub struct ExIoError(std::io::Error);

/// Relies on termios::Termios::from_fd: returns the current attribute set of
/// `fd`, or the OS error when `fd` is not a terminal or the call is rejected.
#[verifier::external_body]
fn term_attrs_of(fd: i32) -> Result<termios::Termios, std::io::Error> {
    termios::Termios::from_fd(fd)
}

/// Relies on the public `c_lflag` field of the attribute set (through its
/// `Deref` impl): the local-mode flag bits.
#[verifier::external_body]
fn local_flags_of(attrs: &termios::Termios) -> u32 {
    attrs.c_lflag
}

/// Relies on the public `c_lflag` field (through `DerefMut`): the returned set
/// is `attrs` with its local-mode flag bits replaced by `lflag`.
#[verifier::external_body]
fn with_local_flags(attrs: &termios::Termios, lflag: u32) -> termios::Termios {
    let mut out = *attrs;
    out.c_lflag = lflag;
    out
}

/// Relies on termios::tcsetattr: applies `attrs` to `fd` under the given
/// action (when to apply and what to do with pending data), or returns the OS
/// error.
#[verifier::external_body]
fn term_set_attrs(fd: i32, action: i32, attrs: &termios::Termios) -> Result<(), std::io::Error> {
    termios::tcsetattr(fd, action, attrs)
}

/// Relies on termios::ICANON: the canonical-processing bit is `0o000002` on
/// this target.
#[verifier::external_body]
fn canonical_bit_of_termios() -> (r: u32)
    ensures
        r == CANONICAL_BIT,
{
    termios::ICANON
}

/// Relies on termios::ECHO: the local-echo bit is `0o000010` on this target.
#[verifier::external_body]
fn echo_bit_of_termios() -> (r: u32)
    ensures
        r == ECHO_BIT,
{
    termios::ECHO
}

/// Relies on termios::TCSADRAIN: value `1` on this target; applies attributes
/// after pending output has drained.
#[verifier::external_body]
fn drain_action_of_termios() -> (r: i32)
    ensures
        r == 1i32,
{
    termios::TCSADRAIN
}

/// Relies on termios::TCSAFLUSH: value `2` on this target; applies attributes
/// after draining output and discarding unread input.
#[verifier::external_body]
fn flush_action_of_termios() -> (r: i32)
    ensures
        r == 2i32,
{
    termios::TCSAFLUSH
}

/// The bits raw mode clears, as the linked `termios` crate defines them.
pub fn local_mode_mask() -> (r: u32)
    ensures
        r == (CANONICAL_BIT | ECHO_BIT),
{
    canonical_bit_of_termios() | echo_bit_of_termios()
}

/// The snapshot of one descriptor's attribute set, to be put back exactly once.
pub struct TermGuard {
    /// The descriptor whose attributes were changed.
    pub fd: i32,
    /// The attribute set captured before raw mode was applied.
    pub saved: termios::Termios,
    /// The local-mode flags of `saved`, as read at capture time.
    pub saved_lflag: u32,
    /// The local-mode flags that raw mode applied.
    pub applied_lflag: u32,
    /// Whether the snapshot has been put back already.
    pub restored: bool,
}

/// What releasing a guard does, at the specification level: the guard counts
/// as restored afterwards, and the restore is performed by this release only
/// if no earlier release happened.
pub open spec fn release_step(restored: bool) -> (bool, bool) {
    (true, !restored)
}

/// The guard's restored flag after `n` releases, with how many of those
/// releases performed the restore.
pub open spec fn release_run(restored: bool, n: nat) -> (bool, nat)
    decreases n,
{
    if n == 0 {
        (restored, 0)
    } else {
        let (mid, performed) = release_run(restored, (n - 1) as nat);
        let (end, p) = release_step(mid);
        (end, performed + if p { 1nat } else { 0nat })
    }
}

/// Law: however often a freshly acquired guard is released, the saved
/// attribute set is put back exactly once — the first release performs it and
/// every later one refuses.
pub proof fn lemma_restore_exactly_once(n: nat)
    requires
        n >= 1,
    ensures
        release_run(false, n) == (true, 1nat),
    decreases n,
{
    if n == 1 {
        assert(release_run(false, 0nat) == (false, 0nat));
    } else {
        lemma_restore_exactly_once((n - 1) as nat);
    }
}

impl TermGuard {
    /// A freshly acquired guard for `fd`: not yet restored, and the flags it
    /// applied are exactly the snapshot's flags with raw mode's bits cleared.
    pub open spec fn fresh(&self, fd: i32) -> bool {
        &&& self.fd == fd
        &&& !self.restored
        &&& self.applied_lflag == raw_local_flags(self.saved_lflag)
    }

    /// Puts the saved attribute set back, unless an earlier release already
    /// did; the restore is applied after draining output and discarding unread
    /// input.  Returns whether this call performed the restore.  A rejection
    /// by the OS at this point is not reported: restoration is best effort, as
    /// there is no further recovery on an exit path.
    pub fn release(&mut self) -> (performed: bool)
        ensures
            (final(self).restored, performed) == release_step(old(self).restored),
            final(self).fd == old(self).fd,
            final(self).saved == old(self).saved,
            final(self).saved_lflag == old(self).saved_lflag,
            final(self).applied_lflag == old(self).applied_lflag,
    {
        if self.restored {
            return false;
        }
        let action = flush_action_of_termios();
        let _ = term_set_attrs(self.fd, action, &self.saved);
        self.restored = true;
        true
    }
}

/// Captures `fd`'s attribute set, clears canonical processing and local echo,
/// and applies the result once pending output has drained.  Fails exactly when
/// the OS rejects reading or writing the attributes — in particular when `fd`
/// is not a terminal.
pub fn enter_raw_mode(fd: i32) -> (r: Result<TermGuard, TunnelError>)
    ensures
        r matches Ok(g) ==> g.fresh(fd),
        r matches Err(e) ==> e == TunnelError::Termios,
{
    let saved = match term_attrs_of(fd) {
        Ok(attrs) => attrs,
        Err(_) => {
            return Err(TunnelError::Termios);
        },
    };
    let saved_lflag = local_flags_of(&saved);
    let mask = local_mode_mask();
    let applied_lflag = saved_lflag & !mask;
    let raw_attrs = with_local_flags(&saved, applied_lflag);
    let action = drain_action_of_termios();
    match term_set_attrs(fd, action, &raw_attrs) {
        Ok(()) => Ok(TermGuard { fd, saved, saved_lflag, applied_lflag, restored: false }),
        Err(_) => Err(TunnelError::Termios),
    }
}

} // verus!
