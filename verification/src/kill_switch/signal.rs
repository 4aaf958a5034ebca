//! Sending one signal to one process, and the receipt of what was sent and what the
//! operating system answered. A receipt is made only by sending the signal.
use vstd::prelude::*;

verus! {

/// The two signals the kill switch sends.
#[derive(Debug, Clone, Copy, PartialEq, Eq, Structural)]
pub enum SignalKind {
    /// SIGSTOP: freeze the process.
    Stop,
    /// SIGCONT: let a frozen process run again.
    Cont,
}

/// What the operating system answered when a signal was sent to a process.
#[derive(Debug)]
pub enum SignalReply {
    /// The signal was delivered.
    Delivered,
    /// No process has that id (`ESRCH`).
    NoSuchProcess,
    /// Any other error, with the system's explanation ("EPERM: Operation not permitted", ...).
    Failed(String),
}

/// Which signal was sent to which process, and what the system answered.
pub struct SignalReceipt {
    target: i32,
    kind: SignalKind,
    reply: SignalReply,
}

impl SignalReceipt {
    #[verifier::type_invariant]
    spec fn names_one_process(self) -> bool {
        self.target > 0
    }

    /// The process the signal was sent to.
    pub closed spec fn spec_target(&self) -> i32 {
        self.target
    }

    /// The signal that was sent.
    pub closed spec fn spec_kind(&self) -> SignalKind {
        self.kind
    }

    /// What the system answered.
    pub closed spec fn spec_reply(&self) -> SignalReply {
        self.reply
    }

    /// The process the signal was sent to.
    pub fn target(&self) -> (t: i32)
        ensures
            t == self.spec_target(),
            t > 0,
    {
        proof {
            use_type_invariant(self);
        }
        self.target
    }

    /// The signal that was sent.
    pub fn kind(&self) -> (k: SignalKind)
        ensures
            k == self.spec_kind(),
    {
        self.kind
    }

    /// The signal was delivered.
    pub fn delivered(&self) -> (b: bool)
        ensures
            b == (self.spec_reply() is Delivered),
    {
        match self.reply {
            SignalReply::Delivered => true,
            _ => false,
        }
    }

    /// The system's answer, taking the receipt apart.
    pub fn into_reply(self) -> (r: SignalReply)
        ensures
            r == self.spec_reply(),
    {
        self.reply
    }
}

/// Calls `nix::sys::signal::kill` for the process `target` with `SIGSTOP` or `SIGCONT`,
/// and returns the receipt: the target and signal it was called with, and the answer
/// told apart (`Ok` is `Delivered`, the `ESRCH` error is `NoSuchProcess`, any other
/// error is `Failed` with its `Display`). Which answer comes depends on the machine:
/// nothing is stated of it.
#[verifier::external_body]
pub(crate) fn send_signal(target: i32, kind: SignalKind) -> (r: SignalReceipt)
    requires
        target > 0,
    ensures
        r.spec_target() == target,
        r.spec_kind() == kind,
{
    let signal = match kind {
        SignalKind::Stop => nix::sys::signal::Signal::SIGSTOP,
        SignalKind::Cont => nix::sys::signal::Signal::SIGCONT,
    };
    let reply = match nix::sys::signal::kill(nix::unistd::Pid::from_raw(target), signal) {
        Ok(()) => SignalReply::Delivered,
        Err(nix::errno::Errno::ESRCH) => SignalReply::NoSuchProcess,
        Err(e) => SignalReply::Failed(e.to_string()),
    };
    SignalReceipt { target, kind, reply }
}

} // verus!
