//! OS-native process suspension: the process is frozen (SIGSTOP), not killed, and
//! can be thawed again (SIGCONT).
use crate::kill_switch::signal::{send_signal, SignalKind, SignalReceipt, SignalReply};
use crate::text::{decimal, push_decimal};
use vstd::prelude::*;

verus! {

/// The largest process id a signal is sent to (`i32::MAX`): `kill(2)` reads any
/// larger id, once converted to `pid_t`, as a process group.
pub const MAX_PID: u32 = 0x7fff_ffff;

/// A process id that can name a single process: not 0 (which `kill(2)` reads as the
/// caller's own process group) and not above `i32::MAX`.
pub open spec fn addressable(pid: u32) -> bool {
    0 < pid && pid <= MAX_PID
}

/// The signal a suspend (`stop`) or a resume sends.
pub open spec fn kind_for(stop: bool) -> SignalKind {
    if stop {
        SignalKind::Stop
    } else {
        SignalKind::Cont
    }
}

/// The name of a signal, as error texts give it.
pub open spec fn kind_name(k: SignalKind) -> Seq<char> {
    match k {
        SignalKind::Stop => "SIGSTOP"@,
        SignalKind::Cont => "SIGCONT"@,
    }
}

/// What is handed to `kill` to suspend (`stop`) or resume a process: the id as a
/// `pid_t` and the signal, or nothing when the id names no single process.
pub fn signal_request(pid: u32, stop: bool) -> (r: Option<(i32, SignalKind)>)
    ensures
        r == (if addressable(pid) {
            Some((pid as i32, kind_for(stop)))
        } else {
            None::<(i32, SignalKind)>
        }),
{
    if pid == 0 || pid > MAX_PID {
        return None;
    }
    let kind = if stop {
        SignalKind::Stop
    } else {
        SignalKind::Cont
    };
    Some((pid as i32, kind))
}

/// `o` is the receipt of sending the signal `kind` to `pid`: none when the id names no
/// single process, otherwise a receipt for exactly that process and signal.
pub open spec fn receipt_for(o: Option<SignalReceipt>, pid: u32, kind: SignalKind) -> bool {
    if addressable(pid) {
        o matches Some(rc) && rc.spec_target() == pid as i32 && rc.spec_kind() == kind
    } else {
        o is None
    }
}

/// Sends SIGSTOP (`stop`) or SIGCONT to the process `pid`, as `signal_request` gives
/// it, and returns the receipt; an id that names no single process is sent nothing.
pub fn signal_process(pid: u32, stop: bool) -> (r: Option<SignalReceipt>)
    ensures
        receipt_for(r, pid, kind_for(stop)),
{
    match signal_request(pid, stop) {
        None => None,
        Some((target, kind)) => Some(send_signal(target, kind)),
    }
}

/// The error text for a failed signal: the signal's name, the process id, and the
/// system's explanation.
pub open spec fn signal_error(signal: Seq<char>, pid: u32, detail: Seq<char>) -> Seq<char> {
    signal + " failed for PID "@ + decimal(pid as nat) + ": "@ + detail
}

/// `r` reports the system's answer: `Ok(true)` when the signal was delivered,
/// `Ok(false)` when no process has the id, otherwise an error naming the signal,
/// the process and the system's explanation.
pub open spec fn reply_result(r: Result<bool, String>, reply: SignalReply, signal: Seq<char>, pid: u32) -> bool {
    match reply {
        SignalReply::Delivered => r matches Ok(b) && b,
        SignalReply::NoSuchProcess => r matches Ok(b) && !b,
        SignalReply::Failed(detail) => r matches Err(m) && m@ == signal_error(signal, pid, detail@),
    }
}

/// `r` reports a receipt: `Ok(false)` when nothing was sent, otherwise the system's
/// answer, with the error text naming the signal sent and its target.
pub open spec fn receipt_outcome(r: Result<bool, String>, o: Option<SignalReceipt>) -> bool {
    match o {
        None => r matches Ok(b) && !b,
        Some(rc) => reply_result(r, rc.spec_reply(), kind_name(rc.spec_kind()), rc.spec_target() as u32),
    }
}

/// The outcome of sending `kind` to `pid`: the report of the receipt of exactly that
/// signal to exactly that process (`Ok(false)`, with no signal, for an id that names no
/// single process).
pub open spec fn signal_outcome(r: Result<bool, String>, kind: SignalKind, pid: u32) -> bool {
    exists|o: Option<SignalReceipt>| receipt_for(o, pid, kind) && #[trigger] receipt_outcome(r, o)
}

fn signal_message(signal: &str, pid: u32, detail: &str) -> (m: String)
    ensures
        m@ == signal_error(signal@, pid, detail@),
{
    let mut m = String::from_str(signal);
    m.append(" failed for PID ");
    push_decimal(&mut m, pid as u64);
    m.append(": ");
    m.append(detail);
    m
}

/// Turns the system's answer to a signal into the result reported to callers.
pub fn signal_result(reply: SignalReply, signal: &str, pid: u32) -> (r: Result<bool, String>)
    ensures
        reply_result(r, reply, signal@, pid),
{
    match reply {
        SignalReply::Delivered => Ok(true),
        SignalReply::NoSuchProcess => Ok(false),
        SignalReply::Failed(detail) => Err(signal_message(signal, pid, detail.as_str())),
    }
}

/// Reports a receipt: `Ok(false)` when nothing was sent, otherwise the system's answer.
pub fn receipt_result(o: Option<SignalReceipt>) -> (r: Result<bool, String>)
    ensures
        receipt_outcome(r, o),
{
    match o {
        None => Ok(false),
        Some(rc) => {
            let target = rc.target();
            let kind = rc.kind();
            let signal = match kind {
                SignalKind::Stop => "SIGSTOP",
                SignalKind::Cont => "SIGCONT",
            };
            signal_result(rc.into_reply(), signal, target as u32)
        },
    }
}

fn suspend_linux(pid: u32) -> (r: Result<bool, String>)
    ensures
        signal_outcome(r, SignalKind::Stop, pid),
{
    let o = signal_process(pid, true);
    let ghost g = o;
    let r = receipt_result(o);
    assert(receipt_for(g, pid, SignalKind::Stop) && receipt_outcome(r, g));
    r
}

fn resume_linux(pid: u32) -> (r: Result<bool, String>)
    ensures
        signal_outcome(r, SignalKind::Cont, pid),
{
    let o = signal_process(pid, false);
    let ghost g = o;
    let r = receipt_result(o);
    assert(receipt_for(g, pid, SignalKind::Cont) && receipt_outcome(r, g));
    r
}

/// Freezes a process by id with SIGSTOP. `Ok(true)` when the process was frozen,
/// `Ok(false)` when there is no such process (0 and ids above `i32::MAX` name none),
/// an error otherwise.
pub fn suspend_process(pid: u32) -> (r: Result<bool, String>)
    ensures
        signal_outcome(r, SignalKind::Stop, pid),
{
    suspend_linux(pid)
}

/// Thaws a previously frozen process with SIGCONT. `Ok(true)` when the signal was
/// delivered, `Ok(false)` when there is no such process, an error otherwise.
pub fn resume_process(pid: u32) -> (r: Result<bool, String>)
    ensures
        signal_outcome(r, SignalKind::Cont, pid),
{
    resume_linux(pid)
}

} // verus!
