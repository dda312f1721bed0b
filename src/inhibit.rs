use vstd::prelude::*;

verus! {

/// Relies on libc::FD_CLOEXEC: the close-on-exec bit of a descriptor's
/// flags, 1 on Linux.
#[verifier::external_body]
fn close_on_exec_bit() -> (r: i32)
    ensures
        r == 1,
{
    libc::FD_CLOEXEC
}

/// What to do with an inhibitor descriptor, given the flags read back from it.
#[derive(Clone, Copy, Debug, PartialEq, Eq, Structural)]
pub enum CloexecPlan {
    /// Reading the flags failed: report the operating system's error.
    Unreadable,
    /// Close-on-exec is already set: keep the descriptor as it is.
    AlreadySet,
    /// Write these flags back: the old ones with close-on-exec added.
    Enable(i32),
}

impl CloexecPlan {
    /// Decides, from the result of reading a descriptor's flags, whether the
    /// close-on-exec bit has to be set. Nothing is assumed of the power
    /// manager: the bit is checked, and set where missing.
    pub fn for_flags(flags: i32) -> (r: CloexecPlan)
        ensures
            flags < 0 ==> r == CloexecPlan::Unreadable,
            flags >= 0 && flags & 1 == 1 ==> r == CloexecPlan::AlreadySet,
            flags >= 0 && flags & 1 != 1 ==> r == CloexecPlan::Enable(flags | 1),
            r matches CloexecPlan::Enable(f) ==> f & 1 == 1 && f & !1i32 == flags & !1i32,
    {
        let bit = close_on_exec_bit();
        if flags < 0 {
            CloexecPlan::Unreadable
        } else if flags & bit == bit {
            CloexecPlan::AlreadySet
        } else {
            let f = flags | bit;
            assert(f & 1 == 1 && f & !1i32 == flags & !1i32) by (bit_vector)
                requires
                    f == flags | 1,
            ;
            CloexecPlan::Enable(f)
        }
    }
}

/// The lock category asked for: sleep.
pub open spec fn inhibit_what() -> Seq<char> {
    "sleep"@
}

/// The name the lock is held under.
pub open spec fn inhibit_who() -> Seq<char> {
    "systemd-user-sleep"@
}

/// The reason given for the lock.
pub open spec fn inhibit_why() -> Seq<char> {
    "Wait for user sleep target to be reached"@
}

/// The lock mode: delay, not block.
pub open spec fn inhibit_mode() -> Seq<char> {
    "delay"@
}

/// The arguments of the power manager's inhibit call.
#[derive(Clone, Debug)]
pub struct InhibitRequest {
    pub what: String,
    pub who: String,
    pub why: String,
    pub mode: String,
}

impl InhibitRequest {
    /// The request for a sleep-delay lock held while user units settle.
    pub fn sleep_delay() -> (r: InhibitRequest)
        ensures
            r.what@ == inhibit_what(),
            r.who@ == inhibit_who(),
            r.why@ == inhibit_why(),
            r.mode@ == inhibit_mode(),
    {
        InhibitRequest {
            what: String::from_str("sleep"),
            who: String::from_str("systemd-user-sleep"),
            why: String::from_str("Wait for user sleep target to be reached"),
            mode: String::from_str("delay"),
        }
    }
}

} // verus!
