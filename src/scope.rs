use vstd::prelude::*;

verus! {

/// The character of a decimal digit.
pub open spec fn digit_char(d: nat) -> char {
    if d == 0 {
        '0'
    } else if d == 1 {
        '1'
    } else if d == 2 {
        '2'
    } else if d == 3 {
        '3'
    } else if d == 4 {
        '4'
    } else if d == 5 {
        '5'
    } else if d == 6 {
        '6'
    } else if d == 7 {
        '7'
    } else if d == 8 {
        '8'
    } else {
        '9'
    }
}

/// The decimal rendering of `n`, without leading zeros.
pub open spec fn decimal(n: nat) -> Seq<char>
    decreases n,
{
    if n < 10 {
        seq![digit_char(n)]
    } else {
        decimal(n / 10).push(digit_char(n % 10))
    }
}

/// The prefix of every holding unit's name.
pub open spec fn scope_prefix() -> Seq<char> {
    seq!['s', 'y', 's', 't', 'e', 'm', 'd', '-', 'u', 's', 'e', 'r', '-', 's', 'l', 'e', 'e', 'p', '-']
}

/// The suffix of every holding unit's name.
pub open spec fn scope_suffix() -> Seq<char> {
    seq!['.', 's', 'c', 'o', 'p', 'e']
}

/// The name of the holding unit whose placeholder process has id `pid`.
pub open spec fn scope_name_of(pid: nat) -> Seq<char> {
    scope_prefix() + decimal(pid) + scope_suffix()
}

/// The collect mode of a holding unit: it is garbage-collected once
/// inactive or failed.
pub open spec fn collect_mode_text() -> Seq<char> {
    seq!['i', 'n', 'a', 'c', 't', 'i', 'v', 'e', '-', 'o', 'r', '-', 'f', 'a', 'i', 'l', 'e', 'd']
}

/// The job mode of the start request: a unit of the same name is replaced.
pub open spec fn job_mode_text() -> Seq<char> {
    seq!['r', 'e', 'p', 'l', 'a', 'c', 'e']
}

fn digit_str(d: u32) -> (r: &'static str)
    requires
        d < 10,
    ensures
        r@ == seq![digit_char(d as nat)],
{
    proof {
        reveal_strlit("0");
        reveal_strlit("1");
        reveal_strlit("2");
        reveal_strlit("3");
        reveal_strlit("4");
        reveal_strlit("5");
        reveal_strlit("6");
        reveal_strlit("7");
        reveal_strlit("8");
        reveal_strlit("9");
    }
    let r = if d == 0 {
        "0"
    } else if d == 1 {
        "1"
    } else if d == 2 {
        "2"
    } else if d == 3 {
        "3"
    } else if d == 4 {
        "4"
    } else if d == 5 {
        "5"
    } else if d == 6 {
        "6"
    } else if d == 7 {
        "7"
    } else if d == 8 {
        "8"
    } else {
        "9"
    };
    assert(r@ =~= seq![digit_char(d as nat)]);
    r
}

/// Appends the decimal rendering of `n` to `s`.
pub fn push_decimal(s: &mut String, n: u32)
    ensures
        final(s)@ == old(s)@ + decimal(n as nat),
    decreases n,
{
    if n >= 10 {
        push_decimal(s, n / 10);
    }
    s.append(digit_str(n % 10));
    proof {
        if n >= 10 {
            assert(decimal(n as nat) == decimal((n / 10) as nat).push(digit_char((n % 10) as nat)));
        }
        assert(final(s)@ =~= old(s)@ + decimal(n as nat));
    }
}

/// The name of the holding unit for the placeholder process `pid`:
/// `systemd-user-sleep-<pid>.scope`.
pub fn scope_name(pid: u32) -> (r: String)
    ensures
        r@ == scope_name_of(pid as nat),
{
    proof {
        reveal_strlit("systemd-user-sleep-");
        reveal_strlit(".scope");
    }
    let mut s = String::from_str("systemd-user-sleep-");
    assert(s@ =~= scope_prefix());
    push_decimal(&mut s, pid);
    s.append(".scope");
    assert(s@ =~= scope_name_of(pid as nat));
    s
}

/// What the start request of a holding unit carries: its name, the job mode,
/// and its properties (`Wants`, `After`, `CollectMode`, `PIDs`).
#[derive(Clone, Debug)]
pub struct ScopeRequest {
    pub name: String,
    pub mode: String,
    /// The activation targets the unit wants.
    pub wants: Vec<String>,
    /// The activation targets the unit is ordered after.
    pub after: Vec<String>,
    pub collect_mode: String,
    /// The processes the unit is made of: the placeholder alone.
    pub pids: Vec<u32>,
}

impl ScopeRequest {
    /// The request that creates the holding unit for the placeholder process
    /// `pid`, depending on and ordered after each activation target.
    pub fn for_process(activate: &Vec<String>, pid: u32) -> (r: ScopeRequest)
        ensures
            r.name@ == scope_name_of(pid as nat),
            r.mode@ == job_mode_text(),
            r.wants.deep_view() == activate.deep_view(),
            r.after.deep_view() == activate.deep_view(),
            r.collect_mode@ == collect_mode_text(),
            r.pids@ == seq![pid],
    {
        proof {
            reveal_strlit("replace");
            reveal_strlit("inactive-or-failed");
        }
        let mode = String::from_str("replace");
        let collect_mode = String::from_str("inactive-or-failed");
        assert(mode@ =~= job_mode_text());
        assert(collect_mode@ =~= collect_mode_text());
        let mut pids: Vec<u32> = Vec::new();
        pids.push(pid);
        assert(pids@ =~= seq![pid]);
        let wants = activate.clone();
        let after = activate.clone();
        ScopeRequest { name: scope_name(pid), mode, wants, after, collect_mode, pids }
    }
}

} // verus!
