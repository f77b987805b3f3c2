//! Fail-fast rendering of a listing of output ports.
//!
//! The subsystem that owns the ports is opened and enumerated by the
//! program around this library; the library receives the outcome of that
//! work as plain values (each port's resolved name, or the message of the
//! resolution failure) and produces the exact lines to print, together
//! with the outcome that decides the process exit status. The policy is
//! fail-fast: the first name that does not resolve ends the listing at
//! once, with no per-item recovery.

use vstd::prelude::*;
use vstd::string::*;
use crate::decimal::{spec_decimal, decimal_string};

verus! {

/// How a listing run ended: the two error kinds are the failure to reach
/// the subsystem at all, and the failure of one downstream name
/// resolution. Neither is retried.
pub enum ListerOutcome {
    /// Every port name resolved and the full listing was produced.
    Success,
    /// The subsystem could not be opened; nothing was listed.
    InitFailed { message: String },
    /// One port's name did not resolve; the listing stops at that port.
    ResolveFailed { message: String },
}

/// The result of a listing run: the stdout lines, in order, and the
/// outcome that decides the exit status.
pub struct ListerRun {
    pub lines: Vec<String>,
    pub outcome: ListerOutcome,
}

/// The first line of a listing: a newline, the port count in decimal, and
/// a fixed caption.
pub open spec fn spec_count_line(n: nat) -> Seq<char> {
    "\n"@ + spec_decimal(n) + " available output ports"@
}

/// One indexed line of a listing: an indent, the index in decimal, a
/// separator, and the port's name verbatim.
pub open spec fn spec_port_line(i: nat, name: Seq<char>) -> Seq<char> {
    "    "@ + spec_decimal(i) + ": "@ + name
}

/// The line printed before a failing exit.
pub open spec fn spec_error_line(message: Seq<char>) -> Seq<char> {
    "Error: "@ + message
}

/// What a correct listing of `ports` looks like: the count line first,
/// then one line per resolved port in enumeration order, indices
/// contiguous from zero; the listing covers every port exactly when the
/// run succeeded, and otherwise stops at the first port whose name did
/// not resolve, whose message the outcome carries.
pub open spec fn listing_matches(
    ports: Seq<Result<String, String>>,
    lines: Seq<String>,
    outcome: ListerOutcome,
) -> bool {
    let listed = lines.len() - 1;
    &&& lines.len() >= 1
    &&& lines.len() <= ports.len() + 1
    &&& lines[0]@ == spec_count_line(ports.len())
    &&& forall|i: int|
        0 <= i < listed ==> #[trigger] ports[i] is Ok && lines[i + 1]@ == spec_port_line(
            i as nat,
            ports[i]->Ok_0@,
        )
    &&& (outcome is Success <==> listed == ports.len())
    &&& (outcome matches ListerOutcome::ResolveFailed { message } <==> listed < ports.len())
    &&& (outcome matches ListerOutcome::ResolveFailed { message } ==> ports[listed] is Err
        && message@ == ports[listed]->Err_0@)
}

/// Renders the count line for `count` ports.
pub fn count_line(count: u64) -> (s: String)
    ensures
        s@ == spec_count_line(count as nat),
{
    let mut s = String::from_str("\n");
    let numeral = decimal_string(count);
    s.append(numeral.as_str());
    s.append(" available output ports");
    proof {
        assert(s@ =~= spec_count_line(count as nat));
    }
    s
}

/// Renders the indexed line for the port numbered `index` named `name`.
pub fn port_line(index: u64, name: &str) -> (s: String)
    ensures
        s@ == spec_port_line(index as nat, name@),
{
    let mut s = String::from_str("    ");
    let numeral = decimal_string(index);
    s.append(numeral.as_str());
    s.append(": ");
    s.append(name);
    proof {
        assert(s@ =~= spec_port_line(index as nat, name@));
    }
    s
}

/// Renders the line printed before a failing exit.
pub fn error_line(message: &str) -> (s: String)
    ensures
        s@ == spec_error_line(message@),
{
    let mut s = String::from_str("Error: ");
    s.append(message);
    s
}

/// Renders the listing of an enumerated port sequence, each port given as
/// its resolved name or as the message of its resolution failure. The
/// first failure ends the listing at that port.
pub fn render_listing(ports: &Vec<Result<String, String>>) -> (run: ListerRun)
    ensures
        listing_matches(ports@, run.lines@, run.outcome),
{
    let mut lines: Vec<String> = Vec::new();
    lines.push(count_line(ports.len() as u64));
    let mut i: usize = 0;
    while i < ports.len()
        invariant
            i <= ports@.len(),
            lines@.len() == i + 1,
            lines@[0]@ == spec_count_line(ports@.len()),
            forall|j: int|
                0 <= j < i ==> #[trigger] ports@[j] is Ok && lines@[j + 1]@ == spec_port_line(
                    j as nat,
                    ports@[j]->Ok_0@,
                ),
        decreases ports@.len() - i,
    {
        match &ports[i] {
            Ok(name) => {
                lines.push(port_line(i as u64, name.as_str()));
                i += 1;
            },
            Err(message) => {
                return ListerRun {
                    lines,
                    outcome: ListerOutcome::ResolveFailed { message: message.clone() },
                };
            },
        }
    }
    ListerRun { lines, outcome: ListerOutcome::Success }
}

/// Runs a whole listing from the outcome of opening and enumerating the
/// subsystem: a failed open produces no lines at all, only the failure;
/// a successful open lists the enumerated ports fail-fast.
pub fn run_lister(init: &Result<Vec<Result<String, String>>, String>) -> (run: ListerRun)
    ensures
        init matches Err(m) ==> run.lines@.len() == 0 && (run.outcome matches
            ListerOutcome::InitFailed { message } && message@ == m@),
        init matches Ok(ports) ==> listing_matches(ports@, run.lines@, run.outcome),
{
    match init {
        Ok(ports) => render_listing(ports),
        Err(m) => ListerRun {
            lines: Vec::new(),
            outcome: ListerOutcome::InitFailed { message: m.clone() },
        },
    }
}

/// The process exit status for an outcome: zero exactly on success, one
/// on either error kind.
pub fn exit_code(outcome: &ListerOutcome) -> (code: u8)
    ensures
        code == 0 <==> outcome is Success,
        code == 0 || code == 1,
{
    match outcome {
        ListerOutcome::Success => 0,
        ListerOutcome::InitFailed { .. } => 1,
        ListerOutcome::ResolveFailed { .. } => 1,
    }
}

/// An empty enumeration lists nothing but its count line: a correct
/// listing of zero ports is the single count line and a success outcome.
pub proof fn lemma_empty_listing(lines: Seq<String>, outcome: ListerOutcome)
    requires
        listing_matches(Seq::<Result<String, String>>::empty(), lines, outcome),
    ensures
        lines.len() == 1,
        lines[0]@ == spec_count_line(0),
        outcome is Success,
{
}

} // verus!
