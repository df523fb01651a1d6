//! Reading flasher output: milestone lines of `ping360-bootloader`, and
//! the `( 21.25%)` percentages that `stm32flash` prints, split on CR and
//! LF as the bytes arrive.
//!
//! Percentages are in hundredths of a percent: 10000 is 100%.

use crate::flash::PERCENT_DONE;
use vstd::prelude::*;
use vstd::string::StringSliceAdditionalSpecFns;

verus! {

/// `n` occurs in `h`.
pub open spec fn has_sub(h: Seq<u8>, n: Seq<u8>) -> bool {
    exists|i: int| 0 <= i && i + n.len() <= h.len() && #[trigger] h.subrange(i, i + n.len()) == n
}

fn matches_at(h: &[u8], n: &[u8], i: usize) -> (r: bool)
    requires
        i + n@.len() <= h@.len(),
    ensures
        r == (h@.subrange(i as int, i + n@.len()) == n@),
{
    let mut j: usize = 0;
    while j < n.len()
        invariant
            j <= n@.len(),
            i + n@.len() <= h@.len(),
            h@.len() == h.len(),
            n@.len() == n.len(),
            forall|k: int| 0 <= k < j ==> h@[i + k] == n@[k],
        decreases n@.len() - j,
    {
        if h[i + j] != n[j] {
            assert(h@.subrange(i as int, i + n@.len())[j as int] != n@[j as int]);
            return false;
        }
        j = j + 1;
    }
    assert(h@.subrange(i as int, i + n@.len()) =~= n@);
    true
}

pub fn contains_bytes(h: &[u8], n: &[u8]) -> (r: bool)
    ensures
        r == has_sub(h@, n@),
{
    if n.len() > h.len() {
        return false;
    }
    let last = h.len() - n.len();
    let mut i: usize = 0;
    loop
        invariant
            n@.len() <= h@.len(),
            last == h@.len() - n@.len(),
            i <= last,
            forall|k: int| 0 <= k < i ==> #[trigger] h@.subrange(k, k + n@.len()) != n@,
        decreases last - i,
    {
        if matches_at(h, n, i) {
            return true;
        }
        if i == last {
            return false;
        }
        i = i + 1;
    }
}

pub const WRITING_APPLICATION: &'static str = "writing application...";

pub const VERIFYING_APPLICATION: &'static str = "verifying application...";

pub const CONFIGURATION_WRITTEN: &'static str = "writing configuration...ok";

pub const APPLICATION_STARTED: &'static str = "starting application...ok";

/// A step of `ping360-bootloader` recognised in its output, in the order
/// the tool goes through them.
#[derive(Clone, Copy, Debug, PartialEq, Eq, Structural)]
pub enum Milestone {
    WritingApplication,
    VerifyingApplication,
    ConfigurationWritten,
    ApplicationStarted,
}

impl Milestone {
    pub open spec fn rank(self) -> nat {
        match self {
            Milestone::WritingApplication => 0,
            Milestone::VerifyingApplication => 1,
            Milestone::ConfigurationWritten => 2,
            Milestone::ApplicationStarted => 3,
        }
    }

    pub open spec fn spec_percent(self) -> u32 {
        match self {
            Milestone::WritingApplication => 2500,
            Milestone::VerifyingApplication => 7500,
            Milestone::ConfigurationWritten => 9000,
            Milestone::ApplicationStarted => 10000,
        }
    }

    /// The progress announced when this step is seen.
    pub fn percent(&self) -> (r: u32)
        ensures
            r == self.spec_percent(),
    {
        match self {
            Milestone::WritingApplication => 2500,
            Milestone::VerifyingApplication => 7500,
            Milestone::ConfigurationWritten => 9000,
            Milestone::ApplicationStarted => PERCENT_DONE,
        }
    }
}

/// The milestone a line reports, from standard output and standard error
/// alike. The markers are checked in the tool's order; the first found
/// wins.
pub open spec fn detect(line: Seq<u8>) -> Option<Milestone> {
    if has_sub(line, WRITING_APPLICATION.spec_bytes()) {
        Some(Milestone::WritingApplication)
    } else if has_sub(line, VERIFYING_APPLICATION.spec_bytes()) {
        Some(Milestone::VerifyingApplication)
    } else if has_sub(line, CONFIGURATION_WRITTEN.spec_bytes()) {
        Some(Milestone::ConfigurationWritten)
    } else if has_sub(line, APPLICATION_STARTED.spec_bytes()) {
        Some(Milestone::ApplicationStarted)
    } else {
        None
    }
}

/// What one `ping360-bootloader` run has shown so far.
#[derive(Clone, Copy, Debug, PartialEq, Eq, Structural)]
pub struct Ping360Scan {
    pub saw_config_write: bool,
    pub saw_app_start: bool,
}

pub open spec fn scan_step(s: Ping360Scan, m: Option<Milestone>) -> Ping360Scan {
    Ping360Scan {
        saw_config_write: s.saw_config_write || m == Some(Milestone::ConfigurationWritten),
        saw_app_start: s.saw_app_start || m == Some(Milestone::ApplicationStarted),
    }
}

/// The scan after reading `lines`, from a fresh one.
pub open spec fn scanned(lines: Seq<Seq<u8>>) -> Ping360Scan
    decreases lines.len(),
{
    if lines.len() == 0 {
        Ping360Scan { saw_config_write: false, saw_app_start: false }
    } else {
        scan_step(scanned(lines.drop_last()), detect(lines.last()))
    }
}

pub open spec fn observed(lines: Seq<Seq<u8>>, m: Milestone) -> bool {
    exists|i: int| 0 <= i < lines.len() && detect(lines[i]) == Some(m)
}

pub open spec fn spec_attempt_succeeded(s: Ping360Scan, exit_success: bool) -> bool {
    exit_success || (s.saw_config_write && s.saw_app_start)
}

pub proof fn lemma_scanned_flags(lines: Seq<Seq<u8>>)
    ensures
        scanned(lines).saw_config_write == observed(lines, Milestone::ConfigurationWritten),
        scanned(lines).saw_app_start == observed(lines, Milestone::ApplicationStarted),
    decreases lines.len(),
{
    if lines.len() > 0 {
        let init = lines.drop_last();
        lemma_scanned_flags(init);
        let n = lines.len() - 1;
        assert forall|m: Milestone|
            #[trigger] observed(lines, m) == (observed(init, m) || detect(lines[n]) == Some(m)) by {
            if observed(init, m) {
                let i = choose|i: int| 0 <= i < init.len() && detect(init[i]) == Some(m);
                assert(lines[i] == init[i]);
            }
            if observed(lines, m) {
                let i = choose|i: int| 0 <= i < lines.len() && detect(lines[i]) == Some(m);
                if i < n {
                    assert(lines[i] == init[i]);
                }
            }
        }
    }
}

/// Flash success despite the exit code: a run whose output showed both
/// `writing configuration...ok` and `starting application...ok` counts as
/// a success, whatever its exit status.
pub proof fn lemma_success_despite_exit(lines: Seq<Seq<u8>>, exit_success: bool)
    requires
        observed(lines, Milestone::ConfigurationWritten),
        observed(lines, Milestone::ApplicationStarted),
    ensures
        spec_attempt_succeeded(scanned(lines), exit_success),
{
    lemma_scanned_flags(lines);
}

/// The milestones found in `lines`, in order.
pub open spec fn detected(lines: Seq<Seq<u8>>) -> Seq<Milestone>
    decreases lines.len(),
{
    if lines.len() == 0 {
        seq![]
    } else {
        match detect(lines.last()) {
            Some(m) => detected(lines.drop_last()).push(m),
            None => detected(lines.drop_last()),
        }
    }
}

/// Progress monotonicity within an attempt: the attempt opens at 0%, and
/// when the tool reports its steps in order the percentages announced for
/// them never decrease.
pub proof fn lemma_progress_monotone(lines: Seq<Seq<u8>>)
    requires
        forall|i: int, j: int|
            0 <= i <= j < detected(lines).len() ==> (#[trigger] detected(lines)[i]).rank() <= (
            #[trigger] detected(lines)[j]).rank(),
    ensures
        forall|i: int, j: int|
            0 <= i <= j < detected(lines).len() ==> 0 <= (#[trigger] detected(
                lines,
            )[i]).spec_percent() <= (#[trigger] detected(lines)[j]).spec_percent(),
{
}

impl Ping360Scan {
    pub fn new() -> (r: Ping360Scan)
        ensures
            r == scanned(Seq::empty()),
    {
        Ping360Scan { saw_config_write: false, saw_app_start: false }
    }

    /// Reads one line of standard output or standard error: the milestone
    /// it reports, if any, which is also remembered when it is one of the
    /// last two.
    pub fn scan_line(&mut self, line: &str) -> (r: Option<Milestone>)
        ensures
            r == detect(line.spec_bytes()),
            *final(self) == scan_step(*old(self), r),
    {
        let b = line.as_bytes();
        let m = if contains_bytes(b, WRITING_APPLICATION.as_bytes()) {
            Some(Milestone::WritingApplication)
        } else if contains_bytes(b, VERIFYING_APPLICATION.as_bytes()) {
            Some(Milestone::VerifyingApplication)
        } else if contains_bytes(b, CONFIGURATION_WRITTEN.as_bytes()) {
            Some(Milestone::ConfigurationWritten)
        } else if contains_bytes(b, APPLICATION_STARTED.as_bytes()) {
            Some(Milestone::ApplicationStarted)
        } else {
            None
        };
        match m {
            Some(Milestone::ConfigurationWritten) => self.saw_config_write = true,
            Some(Milestone::ApplicationStarted) => self.saw_app_start = true,
            _ => {},
        }
        m
    }

    /// Whether the attempt succeeded: the tool exited with success, or it
    /// showed both that the configuration was written and that the
    /// application started (it can exit with 1 after a good flash).
    pub fn attempt_succeeded(&self, exit_success: bool) -> (r: bool)
        ensures
            r == spec_attempt_succeeded(*self, exit_success),
    {
        exit_success || (self.saw_config_write && self.saw_app_start)
    }
}

pub open spec fn last_before(s: Seq<u8>, b: u8, n: nat) -> Option<int>
    decreases n,
{
    if n == 0 {
        None
    } else if s[n - 1] == b {
        Some(n - 1)
    } else {
        last_before(s, b, (n - 1) as nat)
    }
}

/// The first position at or after `i` holding `b`.
pub open spec fn first_from(s: Seq<u8>, b: u8, i: int) -> Option<int>
    decreases s.len() - i,
{
    if i < 0 || i >= s.len() {
        None
    } else if s[i] == b {
        Some(i)
    } else {
        first_from(s, b, i + 1)
    }
}

pub open spec fn is_numeric(b: u8) -> bool {
    (48 <= b && b <= 57) || b == 46
}

/// The digits and dots of `t`, in order.
pub open spec fn keep_numeric(t: Seq<u8>) -> Seq<u8>
    decreases t.len(),
{
    if t.len() == 0 {
        seq![]
    } else if is_numeric(t.last()) {
        keep_numeric(t.drop_last()).push(t.last())
    } else {
        keep_numeric(t.drop_last())
    }
}

pub open spec fn digit_of(b: u8) -> nat {
    if 48 <= b && b <= 57 {
        (b - 48) as nat
    } else {
        0
    }
}

pub open spec fn digits_value(d: Seq<u8>) -> nat
    decreases d.len(),
{
    if d.len() == 0 {
        0
    } else {
        digits_value(d.drop_last()) * 10 + digit_of(d.last())
    }
}

/// A run of digits and dots reads as a number when it is not empty, has
/// at most one dot, and is not a lone dot (`5`, `5.`, `.5`, `21.25`).
pub open spec fn valid_number(t: Seq<u8>) -> bool {
    &&& t.len() > 0
    &&& match first_from(t, 46, 0) {
        None => true,
        Some(d) => first_from(t, 46, d + 1) is None && t.len() > 1,
    }
}

/// The number in hundredths: whole part times 100 plus the first two
/// decimals; further decimals are dropped.
pub open spec fn hundredths(t: Seq<u8>) -> nat {
    let whole_end = match first_from(t, 46, 0) {
        Some(d) => d,
        None => t.len() as int,
    };
    let f = whole_end + 1;
    digits_value(t.subrange(0, whole_end)) * 100 + (if f < t.len() {
        digit_of(t[f])
    } else {
        0
    }) * 10 + (if f + 1 < t.len() {
        digit_of(t[f + 1])
    } else {
        0
    })
}

pub open spec fn min_nat(a: nat, b: nat) -> nat {
    if a <= b {
        a
    } else {
        b
    }
}

/// The percentage a `stm32flash` line reports: the text between its last
/// `(` and the next `%`, keeping digits and dots, read as a number and
/// limited to 100%.
pub open spec fn progress_of(line: Seq<u8>) -> Option<u32> {
    match last_before(line, 40, line.len()) {
        None => None,
        Some(p) => match first_from(line, 37, p) {
            None => None,
            Some(e) => {
                let t = keep_numeric(line.subrange(p + 1, e));
                if valid_number(t) {
                    Some(min_nat(hundredths(t), PERCENT_DONE as nat) as u32)
                } else {
                    None
                }
            },
        },
    }
}

fn last_index(s: &[u8], b: u8) -> (r: Option<usize>)
    ensures
        match r {
            Some(i) => last_before(s@, b, s@.len()) == Some(i as int) && i < s@.len() && s@[i as int]
                == b,
            None => last_before(s@, b, s@.len()) is None,
        },
{
    let mut n: usize = s.len();
    while n > 0
        invariant
            n <= s@.len(),
            last_before(s@, b, s@.len()) == last_before(s@, b, n as nat),
        decreases n,
    {
        if s[n - 1] == b {
            return Some(n - 1);
        }
        n = n - 1;
    }
    None
}

fn first_index_from(s: &[u8], b: u8, start: usize) -> (r: Option<usize>)
    ensures
        match r {
            Some(i) => first_from(s@, b, start as int) == Some(i as int) && start <= i < s@.len()
                && s@[i as int] == b,
            None => first_from(s@, b, start as int) is None,
        },
{
    let mut i: usize = start;
    while i < s.len()
        invariant
            start <= i,
            first_from(s@, b, start as int) == first_from(s@, b, i as int),
        decreases s@.len() - i,
    {
        if s[i] == b {
            return Some(i);
        }
        i = i + 1;
    }
    None
}

proof fn lemma_cap(v: nat, c: nat, f: nat)
    requires
        c == min_nat(v, 101),
        f <= 99,
    ensures
        min_nat(c * 100 + f, 10000) == min_nat(v * 100 + f, 10000),
{
}

fn parse_number(t: &[u8]) -> (r: Option<u32>)
    ensures
        valid_number(t@) ==> r == Some(min_nat(hundredths(t@), PERCENT_DONE as nat) as u32),
        !valid_number(t@) ==> r is None,
{
    if t.len() == 0 {
        return None;
    }
    let dot = first_index_from(t, 46, 0);
    let whole_end = match dot {
        Some(d) => {
            if t.len() == 1 {
                return None;
            }
            if first_index_from(t, 46, d + 1).is_some() {
                return None;
            }
            d
        },
        None => t.len(),
    };
    let mut whole: u32 = 0;
    let mut i: usize = 0;
    while i < whole_end
        invariant
            whole_end <= t@.len(),
            i <= whole_end,
            whole as nat == min_nat(digits_value(t@.subrange(0, i as int)), 101),
        decreases whole_end - i,
    {
        let b = t[i];
        let d: u32 = if 48 <= b && b <= 57 {
            (b - 48) as u32
        } else {
            0
        };
        proof {
            assert(t@.subrange(0, i + 1).drop_last() =~= t@.subrange(0, i as int));
        }
        let next = whole * 10 + d;
        whole = if next > 101 {
            101
        } else {
            next
        };
        i = i + 1;
    }
    let d1: u32 = if t.len() - whole_end > 1 && 48 <= t[whole_end + 1] && t[whole_end + 1] <= 57 {
        (t[whole_end + 1] - 48) as u32
    } else {
        0
    };
    let d2: u32 = if t.len() - whole_end > 2 && 48 <= t[whole_end + 2] && t[whole_end + 2] <= 57 {
        (t[whole_end + 2] - 48) as u32
    } else {
        0
    };
    let value = whole * 100 + d1 * 10 + d2;
    proof {
        lemma_cap(
            digits_value(t@.subrange(0, whole_end as int)),
            whole as nat,
            (d1 * 10 + d2) as nat,
        );
    }
    if value > PERCENT_DONE {
        Some(PERCENT_DONE)
    } else {
        Some(value)
    }
}

/// The percentage reported by one line of `stm32flash` output, if any.
pub fn parse_stm32flash_progress(line: &[u8]) -> (r: Option<u32>)
    ensures
        r == progress_of(line@),
{
    let p = match last_index(line, 40) {
        Some(p) => p,
        None => return None,
    };
    let e = match first_index_from(line, 37, p) {
        Some(e) => e,
        None => return None,
    };
    assert(p < e);
    let mut t: Vec<u8> = Vec::new();
    let mut i: usize = p + 1;
    while i < e
        invariant
            p < e <= line@.len(),
            p + 1 <= i <= e,
            t@ == keep_numeric(line@.subrange(p + 1, i as int)),
        decreases e - i,
    {
        proof {
            assert(line@.subrange(p + 1, i + 1).drop_last() =~= line@.subrange(p + 1, i as int));
        }
        let b = line[i];
        if (48 <= b && b <= 57) || b == 46 {
            t.push(b);
        }
        i = i + 1;
    }
    parse_number(t.as_slice())
}

pub open spec fn is_line_end(b: u8) -> bool {
    b == 10 || b == 13
}

pub open spec fn opt_seq(o: Option<u32>) -> Seq<u32> {
    match o {
        Some(x) => seq![x],
        None => seq![],
    }
}

/// Reading `chunk` after the unfinished line `cur`: the percentages of
/// the lines it completes (CR and LF both end a line), and the new
/// unfinished line.
pub open spec fn scan_chunk(cur: Seq<u8>, chunk: Seq<u8>) -> (Seq<u32>, Seq<u8>)
    decreases chunk.len(),
{
    if chunk.len() == 0 {
        (seq![], cur)
    } else {
        let (ev, c) = scan_chunk(cur, chunk.drop_last());
        if is_line_end(chunk.last()) {
            (ev + opt_seq(progress_of(c)), seq![])
        } else {
            (ev, c.push(chunk.last()))
        }
    }
}

/// What an unfinished line reports when read early: it must be non-empty
/// and well-formed UTF-8 so far.
pub open spec fn partial_progress(cur: Seq<u8>) -> Seq<u32> {
    if cur.len() > 0 && vstd::utf8::valid_utf8(cur) {
        opt_seq(progress_of(cur))
    } else {
        seq![]
    }
}

/// Relies on `std::str::from_utf8`: it succeeds exactly on well-formed
/// UTF-8.
#[verifier::external_body]
fn is_utf8(bytes: &[u8]) -> (r: bool)
    ensures
        r == vstd::utf8::valid_utf8(bytes@),
{
    std::str::from_utf8(bytes).is_ok()
}

/// Splits a flasher's output stream into lines as it arrives and reads
/// the percentage of each.
pub struct ProgressLines {
    pending: Vec<u8>,
}

impl View for ProgressLines {
    type V = Seq<u8>;

    closed spec fn view(&self) -> Seq<u8> {
        self.pending@
    }
}

impl ProgressLines {
    pub fn new() -> (r: ProgressLines)
        ensures
            r@ == Seq::<u8>::empty(),
    {
        ProgressLines { pending: Vec::new() }
    }

    /// Takes the next bytes of output: the percentages of the lines they
    /// complete, then that of the unfinished line read early, which
    /// catches progress redrawn in place.
    pub fn push_chunk(&mut self, chunk: &[u8]) -> (r: Vec<u32>)
        ensures
            final(self)@ == scan_chunk(old(self)@, chunk@).1,
            r@ == scan_chunk(old(self)@, chunk@).0 + partial_progress(final(self)@),
    {
        let mut events: Vec<u32> = Vec::new();
        let mut i: usize = 0;
        while i < chunk.len()
            invariant
                i <= chunk@.len(),
                (events@, self.pending@) == scan_chunk(old(self)@, chunk@.take(i as int)),
            decreases chunk@.len() - i,
        {
            proof {
                assert(chunk@.take(i + 1).drop_last() =~= chunk@.take(i as int));
            }
            let b = chunk[i];
            if b == 10 || b == 13 {
                let ghost before = events@;
                match parse_stm32flash_progress(self.pending.as_slice()) {
                    Some(pct) => events.push(pct),
                    None => {},
                }
                assert(events@ =~= before + opt_seq(progress_of(self.pending@)));
                self.pending = Vec::new();
            } else {
                self.pending.push(b);
            }
            i = i + 1;
        }
        proof {
            assert(chunk@.take(i as int) =~= chunk@);
        }
        if self.pending.len() > 0 && is_utf8(self.pending.as_slice()) {
            let ghost before = events@;
            match parse_stm32flash_progress(self.pending.as_slice()) {
                Some(pct) => events.push(pct),
                None => {},
            }
            assert(events@ =~= before + partial_progress(self.pending@));
        } else {
            assert(events@ =~= events@ + partial_progress(self.pending@));
        }
        events
    }
}

} // verus!
