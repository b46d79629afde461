use vstd::prelude::*;

verus! {

/// What the directory of the helper programs (yt-dlp, ffmpeg) held at startup.
#[derive(PartialEq, Eq, Structural, Clone, Copy, Debug)]
pub enum LibraryDir {
    /// It could be read and held nothing.
    Empty,
    /// It could be read and held at least one entry.
    HasEntries,
    /// It could not be read.
    Unreadable,
}

/// How the helper programs are brought up at startup.
#[derive(PartialEq, Eq, Structural, Clone, Copy, Debug)]
pub struct StartupPlan {
    /// Remove what the directory holds and install fresh copies.
    pub reinstall: bool,
    /// Keep the installed copies and ask them to update themselves.
    pub update: bool,
}

/// The command line asks for fresh helper programs.
pub open spec fn has_reset_flag(args: Seq<String>) -> bool {
    exists|i: int| 0 <= i < args.len() && #[trigger] args[i]@ == "--reset"@
}

/// A directory that is empty or unreadable holds no usable helper programs.
pub open spec fn is_fresh(dir: LibraryDir) -> bool {
    !(dir is HasEntries)
}

/// The helper programs are installed afresh when the command line holds
/// `--reset` or when none are installed; otherwise the installed ones are
/// updated. Exactly one of the two happens.
pub fn startup_plan(args: &Vec<String>, dir: LibraryDir) -> (plan: StartupPlan)
    ensures
        plan.reinstall == (has_reset_flag(args@) || is_fresh(dir)),
        plan.update == !plan.reinstall,
{
    let flag = String::from_str("--reset");
    let mut found = false;
    let mut i: usize = 0;
    while i < args.len()
        invariant
            i <= args@.len(),
            flag@ == "--reset"@,
            found == exists|j: int| 0 <= j < i && #[trigger] args@[j]@ == "--reset"@,
        decreases args@.len() - i,
    {
        if args[i] == flag {
            found = true;
        }
        i = i + 1;
    }
    let fresh = match dir {
        LibraryDir::HasEntries => false,
        _ => true,
    };
    let reinstall = found || fresh;
    StartupPlan { reinstall, update: !reinstall }
}

/// Seconds the poller waits after it found the player empty and told the worker.
pub const EMPTY_PAUSE_SECS: u64 = 10;

/// Seconds the poller waits after it found the player busy.
pub const BUSY_PAUSE_SECS: u64 = 5;

/// One round of the player poller.
#[derive(PartialEq, Eq, Structural, Clone, Copy, Debug)]
pub struct PollStep {
    /// Send `QueueCommand::Empty` to the worker.
    pub send_empty: bool,
    /// Then wait this many seconds before looking again.
    pub pause_secs: u64,
}

/// One round of the poller when the player was found empty (`sink_empty`) or not.
pub open spec fn poll_step_spec(sink_empty: bool) -> PollStep {
    PollStep {
        send_empty: sink_empty,
        pause_secs: if sink_empty { EMPTY_PAUSE_SECS } else { BUSY_PAUSE_SECS },
    }
}

/// When the player has run out of audio the worker is told `Empty` and the
/// poller waits longer; otherwise it only waits.
pub fn poll_step(sink_empty: bool) -> (step: PollStep)
    ensures
        step == poll_step_spec(sink_empty),
{
    if sink_empty {
        PollStep { send_empty: true, pause_secs: EMPTY_PAUSE_SECS }
    } else {
        PollStep { send_empty: false, pause_secs: BUSY_PAUSE_SECS }
    }
}

/// The second, counted from the first look, at which round `k` of the poller
/// looks at the player, when `observed[i]` says whether round `i` found it empty.
pub open spec fn poll_round_start(observed: Seq<bool>, k: nat) -> nat
    decreases k,
{
    if k == 0 {
        0
    } else {
        poll_round_start(observed, (k - 1) as nat) + (poll_step_spec(observed[k - 1]).pause_secs as nat)
    }
}

proof fn lemma_poll_rounds_advance(observed: Seq<bool>, j: nat, k: nat)
    requires
        j <= k,
    ensures
        poll_round_start(observed, j) <= poll_round_start(observed, k),
    decreases k - j,
{
    if j < k {
        lemma_poll_rounds_advance(observed, j, (k - 1) as nat);
    }
}

/// The poller only ever sends `Empty`, only in rounds that found the player
/// empty, and two of its sends lie at least `EMPTY_PAUSE_SECS` apart.
pub proof fn lemma_empty_sends_spaced(observed: Seq<bool>, j: nat, k: nat)
    requires
        j < k < observed.len(),
        poll_step_spec(observed[j as int]).send_empty,
        poll_step_spec(observed[k as int]).send_empty,
    ensures
        observed[j as int] && observed[k as int],
        poll_round_start(observed, k) >= poll_round_start(observed, j) + EMPTY_PAUSE_SECS,
{
    lemma_poll_rounds_advance(observed, j + 1, k);
}

} // verus!
