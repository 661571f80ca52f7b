//! The refresh protocol: fetch, extract, validate, swap — as a state
//! machine over plain values. The machine decides; the unverified driver
//! around the library performs the fetching, the file writes and the final
//! rename, and reports each outcome back as an event. On success the
//! generation advances by exactly one; a failure at any step records its
//! reason and changes nothing else.

use vstd::prelude::*;
use vstd::string::*;

verus! {

/// Why a refresh attempt stopped: the download failed or timed out, the
/// archive could not be read, the archive held no database file, the
/// extracted file did not load as a database, or the final rename failed.
#[derive(Clone, Copy, PartialEq, Eq, Structural, Debug)]
pub enum RefreshError {
    Transport,
    Extract,
    MissingDatabase,
    InvalidDatabase,
    Swap,
}

/// Where a refresh attempt stands. `Idle` also covers "last attempt
/// failed": the reason is then recorded beside the phase.
#[derive(Clone, Copy, PartialEq, Eq, Structural, Debug)]
pub enum RefreshPhase {
    Idle,
    Fetching,
    Extracting,
    Validating,
    Swapping,
}

/// What the driver reports back: the start of an attempt, or the outcome of
/// the step the phase asked for.
#[derive(Clone, Copy, PartialEq, Eq, Structural, Debug)]
pub enum RefreshEvent {
    Begin,
    FetchDone(bool),
    ExtractDone(ExtractOutcome),
    ValidateDone(bool),
    RenameDone(bool),
}

/// The outcome of scanning the archive: a database file was found and
/// written to the temporary path, no entry matched, or reading the archive
/// failed.
#[derive(Clone, Copy, PartialEq, Eq, Structural, Debug)]
pub enum ExtractOutcome {
    Found,
    NoMatch,
    Failed,
}

/// The refresh coordinator's state: the phase of the attempt in flight, the
/// generation of the currently published snapshot, and the reason the last
/// attempt failed, if it did.
#[derive(Clone, Copy, PartialEq, Eq, Structural, Debug)]
pub struct RefreshMachine {
    pub phase: RefreshPhase,
    pub generation: u64,
    pub last_error: Option<RefreshError>,
}

/// The whole protocol as one transition function. An event that does not
/// belong to the current phase changes nothing; a failure event returns the
/// machine to `Idle` with the reason recorded and the generation untouched;
/// only a successful rename, from `Swapping`, advances the generation, by
/// exactly one.
pub open spec fn step(m: RefreshMachine, e: RefreshEvent) -> RefreshMachine {
    match (m.phase, e) {
        (RefreshPhase::Idle, RefreshEvent::Begin) => RefreshMachine {
            phase: RefreshPhase::Fetching,
            generation: m.generation,
            last_error: None,
        },
        (RefreshPhase::Fetching, RefreshEvent::FetchDone(ok)) => if ok {
            RefreshMachine { phase: RefreshPhase::Extracting, ..m }
        } else {
            RefreshMachine {
                phase: RefreshPhase::Idle,
                generation: m.generation,
                last_error: Some(RefreshError::Transport),
            }
        },
        (RefreshPhase::Extracting, RefreshEvent::ExtractDone(o)) => match o {
            ExtractOutcome::Found => RefreshMachine { phase: RefreshPhase::Validating, ..m },
            ExtractOutcome::NoMatch => RefreshMachine {
                phase: RefreshPhase::Idle,
                generation: m.generation,
                last_error: Some(RefreshError::MissingDatabase),
            },
            ExtractOutcome::Failed => RefreshMachine {
                phase: RefreshPhase::Idle,
                generation: m.generation,
                last_error: Some(RefreshError::Extract),
            },
        },
        (RefreshPhase::Validating, RefreshEvent::ValidateDone(ok)) => if ok {
            RefreshMachine { phase: RefreshPhase::Swapping, ..m }
        } else {
            RefreshMachine {
                phase: RefreshPhase::Idle,
                generation: m.generation,
                last_error: Some(RefreshError::InvalidDatabase),
            }
        },
        (RefreshPhase::Swapping, RefreshEvent::RenameDone(ok)) => if ok {
            RefreshMachine {
                phase: RefreshPhase::Idle,
                generation: if m.generation < u64::MAX {
                    (m.generation + 1) as u64
                } else {
                    m.generation
                },
                last_error: None,
            }
        } else {
            RefreshMachine {
                phase: RefreshPhase::Idle,
                generation: m.generation,
                last_error: Some(RefreshError::Swap),
            }
        },
        _ => m,
    }
}

/// The machine after a whole sequence of events.
pub open spec fn run(m: RefreshMachine, evs: Seq<RefreshEvent>) -> RefreshMachine
    decreases evs.len(),
{
    if evs.len() == 0 {
        m
    } else {
        step(run(m, evs.drop_last()), evs.last())
    }
}

/// Whether one event, arriving in state `m`, is a successful swap: the one
/// transition that publishes a new snapshot.
pub open spec fn is_success(m: RefreshMachine, e: RefreshEvent) -> bool {
    m.phase is Swapping && e == RefreshEvent::RenameDone(true) && m.generation < u64::MAX
}

/// How many events of a sequence are successful swaps when it runs from `m`.
pub open spec fn successes(m: RefreshMachine, evs: Seq<RefreshEvent>) -> nat
    decreases evs.len(),
{
    if evs.len() == 0 {
        0
    } else {
        successes(m, evs.drop_last()) + if is_success(run(m, evs.drop_last()), evs.last()) {
            1nat
        } else {
            0nat
        }
    }
}

/// Law: a single event that is not a successful swap never changes the
/// generation — every failure, at every step, leaves it exactly as it was.
pub proof fn lemma_failure_preserves_generation(m: RefreshMachine, e: RefreshEvent)
    requires
        !is_success(m, e),
    ensures
        step(m, e).generation == m.generation,
{
}

/// Law: over any sequence of events, the generation advances by exactly one
/// per successful swap and by nothing else; in particular a run without a
/// successful swap leaves it unchanged.
pub proof fn lemma_generation_counts_successes(m: RefreshMachine, evs: Seq<RefreshEvent>)
    ensures
        run(m, evs).generation == m.generation + successes(m, evs),
    decreases evs.len(),
{
    if evs.len() > 0 {
        lemma_generation_counts_successes(m, evs.drop_last());
    }
}

/// Law: a failed attempt changes nothing observable — any sequence of
/// events without a successful swap, however it interleaves starts and
/// failures, leaves the generation exactly as it was.
pub proof fn lemma_no_success_no_change(m: RefreshMachine, evs: Seq<RefreshEvent>)
    requires
        successes(m, evs) == 0,
    ensures
        run(m, evs).generation == m.generation,
{
    lemma_generation_counts_successes(m, evs);
}

/// Law: one attempt cannot start while another is in flight — `Begin` in any
/// phase but `Idle` changes nothing.
pub proof fn lemma_single_flight(m: RefreshMachine, e: RefreshEvent)
    requires
        !(m.phase is Idle),
        e == RefreshEvent::Begin,
    ensures
        step(m, e) == m,
{
}

impl RefreshMachine {
    /// The machine at startup: idle, at the generation of the initially
    /// loaded snapshot, with nothing failed yet.
    pub fn new(generation: u64) -> (r: RefreshMachine)
        ensures
            r == (RefreshMachine {
                phase: RefreshPhase::Idle,
                generation: generation,
                last_error: None,
            }),
    {
        RefreshMachine { phase: RefreshPhase::Idle, generation, last_error: None }
    }

    /// Try to start an attempt. Started exactly when the machine was idle;
    /// a second trigger while one is in flight is rejected and changes
    /// nothing.
    pub fn begin(&mut self) -> (started: bool)
        ensures
            *final(self) == step(*old(self), RefreshEvent::Begin),
            started == (old(self).phase is Idle),
            !started ==> *final(self) == *old(self),
    {
        match self.phase {
            RefreshPhase::Idle => {
                self.phase = RefreshPhase::Fetching;
                self.last_error = None;
                true
            },
            _ => false,
        }
    }

    /// The driver fetched the archive, or failed to.
    pub fn fetched(&mut self, ok: bool)
        requires
            old(self).phase is Fetching,
        ensures
            *final(self) == step(*old(self), RefreshEvent::FetchDone(ok)),
    {
        if ok {
            self.phase = RefreshPhase::Extracting;
        } else {
            self.phase = RefreshPhase::Idle;
            self.last_error = Some(RefreshError::Transport);
        }
    }

    /// The driver scanned the archive for a database file and, if one was
    /// there, wrote it to the temporary path.
    pub fn extracted(&mut self, outcome: ExtractOutcome)
        requires
            old(self).phase is Extracting,
        ensures
            *final(self) == step(*old(self), RefreshEvent::ExtractDone(outcome)),
    {
        match outcome {
            ExtractOutcome::Found => {
                self.phase = RefreshPhase::Validating;
            },
            ExtractOutcome::NoMatch => {
                self.phase = RefreshPhase::Idle;
                self.last_error = Some(RefreshError::MissingDatabase);
            },
            ExtractOutcome::Failed => {
                self.phase = RefreshPhase::Idle;
                self.last_error = Some(RefreshError::Extract);
            },
        }
    }

    /// The driver tried to open the temporary file as a database.
    pub fn validated(&mut self, ok: bool)
        requires
            old(self).phase is Validating,
        ensures
            *final(self) == step(*old(self), RefreshEvent::ValidateDone(ok)),
    {
        if ok {
            self.phase = RefreshPhase::Swapping;
        } else {
            self.phase = RefreshPhase::Idle;
            self.last_error = Some(RefreshError::InvalidDatabase);
        }
    }

    /// The driver renamed the validated temporary file onto the live path,
    /// or failed to. Success is the single point where the generation
    /// advances.
    pub fn renamed(&mut self, ok: bool)
        requires
            old(self).phase is Swapping,
        ensures
            *final(self) == step(*old(self), RefreshEvent::RenameDone(ok)),
            ok && old(self).generation < u64::MAX ==> final(self).generation == old(
                self,
            ).generation + 1,
            !ok ==> final(self).generation == old(self).generation,
    {
        if ok {
            self.phase = RefreshPhase::Idle;
            self.last_error = None;
            if self.generation < u64::MAX {
                self.generation = self.generation + 1;
            }
        } else {
            self.phase = RefreshPhase::Idle;
            self.last_error = Some(RefreshError::Swap);
        }
    }
}

/// The decimal digits of `n`, most significant first.
pub open spec fn spec_dec(n: int) -> Seq<char>
    decreases n,
{
    if n < 10 {
        seq![digit_char(n)]
    } else {
        spec_dec(n / 10).push(digit_char(n % 10))
    }
}

pub open spec fn digit_char(d: int) -> char {
    if d == 0 {
        '0'
    } else if d == 1 {
        '1'
    } else if d == 2 {
        '2'
    } else if d == 3 {
        '3'
    } else if d == 4 {
        '4'
    } else if d == 5 {
        '5'
    } else if d == 6 {
        '6'
    } else if d == 7 {
        '7'
    } else if d == 8 {
        '8'
    } else {
        '9'
    }
}

fn digit_str(d: u64) -> (r: &'static str)
    requires
        d <= 9,
    ensures
        r@ == seq![digit_char(d as int)],
{
    let r: &'static str = match d {
        0 => "0",
        1 => "1",
        2 => "2",
        3 => "3",
        4 => "4",
        5 => "5",
        6 => "6",
        7 => "7",
        8 => "8",
        _ => "9",
    };
    proof {
        reveal_strlit("0");
        reveal_strlit("1");
        reveal_strlit("2");
        reveal_strlit("3");
        reveal_strlit("4");
        reveal_strlit("5");
        reveal_strlit("6");
        reveal_strlit("7");
        reveal_strlit("8");
        reveal_strlit("9");
        assert(r@ =~= seq![digit_char(d as int)]);
    }
    r
}

fn push_dec(n: u64, out: &mut String)
    ensures
        final(out)@ == old(out)@ + spec_dec(n as int),
    decreases n,
{
    if n < 10 {
        out.append(digit_str(n));
    } else {
        push_dec(n / 10, out);
        out.append(digit_str(n % 10));
        proof {
            assert(old(out)@ + spec_dec((n / 10) as int) + seq![digit_char((n % 10) as int)]
                =~= old(out)@ + spec_dec(n as int));
        }
    }
}

/// The path the extracted database is written to before the swap: the live
/// path, a dot, the driver's process id, and `.tmp`. It is strictly longer
/// than the live path, so writing to it can never touch the live file.
pub fn temp_path(dest: &str, pid: u64) -> (r: String)
    ensures
        r@ == dest@ + seq!['.'] + spec_dec(pid as int) + seq!['.', 't', 'm', 'p'],
        r@.len() > dest@.len(),
{
    let mut out = String::from_str(dest);
    out.append(".");
    push_dec(pid, &mut out);
    out.append(".tmp");
    proof {
        reveal_strlit(".");
        reveal_strlit(".tmp");
        assert(("."@) =~= seq!['.']);
        assert((".tmp")@ =~= seq!['.', 't', 'm', 'p']);
        lemma_spec_dec_len(pid as int);
        assert(out@ =~= dest@ + seq!['.'] + spec_dec(pid as int) + seq!['.', 't', 'm', 'p']);
    }
    out
}

/// A number's decimal form is never empty.
proof fn lemma_spec_dec_len(n: int)
    ensures
        spec_dec(n).len() >= 1,
    decreases n,
{
    if n >= 10 {
        lemma_spec_dec_len(n / 10);
    }
}

} // verus!
