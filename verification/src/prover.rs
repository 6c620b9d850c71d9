//! The controller of a proving session.
//!
//! A run advances the guest by one segment. The controller never executes
//! or proves anything itself: [`Prover::begin_run`] says from where and
//! under which limits the next segment runs, the caller executes it and
//! answers the guest's host calls through [`Prover::on_txrx`],
//! [`Prover::record_segment`] takes the outcome, and [`Prover::finish_run`]
//! assembles the receipt.

use crate::opts::{
    reader_after, route_of, with_late_handlers, ProverOpts, ReadStep, Reader, Route,
    SyscallHandler, Writer, JOURNAL, STDIN,
};
use crate::receipt::{verdict, Digest, Receipt, SealReport, VerificationError};
use crate::syscall::{
    answer_view, default_syscall, default_syscall_spec, getenv, getenv_spec, random_answer,
    sys_random, unknown_syscall, words_as_bytes, words_be, words_le, Outcome, OutcomeModel,
    SyscallError,
    SyscallErrorModel,
};
use crate::trace::TraceEvent;
use vstd::arithmetic::power2::{
    lemma2_to64, lemma_pow2_pos, lemma_pow2_strictly_increases, lemma_pow2_unfold, pow2,
};
use vstd::prelude::*;

verus! {

/// How a segment ended.
#[derive(Clone, Copy, Debug, PartialEq, Eq, Structural)]
pub enum ExitCondition {
    /// The guest halted: the session is over.
    Halted,
    /// The guest asked to be suspended.
    Paused,
    /// The cycle budget ran out: the next segment continues.
    SplitForContinuation,
}

impl ExitCondition {
    /// The condition that an exit code stands for.
    pub open spec fn of_code(code: u32) -> Option<ExitCondition> {
        if code == 0 {
            Some(ExitCondition::Halted)
        } else if code == 1 {
            Some(ExitCondition::Paused)
        } else if code == 2 {
            Some(ExitCondition::SplitForContinuation)
        } else {
            None
        }
    }

    /// Reads an exit code: 0 halted, 1 paused, 2 split. Any other code
    /// stands for nothing.
    pub fn from_code(code: u32) -> (r: Option<ExitCondition>)
        ensures
            r == Self::of_code(code),
    {
        if code == 0 {
            Some(ExitCondition::Halted)
        } else if code == 1 {
            Some(ExitCondition::Paused)
        } else if code == 2 {
            Some(ExitCondition::SplitForContinuation)
        } else {
            None
        }
    }

    /// The exit code of this condition.
    pub fn code(&self) -> (r: u32)
        ensures
            Self::of_code(r) == Some(*self),
    {
        match self {
            ExitCondition::Halted => 0,
            ExitCondition::Paused => 1,
            ExitCondition::SplitForContinuation => 2,
        }
    }
}

/// What the executor reports of the segment it ran.
#[derive(Clone, Copy, Debug)]
pub struct SegmentResult {
    /// Cycles that the segment took.
    pub cycles: usize,
    /// Exit code of the segment.
    pub exit_code: u32,
    /// Program counter at which the guest stands now.
    pub pc: u32,
    /// Root of the memory image as the segment left it.
    pub post_root: Digest,
}

/// One bounded unit of guest execution, chained to its neighbours by the
/// roots of the memory image before and after it.
#[derive(Clone, Copy, Debug)]
pub struct Segment {
    /// Program counter at which the segment began.
    pub start_pc: u32,
    /// Program counter at which it ended.
    pub end_pc: u32,
    /// Cycles that it took.
    pub cycles: usize,
    /// How it ended.
    pub exit: ExitCondition,
    /// Root of the memory image before it.
    pub pre_root: Digest,
    /// Root of the memory image after it.
    pub post_root: Digest,
}

/// Why a run was aborted.
#[derive(Clone, Copy, Debug, PartialEq, Eq)]
pub enum ProverError {
    /// The executor reported more cycles than a segment may take.
    CycleLimitExceeded { cycles: usize, segment_limit_po2: usize },
    /// The executor reported an exit code that stands for nothing.
    UnknownExitCode(u32),
    /// The receipt did not pass the check that follows proving.
    Verification(VerificationError),
}

/// Where and under which limits the next segment runs.
#[derive(Clone, Copy, Debug)]
pub struct RunPlan {
    /// Leave the seal empty.
    pub skip_seal: bool,
    /// The cycle limit of the segment, as a power of two.
    pub segment_limit_po2: usize,
    /// Take the segment from the precomputed sequence.
    pub preflight: bool,
    /// Program counter to start from.
    pub pc: u32,
    /// Root of the memory image to start from: the image that the receipt of
    /// this run is bound to.
    pub image_id: Digest,
}

/// Whether a segment of `cycles` cycles respects the limit `po2`.
pub open spec fn within_limit(cycles: usize, po2: usize) -> bool {
    cycles <= pow2(po2 as nat)
}

/// Whether each segment ends on the root that the next one begins with.
pub open spec fn chain_continuous(segments: Seq<Segment>) -> bool {
    forall|i: int, j: int|
        0 <= i && j == i + 1 && j < segments.len() ==> (#[trigger] segments[i]).post_root == (
        #[trigger] segments[j]).pre_root
}

/// Decides whether `cycles` respects the limit `po2`.
pub fn check_within_limit(cycles: usize, po2: usize) -> (r: bool)
    ensures
        r == within_limit(cycles, po2),
{
    let mut limit: usize = 1;
    let mut k: usize = 0;
    proof {
        lemma2_to64();
    }
    while k < po2
        invariant
            k <= po2,
            limit == pow2(k as nat),
        decreases po2 - k,
    {
        proof {
            if k < po2 {
                lemma_pow2_strictly_increases(k as nat, po2 as nat);
            }
        }
        if cycles <= limit {
            return true;
        }
        if limit > usize::MAX / 2 {
            proof {
                lemma_pow2_unfold((k + 1) as nat);
                if k + 1 < po2 {
                    lemma_pow2_strictly_increases((k + 1) as nat, po2 as nat);
                }
            }
            return true;
        }
        proof {
            lemma_pow2_unfold((k + 1) as nat);
        }
        limit = limit * 2;
        k += 1;
    }
    cycles <= limit
}

fn append_bytes(dst: &mut Vec<u8>, src: &[u8])
    ensures
        final(dst)@ == old(dst)@ + src@,
{
    let n: usize = src.len();
    let mut i: usize = 0;
    while i < n
        invariant
            n == src@.len(),
            i <= n,
            dst@ == old(dst)@ + src@.subrange(0, i as int),
        decreases n - i,
    {
        dst.push(src[i]);
        i += 1;
        assert(dst@ =~= old(dst)@ + src@.subrange(0, i as int));
    }
    assert(src@.subrange(0, n as int) =~= src@);
}

/// Manages the configuration, the input and the progress of one guest
/// program, segment by segment.
pub struct Prover {
    /// The options of the session.
    pub opts: ProverOpts,
    /// Input added before the first run and not yet handed to the guest.
    pub input: Vec<u8>,
    /// What the guest wrote to the journal since the last receipt.
    pub journal: Vec<u8>,
    /// Whether the first run has begun.
    pub opts_finalized: bool,
    /// Root of the memory image as it stands.
    pub image_root: Digest,
    /// Program counter at which the guest stands.
    pub pc: u32,
    /// The segments recorded so far, in order.
    pub segments: Vec<Segment>,
    /// Whether a run has begun whose receipt is still to be assembled.
    pub running: bool,
    /// How many cycles the latest segment took.
    pub cycles: usize,
    /// The exit code reported by the latest segment execution. The possible
    /// values are:
    /// - 0: Halted normally
    /// - 1: User-initiated pause
    /// - 2: System-initiated split
    pub exit_code: u32,
}

/// Where a prover stands in the life of its session.
#[derive(Clone, Copy, Debug, PartialEq, Eq, Structural)]
pub enum ProverState {
    /// No run has begun: options and input may still change.
    Uninitialized,
    /// The options are finalized and no segment has been recorded.
    OptsFinalized,
    /// A run has begun and its receipt is still to be assembled.
    Executing,
    /// The latest segment ended short of a halt: the guest can go on.
    SegmentEmitted,
    /// The latest segment ended in a halt.
    Halted,
}

/// Whether a run may begin: input may be added only before the first run.
pub open spec fn late_input_ok(opts_finalized: bool, input: Seq<u8>) -> bool {
    !opts_finalized || input.len() == 0
}

impl Prover {
    /// What holds of a prover at all times: its options are finalized
    /// exactly when its first run has begun, every recorded segment respects
    /// the cycle limit, each ends on the root that the next begins with, and
    /// the last ends where the prover stands.
    pub open spec fn wf(&self) -> bool {
        &&& self.opts_finalized == self.opts.finalized
        &&& forall|i: int|
            0 <= i < self.segments@.len() ==> within_limit(
                (#[trigger] self.segments@[i]).cycles,
                self.opts.segment_limit_po2,
            )
        &&& chain_continuous(self.segments@)
        &&& self.segments@.len() > 0 ==> self.segments@.last().post_root == self.image_root
            && self.segments@.last().end_pc == self.pc
    }

    /// Where the prover stands.
    pub open spec fn state_of(&self) -> ProverState {
        if !self.opts_finalized {
            ProverState::Uninitialized
        } else if self.running {
            ProverState::Executing
        } else if self.segments@.len() == 0 {
            ProverState::OptsFinalized
        } else if self.segments@.last().exit == ExitCondition::Halted {
            ProverState::Halted
        } else {
            ProverState::SegmentEmitted
        }
    }

    /// Where the prover stands.
    pub fn state(&self) -> (r: ProverState)
        ensures
            r == self.state_of(),
    {
        if !self.opts_finalized {
            ProverState::Uninitialized
        } else if self.running {
            ProverState::Executing
        } else if self.segments.len() == 0 {
            ProverState::OptsFinalized
        } else if self.segments[self.segments.len() - 1].exit == ExitCondition::Halted {
            ProverState::Halted
        } else {
            ProverState::SegmentEmitted
        }
    }

    /// The readers that the guest will see if the first run begins now: the
    /// registered ones, with the input that was added as standard input.
    pub open spec fn staged_reads(&self) -> Map<u32, Reader> {
        if self.input@.len() > 0 {
            self.opts.io.read_fds@.insert(STDIN, Reader::Bytes(self.input))
        } else {
            self.opts.io.read_fds@
        }
    }

    /// Construct a new prover for the image with the given root and entry
    /// point, using the default options.
    pub fn new(image_root: Digest, entry: u32) -> (r: Self)
        ensures
            r.wf(),
            r.image_root == image_root,
            r.pc == entry,
            r.cycles == 0 && r.exit_code == 0 && !r.opts_finalized && !r.running,
            r.input@.len() == 0 && r.journal@.len() == 0 && r.segments@.len() == 0,
            r.opts.is_default_but_writers(),
            r.opts.io.write_fds@ == ProverOpts::default_writers().insert(JOURNAL, Writer::Journal),
    {
        Prover::new_with_opts(image_root, entry, ProverOpts::defaults())
    }

    /// Construct a new prover for the image with the given root and entry
    /// point, using custom [ProverOpts], which the prover finalizes itself
    /// when its first run begins. The journal's file descriptor is bound to
    /// the journal, whatever the options said of it.
    pub fn new_with_opts(image_root: Digest, entry: u32, opts: ProverOpts) -> (r: Self)
        requires
            !opts.finalized,
        ensures
            r.wf(),
            r.image_root == image_root,
            r.pc == entry,
            r.cycles == 0 && r.exit_code == 0 && !r.opts_finalized && !r.running,
            r.input@.len() == 0 && r.journal@.len() == 0 && r.segments@.len() == 0,
            r.opts.io.write_fds@ == opts.io.write_fds@.insert(JOURNAL, Writer::Journal),
            r.opts.io.read_fds@ == opts.io.read_fds@,
            r.opts == (ProverOpts { io: r.opts.io, ..opts }),
    {
        Prover::from_image(image_root, entry, opts)
    }

    /// Construct a prover from a memory image, given by its root. The
    /// options must not be finalized yet: the prover does that itself when
    /// its first run begins.
    pub fn from_image(image_root: Digest, pc: u32, opts: ProverOpts) -> (r: Self)
        requires
            !opts.finalized,
        ensures
            r.wf(),
            r.image_root == image_root,
            r.pc == pc,
            r.cycles == 0 && r.exit_code == 0 && !r.opts_finalized && !r.running,
            r.input@.len() == 0 && r.journal@.len() == 0 && r.segments@.len() == 0,
            r.opts.io.write_fds@ == opts.io.write_fds@.insert(JOURNAL, Writer::Journal),
            r.opts.io.read_fds@ == opts.io.read_fds@,
            r.opts == (ProverOpts { io: r.opts.io, ..opts }),
    {
        Prover {
            opts: opts.with_write_fd(JOURNAL, Writer::Journal),
            input: Vec::new(),
            journal: Vec::new(),
            opts_finalized: false,
            image_root,
            pc,
            segments: Vec::new(),
            running: false,
            cycles: 0,
            exit_code: 0,
        }
    }

    /// Whether input may still be added: only until the first run begins.
    pub fn can_add_input(&self) -> (r: bool)
        ensures
            r == !self.opts_finalized,
    {
        !self.opts_finalized
    }

    /// Provide input data to the guest, after what was added before. Input
    /// may be added only until the first run begins.
    pub fn add_input_u8_slice(&mut self, slice: &[u8])
        requires
            !old(self).opts_finalized,
        ensures
            final(self).input@ == old(self).input@ + slice@,
            *final(self) == (Prover { input: final(self).input, ..*old(self) }),
            late_input_ok(final(self).opts_finalized, final(self).input@),
    {
        append_bytes(&mut self.input, slice);
    }

    /// Provide input data to the guest as words: four bytes for each word,
    /// in the host's byte order, after what was added before. Input may be
    /// added only until the first run begins.
    pub fn add_input_u32_slice(&mut self, slice: &[u32])
        requires
            !old(self).opts_finalized,
        ensures
            final(self).input@ == old(self).input@ + words_le(slice@) || final(self).input@ == old(self).input@
                + words_be(slice@),
            final(self).input@.len() == old(self).input@.len() + 4 * slice@.len(),
            *final(self) == (Prover { input: final(self).input, ..*old(self) }),
            late_input_ok(final(self).opts_finalized, final(self).input@),
    {
        let bytes = words_as_bytes(slice);
        append_bytes(&mut self.input, bytes.as_slice());
    }

    /// Whether a run may begin now. It may not once input was added after
    /// the first run began.
    pub fn can_run(&self) -> (r: bool)
        ensures
            r == late_input_ok(self.opts_finalized, self.input@),
    {
        !self.opts_finalized || self.input.len() == 0
    }

    /// Begins a run. The first run hands the input that was added to the
    /// guest as its standard input and finalizes the options; later runs
    /// change nothing. The plan says where the segment starts and under
    /// which limits; `insecure_skip_seal` is the host's own switch to leave
    /// seals out, which counts like the option.
    pub fn begin_run(&mut self, insecure_skip_seal: bool) -> (plan: RunPlan)
        requires
            late_input_ok(old(self).opts_finalized, old(self).input@),
        ensures
            final(self).opts_finalized,
            final(self).input@.len() == 0,
            late_input_ok(final(self).opts_finalized, final(self).input@),
            *final(self) == (Prover {
                opts: final(self).opts,
                input: final(self).input,
                opts_finalized: true,
                running: true,
                ..*old(self)
            }),
            final(self).state_of() == ProverState::Executing,
            old(self).opts_finalized ==> final(self).opts == old(self).opts,
            !old(self).opts_finalized ==> final(self).opts == (ProverOpts {
                finalized: true,
                syscall_handlers: final(self).opts.syscall_handlers,
                io: final(self).opts.io,
                env_vars: final(self).opts.env_vars,
                bound_io: final(self).opts.bound_io,
                bound_env: final(self).opts.bound_env,
                ..old(self).opts
            }),
            !old(self).opts_finalized && !old(self).opts.finalized ==> {
                &&& final(self).opts.syscall_handlers@ == with_late_handlers(
                    old(self).opts.syscall_handlers@,
                )
                &&& final(self).opts.bound_io.read_fds@ == old(self).staged_reads()
                &&& final(self).opts.bound_io.write_fds@ == old(self).opts.io.write_fds@
                &&& final(self).opts.bound_env == old(self).opts.env_vars
                &&& final(self).opts.io.read_fds@ == Map::<u32, Reader>::empty()
                &&& final(self).opts.io.write_fds@ == Map::<u32, Writer>::empty()
                &&& final(self).opts.env_vars@ == Map::<Seq<char>, String>::empty()
            },
            !old(self).opts_finalized && old(self).opts.finalized ==> {
                &&& final(self).opts == (ProverOpts { io: final(self).opts.io, ..old(self).opts })
                &&& final(self).opts.io.read_fds@ == old(self).staged_reads()
                &&& final(self).opts.io.write_fds@ == old(self).opts.io.write_fds@
            },
            old(self).wf() ==> final(self).wf(),
            plan == (RunPlan {
                skip_seal: old(self).opts.skip_seal || insecure_skip_seal,
                segment_limit_po2: old(self).opts.segment_limit_po2,
                preflight: old(self).opts.preflight,
                pc: old(self).pc,
                image_id: old(self).image_root,
            }),
    {
        if !self.opts_finalized {
            let mut opts = ProverOpts::without_defaults();
            core::mem::swap(&mut self.opts, &mut opts);
            if self.input.len() > 0 {
                let mut input: Vec<u8> = Vec::new();
                core::mem::swap(&mut self.input, &mut input);
                opts = opts.with_stdin(Reader::Bytes(input));
            }
            self.opts = opts.finalize();
            self.opts_finalized = true;
        }
        self.running = true;
        RunPlan {
            skip_seal: self.opts.skip_seal || insecure_skip_seal,
            segment_limit_po2: self.opts.segment_limit_po2,
            preflight: self.opts.preflight,
            pc: self.pc,
            image_id: self.image_root,
        }
    }

    /// The segment that `result` makes when it follows a prover standing at
    /// `pc` on the image root `root`, if its exit code stands for anything.
    pub open spec fn segment_of(pc: u32, root: Digest, result: SegmentResult) -> Segment {
        Segment {
            start_pc: pc,
            end_pc: result.pc,
            cycles: result.cycles,
            exit: ExitCondition::of_code(result.exit_code).unwrap(),
            pre_root: root,
            post_root: result.post_root,
        }
    }

    /// Takes what the executor reports of the segment it ran. A report that
    /// breaks the cycle limit or carries an unknown exit code aborts the run
    /// and changes nothing. Otherwise the segment joins the chain and the
    /// prover stands where the segment ended.
    pub fn record_segment(&mut self, result: SegmentResult) -> (r: Result<Segment, ProverError>)
        requires
            old(self).wf(),
        ensures
            final(self).wf(),
            !within_limit(result.cycles, old(self).opts.segment_limit_po2) ==> r == Err::<
                Segment,
                ProverError,
            >(
                ProverError::CycleLimitExceeded {
                    cycles: result.cycles,
                    segment_limit_po2: old(self).opts.segment_limit_po2,
                },
            ),
            within_limit(result.cycles, old(self).opts.segment_limit_po2) && ExitCondition::of_code(
                result.exit_code,
            ) is None ==> r == Err::<Segment, ProverError>(
                ProverError::UnknownExitCode(result.exit_code),
            ),
            within_limit(result.cycles, old(self).opts.segment_limit_po2) && ExitCondition::of_code(
                result.exit_code,
            ) is Some ==> r == Ok::<Segment, ProverError>(
                Self::segment_of(old(self).pc, old(self).image_root, result),
            ),
            r is Err ==> *final(self) == *old(self),
            r matches Ok(seg) ==> {
                &&& final(self).segments@ == old(self).segments@.push(seg)
                &&& *final(self) == (Prover {
                    segments: final(self).segments,
                    pc: result.pc,
                    cycles: result.cycles,
                    exit_code: result.exit_code,
                    image_root: result.post_root,
                    ..*old(self)
                })
                &&& within_limit(seg.cycles, final(self).opts.segment_limit_po2)
            },
    {
        if !check_within_limit(result.cycles, self.opts.segment_limit_po2) {
            return Err(
                ProverError::CycleLimitExceeded {
                    cycles: result.cycles,
                    segment_limit_po2: self.opts.segment_limit_po2,
                },
            );
        }
        let exit = match ExitCondition::from_code(result.exit_code) {
            Some(exit) => exit,
            None => {
                return Err(ProverError::UnknownExitCode(result.exit_code));
            },
        };
        let seg = Segment {
            start_pc: self.pc,
            end_pc: result.pc,
            cycles: result.cycles,
            exit,
            pre_root: self.image_root,
            post_root: result.post_root,
        };
        self.segments.push(seg);
        self.pc = result.pc;
        self.cycles = result.cycles;
        self.exit_code = result.exit_code;
        self.image_root = result.post_root;
        proof {
            let before = old(self).segments@;
            let after = self.segments@;
            assert forall|i: int, j: int| 0 <= i && j == i + 1 && j < after.len() implies (
            #[trigger] after[i]).post_root == (#[trigger] after[j]).pre_root by {
                if j < before.len() {
                    assert(before[i].post_root == before[j].pre_root);
                } else {
                    assert(before.last().post_root == old(self).image_root);
                }
            }
            assert forall|i: int| 0 <= i < after.len() implies within_limit(
                (#[trigger] after[i]).cycles,
                self.opts.segment_limit_po2,
            ) by {
                if i < before.len() {
                    assert(within_limit(before[i].cycles, old(self).opts.segment_limit_po2));
                }
            }
        }
        Ok(seg)
    }

    /// Assembles the receipt of a run: the journal as the guest left it,
    /// which starts empty again, and the seal, which is empty where the plan
    /// skips it. The flag says whether the receipt is to be verified before
    /// it is handed out.
    pub fn finish_run(&mut self, plan: &RunPlan, seal: Vec<u8>) -> (r: (Receipt, bool))
        ensures
            r.0.journal@ == old(self).journal@,
            plan.skip_seal ==> r.0.seal@.len() == 0,
            !plan.skip_seal ==> r.0.seal@ == seal@,
            r.1 == (!plan.skip_seal && !old(self).opts.skip_verify),
            final(self).journal@.len() == 0,
            *final(self) == (Prover {
                journal: final(self).journal,
                running: false,
                ..*old(self)
            }),
    {
        let mut journal: Vec<u8> = Vec::new();
        core::mem::swap(&mut self.journal, &mut journal);
        self.running = false;
        let seal = if plan.skip_seal {
            Vec::new()
        } else {
            seal
        };
        (Receipt { journal, seal }, !plan.skip_seal && !self.opts.skip_verify)
    }

    /// The check that follows proving: hands the receipt out only if it is
    /// bound to the image that the run started from.
    pub fn self_check(receipt: Receipt, plan: &RunPlan, report: &SealReport) -> (r: Result<
        Receipt,
        ProverError,
    >)
        ensures
            match verdict(receipt.seal@.len(), *report, plan.image_id) {
                Ok(()) => r == Ok::<Receipt, ProverError>(receipt),
                Err(e) => r == Err::<Receipt, ProverError>(ProverError::Verification(e)),
            },
    {
        match receipt.verify_with_report(&plan.image_id, report) {
            Ok(()) => Ok(receipt),
            Err(e) => Err(ProverError::Verification(e)),
        }
    }

    /// Answers a host call of the guest. Exactly one handler is chosen: the
    /// one registered under the exact name, else the random fill, else the
    /// fallback. A built-in is carried out here; for a handler of the host
    /// the answer names it, and the caller invokes it once.
    pub fn on_txrx(&self, syscall: &str, from_guest: &[u8], cycle: usize, to_guest: &mut Vec<u8>) -> (r:
        Result<Outcome, SyscallError>)
        ensures
            match route_of(self.opts.syscall_handlers@, self.opts.unknown_syscall_handler, syscall@) {
                Route::Handler(SyscallHandler::Host(t)) => answer_view(r) == Ok::<
                    OutcomeModel,
                    SyscallErrorModel,
                >(OutcomeModel::Host(t)) && final(to_guest)@ == old(to_guest)@,
                Route::Handler(SyscallHandler::SliceIo(t)) => answer_view(r) == Ok::<
                    OutcomeModel,
                    SyscallErrorModel,
                >(OutcomeModel::SliceIo(t)) && final(to_guest)@ == old(to_guest)@,
                Route::Handler(SyscallHandler::PosixIo) => answer_view(r) == Ok::<
                    OutcomeModel,
                    SyscallErrorModel,
                >(OutcomeModel::Posix) && final(to_guest)@ == old(to_guest)@,
                Route::Handler(SyscallHandler::Default) => answer_view(r) == default_syscall_spec(
                    syscall@,
                    from_guest@,
                    cycle,
                ) && final(to_guest)@ == old(to_guest)@,
                Route::Handler(SyscallHandler::Getenv) => (answer_view(r), final(to_guest)@)
                    == getenv_spec(self.opts.bound_env@, from_guest@, old(to_guest)@),
                Route::Handler(SyscallHandler::Unknown) => answer_view(r) == Err::<
                    OutcomeModel,
                    SyscallErrorModel,
                >(SyscallErrorModel::UnknownSyscall(syscall@)) && final(to_guest)@ == old(to_guest)@,
                Route::Random => random_answer(answer_view(r), old(to_guest)@, final(to_guest)@),
            },
    {
        match self.opts.route(syscall) {
            Route::Handler(SyscallHandler::Host(t)) => Ok(Outcome::Host(t)),
            Route::Handler(SyscallHandler::SliceIo(t)) => Ok(Outcome::SliceIo(t)),
            Route::Handler(SyscallHandler::PosixIo) => Ok(Outcome::Posix),
            Route::Handler(SyscallHandler::Default) => default_syscall(syscall, from_guest, cycle),
            Route::Handler(SyscallHandler::Getenv) => getenv(
                &self.opts.bound_env,
                from_guest,
                to_guest,
            ),
            Route::Handler(SyscallHandler::Unknown) => Err(unknown_syscall(syscall)),
            Route::Random => sys_random(to_guest),
        }
    }

    /// A write of the guest on a file descriptor. Bytes for the journal are
    /// appended to it and go nowhere else; bytes for a stream of the host
    /// are left to the host, whose token comes back. A descriptor that
    /// nobody registered is an error.
    pub fn posix_write(&mut self, fd: u32, bytes: &[u8]) -> (r: Result<Option<u64>, SyscallError>)
        ensures
            *final(self) == (Prover { journal: final(self).journal, ..*old(self) }),
            old(self).journal@.is_prefix_of(final(self).journal@),
            match old(self).opts.bound_io.write_fds@.get(fd) {
                None => r matches Err(SyscallError::UnregisteredFd(f)) && f == fd && final(self).journal@ == old(self).journal@,
                Some(Writer::Journal) => r == Ok::<Option<u64>, SyscallError>(None) && final(self).journal@ == old(self).journal@ + bytes@,
                Some(Writer::Host(t)) => r == Ok::<Option<u64>, SyscallError>(Some(t)) && final(self).journal@ == old(self).journal@,
            },
    {
        match self.opts.bound_io.writer(fd) {
            None => Err(SyscallError::UnregisteredFd(fd)),
            Some(Writer::Journal) => {
                append_bytes(&mut self.journal, bytes);
                Ok(None)
            },
            Some(Writer::Host(t)) => Ok(Some(t)),
        }
    }

    /// A read of the guest on a file descriptor, of up to `nbytes` bytes.
    /// Input held by the prover leaves from its front; for a stream of the
    /// host the answer names it. A descriptor that nobody registered is an
    /// error.
    pub fn posix_read(&mut self, fd: u32, nbytes: usize) -> (r: Result<ReadStep, SyscallError>)
        ensures
            *final(self) == (Prover { opts: final(self).opts, ..*old(self) }),
            final(self).opts == (ProverOpts {
                bound_io: final(self).opts.bound_io,
                ..old(self).opts
            }),
            final(self).opts.bound_io.write_fds == old(self).opts.bound_io.write_fds,
            final(self).opts.bound_io.read_fds@.dom() == old(self).opts.bound_io.read_fds@.dom(),
            forall|k: u32|
                k != fd && old(self).opts.bound_io.read_fds@.contains_key(k) ==> final(self).opts.bound_io.read_fds@[k] == old(self).opts.bound_io.read_fds@[k],
            match old(self).opts.bound_io.read_fds@.get(fd) {
                None => r matches Err(SyscallError::UnregisteredFd(f)) && f == fd,
                Some(Reader::Host(t)) => r matches Ok(ReadStep::Host(u)) && u == t && final(self).opts.bound_io.read_fds@[fd] == Reader::Host(t),
                Some(Reader::Bytes(b)) => r matches Ok(ReadStep::Data(d)) && d@ == b@.take(
                    if nbytes <= b@.len() {
                        nbytes as int
                    } else {
                        b@.len() as int
                    },
                ) && reader_after(
                    Reader::Bytes(b),
                    d@.len() as int,
                    final(self).opts.bound_io.read_fds@[fd],
                ),
            },
    {
        match self.opts.bound_io.read(fd, nbytes) {
            Some(step) => Ok(step),
            None => Err(SyscallError::UnregisteredFd(fd)),
        }
    }

    /// Whether trace events are wanted.
    pub fn is_trace_enabled(&self) -> (r: bool)
        ensures
            r == self.opts.trace_callback is Some,
    {
        self.opts.trace_callback.is_some()
    }

    /// Says to which callback of the host a trace event goes, if to any.
    pub fn on_trace(&self, event: TraceEvent) -> (r: Option<(u64, TraceEvent)>)
        ensures
            r == match self.opts.trace_callback {
                Some(cb) => Some((cb, event)),
                None => None,
            },
    {
        match self.opts.trace_callback {
            Some(cb) => Some((cb, event)),
            None => None,
        }
    }
}

/// In a well-formed prover each recorded segment ends on the root of the
/// memory image that the next one begins with, and the last one ends on the
/// root where the prover stands.
pub proof fn lemma_chain_is_continuous(prover: Prover, i: int)
    requires
        prover.wf(),
        0 <= i < prover.segments@.len(),
    ensures
        i + 1 < prover.segments@.len() ==> prover.segments@[i].post_root == prover.segments@[i
            + 1].pre_root,
        i + 1 == prover.segments@.len() ==> prover.segments@[i].post_root == prover.image_root,
{
    if i + 1 < prover.segments@.len() {
        let j = i + 1;
        assert(prover.segments@[i].post_root == prover.segments@[j].pre_root);
    }
}

/// A segment that is recorded right after another begins on the root that
/// the other ended on, whatever the executor reported of either.
pub proof fn lemma_next_segment_continues(pc: u32, root: Digest, first: SegmentResult, second: SegmentResult)
    ensures
        Prover::segment_of(first.pc, first.post_root, second).pre_root == Prover::segment_of(
            pc,
            root,
            first,
        ).post_root,
        Prover::segment_of(first.pc, first.post_root, second).start_pc == Prover::segment_of(
            pc,
            root,
            first,
        ).end_pc,
{
}

/// In a well-formed prover no recorded segment took more cycles than two to
/// the power of the segment limit.
pub proof fn lemma_segments_within_limit(prover: Prover, i: int)
    requires
        prover.wf(),
        0 <= i < prover.segments@.len(),
    ensures
        prover.segments@[i].cycles <= pow2(prover.opts.segment_limit_po2 as nat),
{
}

/// The cycles of a run of segments, added up.
pub open spec fn total_cycles(segments: Seq<Segment>) -> nat
    decreases segments.len(),
{
    if segments.len() == 0 {
        0
    } else {
        total_cycles(segments.drop_last()) + segments.last().cycles as nat
    }
}

/// The fewest segments that can hold `total` cycles under the limit `po2`:
/// `total` divided by two to the power of `po2`, rounded up.
pub open spec fn segments_needed(total: nat, po2: nat) -> nat {
    ((total + pow2(po2) - 1) / (pow2(po2) as int)) as nat
}

/// Segments that respect the limit `po2` are at least as many as their
/// cycles need under that limit.
pub proof fn lemma_segments_cover_cycles(segments: Seq<Segment>, po2: usize)
    requires
        forall|i: int| 0 <= i < segments.len() ==> within_limit((#[trigger] segments[i]).cycles, po2),
    ensures
        total_cycles(segments) <= segments.len() * pow2(po2 as nat),
        segments_needed(total_cycles(segments), po2 as nat) <= segments.len(),
    decreases segments.len(),
{
    let limit = pow2(po2 as nat);
    lemma_pow2_pos(po2 as nat);
    if segments.len() == 0 {
        assert((0 + limit - 1) / (limit as int) == 0) by (nonlinear_arith)
            requires
                limit > 0,
        ;
    } else {
        let front = segments.drop_last();
        assert forall|i: int| 0 <= i < front.len() implies within_limit(
            (#[trigger] front[i]).cycles,
            po2,
        ) by {
            assert(front[i] == segments[i]);
        }
        lemma_segments_cover_cycles(front, po2);
        assert(within_limit(segments[segments.len() - 1].cycles, po2));
        let total = total_cycles(segments);
        let n = segments.len();
        assert(total <= n * limit) by (nonlinear_arith)
            requires
                total <= (n - 1) * limit + limit,
        ;
        assert((total + limit - 1) / (limit as int) <= n) by (nonlinear_arith)
            requires
                limit > 0,
                total <= n * limit,
        ;
    }
}

/// Lowering the segment limit strictly raises the number of segments that a
/// program needs, once the program needs more cycles than the lower limit
/// allows in one segment.
pub proof fn lemma_lower_limit_needs_more_segments(total: nat, po2: nat, lower: nat)
    requires
        lower < po2,
        total > pow2(lower),
    ensures
        segments_needed(total, lower) > segments_needed(total, po2),
{
    let a = pow2(lower) as int;
    let b = pow2(po2) as int;
    lemma_pow2_pos(lower);
    lemma_pow2_unfold((lower + 1) as nat);
    if lower + 1 < po2 {
        lemma_pow2_strictly_increases((lower + 1) as nat, po2);
    }
    assert(b >= 2 * a);
    let t = total as int;
    let na = (t + a - 1) / a;
    let nb = (t + b - 1) / b;
    assert(na * a >= t && nb * b < t + b && nb >= 1 && na >= 2) by (nonlinear_arith)
        requires
            a > 0,
            b > 0,
            t > a,
            na == (t + a - 1) / a,
            nb == (t + b - 1) / b,
    ;
    assert(na > nb) by (nonlinear_arith)
        requires
            a > 0,
            b >= 2 * a,
            na * a >= t,
            nb * b < t + b,
            nb >= 1,
            na >= 2,
    ;
}

/// A run under the lower of two segment limits takes strictly more segments
/// than the cycles of that run need at the least under the higher limit,
/// once those cycles are more than the lower limit allows in one segment.
pub proof fn lemma_run_under_lower_limit_is_longer(segments: Seq<Segment>, po2: usize, lower: usize)
    requires
        lower < po2,
        forall|i: int|
            0 <= i < segments.len() ==> within_limit((#[trigger] segments[i]).cycles, lower),
        total_cycles(segments) > pow2(lower as nat),
    ensures
        segments.len() > segments_needed(total_cycles(segments), po2 as nat),
        segments.len() >= 2,
{
    lemma_segments_cover_cycles(segments, lower);
    lemma_lower_limit_needs_more_segments(total_cycles(segments), po2 as nat, lower as nat);
    let total = total_cycles(segments) as int;
    let a = pow2(lower as nat) as int;
    let n = segments.len() as int;
    assert(n >= 2) by (nonlinear_arith)
        requires
            total <= n * a,
            total > a,
            a > 0,
    ;
}

/// A run may always begin before the first one has begun, and again after
/// any run as long as no input was added since; once a run has begun, added
/// input keeps the next run from beginning.
pub proof fn lemma_late_input(input: Seq<u8>, extra: Seq<u8>)
    ensures
        late_input_ok(false, input),
        late_input_ok(true, Seq::<u8>::empty()),
        extra.len() > 0 ==> !late_input_ok(true, input + extra),
{
}

} // verus!
