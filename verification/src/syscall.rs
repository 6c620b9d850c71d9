//! The built-in host calls, and the names under which a guest asks for them.
//!
//! Each built-in takes what the guest passed as plain values and says what
//! goes back into the guest's registers. Nothing here prints or blocks.

use crate::text::{decimal, decimal_string, str_eq, text_from_utf8};
use vstd::hash_map::StringHashMap;
use vstd::prelude::*;
use vstd::string::StringExecFns;
use vstd::utf8::{decode_utf8, encode_utf8, valid_utf8};

verus! {

/// The namespace in front of the names of the built-in host calls: guest
/// programs name them by the path under which their platform library
/// declares them.
pub const SYSCALL_NAMESPACE: &'static str = "risc0_zkvm_platform::syscall::nr::";

/// Host call: how many cycles have run.
pub const SYS_CYCLE_COUNT: &'static str = "risc0_zkvm_platform::syscall::nr::SYS_CYCLE_COUNT";

/// Host call: value of an environment variable.
pub const SYS_GETENV: &'static str = "risc0_zkvm_platform::syscall::nr::SYS_GETENV";

/// Host call: print a log line.
pub const SYS_LOG: &'static str = "risc0_zkvm_platform::syscall::nr::SYS_LOG";

/// Host call: the guest gives up with a message.
pub const SYS_PANIC: &'static str = "risc0_zkvm_platform::syscall::nr::SYS_PANIC";

/// Host call: fill a buffer with random bytes.
pub const SYS_RANDOM: &'static str = "risc0_zkvm_platform::syscall::nr::SYS_RANDOM";

/// Host call: read from a file descriptor.
pub const SYS_READ: &'static str = "risc0_zkvm_platform::syscall::nr::SYS_READ";

/// Host call: how many bytes a file descriptor has ready.
pub const SYS_READ_AVAIL: &'static str = "risc0_zkvm_platform::syscall::nr::SYS_READ_AVAIL";

/// Host call: write to a file descriptor.
pub const SYS_WRITE: &'static str = "risc0_zkvm_platform::syscall::nr::SYS_WRITE";

/// The name of the random fill once its namespace is removed.
pub const RANDOM_SHORT_NAME: &'static str = "SYS_RANDOM";

/// What `getenv` puts in the first register when the variable is not set.
pub const GETENV_NOT_FOUND: u32 = 0xffff_ffff;

/// Why a host call failed. Each of these ends the run.
#[derive(Debug)]
pub enum SyscallError {
    /// The guest passed bytes that are not UTF-8 where text was expected.
    InvalidUtf8,
    /// The guest asked to panic, with this message.
    GuestPanic(String),
    /// No handler answers to this name.
    UnknownSyscall(String),
    /// The system's random source failed.
    RandomUnavailable,
    /// A read or write named a file descriptor that nobody registered.
    UnregisteredFd(u32),
}

/// A [`SyscallError`] with its text as characters.
pub enum SyscallErrorModel {
    InvalidUtf8,
    GuestPanic(Seq<char>),
    UnknownSyscall(Seq<char>),
    RandomUnavailable,
    UnregisteredFd(u32),
}

impl View for SyscallError {
    type V = SyscallErrorModel;

    open spec fn view(&self) -> SyscallErrorModel {
        match *self {
            SyscallError::InvalidUtf8 => SyscallErrorModel::InvalidUtf8,
            SyscallError::GuestPanic(m) => SyscallErrorModel::GuestPanic(m@),
            SyscallError::UnknownSyscall(n) => SyscallErrorModel::UnknownSyscall(n@),
            SyscallError::RandomUnavailable => SyscallErrorModel::RandomUnavailable,
            SyscallError::UnregisteredFd(fd) => SyscallErrorModel::UnregisteredFd(fd),
        }
    }
}

impl SyscallError {
    /// The message shown to a user.
    pub fn to_string(&self) -> (r: String)
        ensures
            r@ == match self@ {
                SyscallErrorModel::GuestPanic(m) => "Guest panicked: "@ + m,
                SyscallErrorModel::UnknownSyscall(n) => "Unknown syscall: "@ + n,
                SyscallErrorModel::InvalidUtf8 => "invalid utf-8 from the guest"@,
                SyscallErrorModel::RandomUnavailable => "the random source is unavailable"@,
                SyscallErrorModel::UnregisteredFd(_) => "bad file descriptor"@,
            },
    {
        match self {
            SyscallError::GuestPanic(m) => {
                let mut s = "Guest panicked: ".to_owned();
                s.append(m.as_str());
                s
            },
            SyscallError::UnknownSyscall(n) => {
                let mut s = "Unknown syscall: ".to_owned();
                s.append(n.as_str());
                s
            },
            SyscallError::InvalidUtf8 => "invalid utf-8 from the guest".to_owned(),
            SyscallError::RandomUnavailable => "the random source is unavailable".to_owned(),
            SyscallError::UnregisteredFd(_) => "bad file descriptor".to_owned(),
        }
    }
}

/// What the bridge asks of its caller once a host call has been looked at.
#[derive(Debug)]
pub enum Outcome {
    /// Put these two values in the guest's result registers.
    Return(u32, u32),
    /// Print `msg` as a log line of the given cycle, then return two zeros.
    Log { cycle: usize, msg: String },
    /// Invoke the host's raw handler of this token, once.
    Host(u64),
    /// Invoke the host's slice handler of this token, once.
    SliceIo(u64),
    /// Decode a read or write on a file descriptor and hand it to the
    /// prover.
    Posix,
}

/// An [`Outcome`] with its text as characters.
pub enum OutcomeModel {
    Return(u32, u32),
    Log { cycle: usize, msg: Seq<char> },
    Host(u64),
    SliceIo(u64),
    Posix,
}

impl View for Outcome {
    type V = OutcomeModel;

    open spec fn view(&self) -> OutcomeModel {
        match *self {
            Outcome::Return(a0, a1) => OutcomeModel::Return(a0, a1),
            Outcome::Log { cycle, msg } => OutcomeModel::Log { cycle, msg: msg@ },
            Outcome::Host(t) => OutcomeModel::Host(t),
            Outcome::SliceIo(t) => OutcomeModel::SliceIo(t),
            Outcome::Posix => OutcomeModel::Posix,
        }
    }
}

/// An answer of the bridge with its text as characters.
pub open spec fn answer_view(r: Result<Outcome, SyscallError>) -> Result<
    OutcomeModel,
    SyscallErrorModel,
> {
    match r {
        Ok(o) => Ok(o@),
        Err(e) => Err(e@),
    }
}

/// The line that a log call prints: the cycle in square brackets after the
/// machine's tag, a space, and the guest's message.
pub open spec fn log_line_text(cycle: usize, msg: Seq<char>) -> Seq<char> {
    "R0VM["@ + decimal(cycle as nat) + "] "@ + msg
}

/// Writes the line that a log call prints.
pub fn log_line(cycle: usize, msg: &str) -> (r: String)
    ensures
        r@ == log_line_text(cycle, msg@),
{
    let mut s = "R0VM[".to_owned();
    s.append(decimal_string(cycle as u64).as_str());
    s.append("] ");
    s.append(msg);
    s
}

/// The low 32 bits of a cycle count: what fits in a guest register.
pub open spec fn low_word(n: int) -> int {
    n % 0x1_0000_0000
}

fn low_word_of(n: usize) -> (r: u32)
    ensures
        r == low_word(n as int),
{
    ((n as u64) % 0x1_0000_0000u64) as u32
}

/// What the default handler answers to `syscall`, given the bytes that the
/// guest passed and the current cycle.
pub open spec fn default_syscall_spec(syscall: Seq<char>, from_guest: Seq<u8>, cycle: usize) -> Result<
    OutcomeModel,
    SyscallErrorModel,
> {
    if syscall == SYS_PANIC@ || syscall == SYS_LOG@ {
        if !valid_utf8(from_guest) {
            Err(SyscallErrorModel::InvalidUtf8)
        } else if syscall == SYS_PANIC@ {
            Err(SyscallErrorModel::GuestPanic(decode_utf8(from_guest)))
        } else {
            Ok(OutcomeModel::Log { cycle, msg: decode_utf8(from_guest) })
        }
    } else if syscall == SYS_CYCLE_COUNT@ {
        Ok(OutcomeModel::Return(low_word(cycle as int) as u32, 0))
    } else {
        Err(SyscallErrorModel::UnknownSyscall(syscall))
    }
}

/// The handler behind panic, log and cycle count. A panic becomes an error
/// that carries the guest's message; a log line is handed back for printing;
/// the cycle count comes back in the first register. Any other name is an
/// error.
pub fn default_syscall(syscall: &str, from_guest: &[u8], cycle: usize) -> (r: Result<
    Outcome,
    SyscallError,
>)
    ensures
        answer_view(r) == default_syscall_spec(syscall@, from_guest@, cycle),
{
    let is_panic = str_eq(syscall, SYS_PANIC);
    let is_log = str_eq(syscall, SYS_LOG);
    if is_panic || is_log {
        match text_from_utf8(from_guest) {
            None => Err(SyscallError::InvalidUtf8),
            Some(msg) => {
                if is_panic {
                    Err(SyscallError::GuestPanic(msg.to_owned()))
                } else {
                    Ok(Outcome::Log { cycle, msg: msg.to_owned() })
                }
            },
        }
    } else if str_eq(syscall, SYS_CYCLE_COUNT) {
        Ok(Outcome::Return(low_word_of(cycle), 0))
    } else {
        Err(SyscallError::UnknownSyscall(syscall.to_owned()))
    }
}

/// The fallback for a name that nothing answers to: always an error that
/// carries the name.
pub fn unknown_syscall(syscall: &str) -> (r: SyscallError)
    ensures
        r@ == SyscallErrorModel::UnknownSyscall(syscall@),
{
    SyscallError::UnknownSyscall(syscall.to_owned())
}

/// The destination after `getenv` copied `val` into it: as much of `val` as
/// fits, then what the destination held before.
pub open spec fn getenv_dest(dest: Seq<u8>, val: Seq<u8>) -> Seq<u8> {
    if val.len() <= dest.len() {
        val + dest.subrange(val.len() as int, dest.len() as int)
    } else {
        val.subrange(0, dest.len() as int)
    }
}

/// What `getenv` answers and what it leaves in the destination, given the
/// environment, the name that the guest passed as bytes, and the
/// destination before the call.
pub open spec fn getenv_spec(env: Map<Seq<char>, String>, from_guest: Seq<u8>, dest: Seq<u8>) -> (
    Result<OutcomeModel, SyscallErrorModel>,
    Seq<u8>,
) {
    if !valid_utf8(from_guest) {
        (Err(SyscallErrorModel::InvalidUtf8), dest)
    } else if !env.contains_key(decode_utf8(from_guest)) {
        (Ok(OutcomeModel::Return(GETENV_NOT_FOUND, 0)), dest)
    } else {
        let val = encode_utf8(env[decode_utf8(from_guest)]@);
        (Ok(OutcomeModel::Return(low_word(val.len() as int) as u32, 0)), getenv_dest(dest, val))
    }
}

/// Looks the variable up whose name the guest passed as bytes.
///
/// An unset variable gives the not-found sentinel and leaves the destination
/// alone. A set one is copied into the destination as far as it fits, and its
/// full length in bytes comes back, so that the guest can tell when the value
/// was cut.
pub fn getenv(env: &StringHashMap<String>, from_guest: &[u8], to_guest: &mut Vec<u8>) -> (r: Result<
    Outcome,
    SyscallError,
>)
    ensures
        (answer_view(r), final(to_guest)@) == getenv_spec(env@, from_guest@, old(to_guest)@),
{
    let name = match text_from_utf8(from_guest) {
        None => {
            return Err(SyscallError::InvalidUtf8);
        },
        Some(name) => name,
    };
    match env.get(name) {
        None => Ok(Outcome::Return(GETENV_NOT_FOUND, 0)),
        Some(val) => {
            let bytes = val.as_str().as_bytes();
            let cap: usize = to_guest.len();
            let nbytes: usize = if bytes.len() <= cap {
                bytes.len()
            } else {
                cap
            };
            let mut i: usize = 0;
            while i < nbytes
                invariant
                    nbytes <= bytes@.len(),
                    nbytes <= cap,
                    cap == old(to_guest)@.len(),
                    i <= nbytes,
                    to_guest@ == bytes@.subrange(0, i as int) + old(to_guest)@.subrange(
                        i as int,
                        cap as int,
                    ),
                decreases nbytes - i,
            {
                to_guest.set(i, bytes[i]);
                i += 1;
                assert(to_guest@ =~= bytes@.subrange(0, i as int) + old(to_guest)@.subrange(
                    i as int,
                    cap as int,
                ));
            }
            assert(to_guest@ =~= getenv_dest(old(to_guest)@, bytes@));
            Ok(Outcome::Return(low_word_of(bytes.len()), 0))
        },
    }
}

/// The error type of the system's random source.
#[verifier::external_type_specification]
#[verifier::external_body]
pub struct ExRandomError(getrandom::Error);

/// Fills `buf` from the system's random source with `getrandom::getrandom`.
/// Nothing is claimed of the bytes. The buffer keeps its length, and an
/// empty buffer always succeeds, since the source is not even asked then;
/// of any other buffer success is not claimed.
#[verifier::external_body]
fn fill_random(buf: &mut Vec<u8>) -> (r: Result<(), getrandom::Error>)
    ensures
        final(buf)@.len() == old(buf)@.len(),
        old(buf)@.len() == 0 ==> r is Ok,
{
    getrandom::getrandom(buf.as_mut_slice())
}

/// What the random fill leaves in the guest's buffer and answers, given
/// what the random source produced: on success the fresh bytes replace the
/// buffer and two zeros go back; on failure the buffer stays as it was.
pub fn finish_random(to_guest: &mut Vec<u8>, fresh: Vec<u8>, filled: Result<(), getrandom::Error>) -> (r:
    Result<Outcome, SyscallError>)
    ensures
        filled is Ok ==> answer_view(r) == Ok::<OutcomeModel, SyscallErrorModel>(
            OutcomeModel::Return(0, 0),
        ) && final(to_guest)@ == fresh@,
        filled is Err ==> answer_view(r) == Err::<OutcomeModel, SyscallErrorModel>(
            SyscallErrorModel::RandomUnavailable,
        ) && final(to_guest)@ == old(to_guest)@,
{
    match filled {
        Ok(()) => {
            *to_guest = fresh;
            Ok(Outcome::Return(0, 0))
        },
        Err(_) => Err(SyscallError::RandomUnavailable),
    }
}

/// What holds of the random fill whatever the random source did: the buffer
/// keeps its length; an empty buffer always succeeds; success answers two
/// zeros; failure is reported as such and leaves the buffer untouched.
pub open spec fn random_answer(
    answer: Result<OutcomeModel, SyscallErrorModel>,
    before: Seq<u8>,
    after: Seq<u8>,
) -> bool {
    &&& after.len() == before.len()
    &&& before.len() == 0 ==> answer is Ok
    &&& answer is Ok ==> answer == Ok::<OutcomeModel, SyscallErrorModel>(OutcomeModel::Return(0, 0))
    &&& answer is Err ==> answer == Err::<OutcomeModel, SyscallErrorModel>(
        SyscallErrorModel::RandomUnavailable,
    ) && after == before
}

/// The random fill: overwrites the guest's buffer with bytes from the
/// system's random source. Whatever the source does, the buffer keeps its
/// length, and a failure leaves it untouched. Filling an empty buffer
/// cannot fail.
pub fn sys_random(to_guest: &mut Vec<u8>) -> (r: Result<Outcome, SyscallError>)
    ensures
        random_answer(answer_view(r), old(to_guest)@, final(to_guest)@),
{
    let n: usize = to_guest.len();
    let mut fresh: Vec<u8> = Vec::new();
    let mut i: usize = 0;
    while i < n
        invariant
            i <= n,
            fresh@.len() == i,
        decreases n - i,
    {
        fresh.push(0u8);
        i += 1;
    }
    let filled = fill_random(&mut fresh);
    finish_random(to_guest, fresh, filled)
}

/// The value of byte `k` of a word, counted from the low end.
pub open spec fn byte_place(k: int) -> int {
    if k == 0 {
        1
    } else if k == 1 {
        0x100
    } else if k == 2 {
        0x1_0000
    } else {
        0x100_0000
    }
}

/// Byte `k` of the word `w`, counted from the low end.
pub open spec fn word_byte(w: u32, k: int) -> u8 {
    ((w as int / byte_place(k)) % 256) as u8
}

/// The bytes of `words` with the low byte of each word first.
pub open spec fn words_le(words: Seq<u32>) -> Seq<u8> {
    Seq::new(4 * words.len(), |i: int| word_byte(words[i / 4], i % 4))
}

/// The bytes of `words` with the high byte of each word first.
pub open spec fn words_be(words: Seq<u32>) -> Seq<u8> {
    Seq::new(4 * words.len(), |i: int| word_byte(words[i / 4], 3 - i % 4))
}

/// Whether `bytes` are the bytes of `words` in the byte order of some host:
/// four for each word, low byte first in all of them or high byte first in
/// all of them.
pub open spec fn in_host_order(words: Seq<u32>, bytes: Seq<u8>) -> bool {
    bytes == words_le(words) || bytes == words_be(words)
}

/// The bytes of a run of guest words as they lie in memory, from
/// `bytemuck::cast_slice`: four bytes for each word, in the machine's own
/// byte order, which is one of the two for all words alike. Which of the two
/// it is depends on the machine and is not claimed.
#[verifier::external_body]
pub(crate) fn words_as_bytes(words: &[u32]) -> (r: Vec<u8>)
    ensures
        in_host_order(words@, r@),
{
    bytemuck::cast_slice::<u32, u8>(words).to_vec()
}

} // verus!
