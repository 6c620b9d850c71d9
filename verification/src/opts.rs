//! Configuration of a proving session: a plain value that is built up step
//! by step and finalized once, when the first run begins.

use crate::syscall::{
    SYS_CYCLE_COUNT, SYS_GETENV, SYS_LOG, SYS_PANIC, SYS_READ, SYS_READ_AVAIL, SYS_WRITE,
    RANDOM_SHORT_NAME, SYSCALL_NAMESPACE, in_host_order, words_as_bytes,
};
use crate::text::{str_eq, strip_prefix, without_prefix};
use std::collections::HashMap;
use vstd::hash_map::StringHashMap;
use vstd::prelude::*;

verus! {

broadcast use vstd::std_specs::hash::group_hash_axioms;

/// Segment limit used unless another is set: 16M cycles.
pub const DEFAULT_SEGMENT_LIMIT_PO2: usize = 23;

/// File descriptor of the guest's standard input.
pub const STDIN: u32 = 0;

/// File descriptor of the guest's standard output.
pub const STDOUT: u32 = 1;

/// File descriptor of the guest's standard error.
pub const STDERR: u32 = 2;

/// File descriptor of the journal.
pub const JOURNAL: u32 = 3;

/// Who answers a host call. The host keeps its own handlers and callbacks
/// and names each by a token of its choice; the built-ins are part of this
/// library.
#[derive(Clone, Copy, Debug, PartialEq, Eq, Structural)]
pub enum SyscallHandler {
    /// A raw handler of the host.
    Host(u64),
    /// A handler of the host that takes a slice and returns a slice.
    SliceIo(u64),
    /// The built-in behind panic, log and cycle count.
    Default,
    /// The built-in behind read, read-available and write.
    PosixIo,
    /// The built-in behind getenv.
    Getenv,
    /// The built-in that refuses every call.
    Unknown,
}

/// Where the bytes of a readable file descriptor come from.
#[derive(Debug)]
pub enum Reader {
    /// A stream that the host reads, named by its token.
    Host(u64),
    /// Bytes held here; a read takes them from the front.
    Bytes(Vec<u8>),
}

/// Where the bytes written to a file descriptor go.
#[derive(Clone, Copy, Debug, PartialEq, Eq, Structural)]
pub enum Writer {
    /// A stream that the host writes, named by its token.
    Host(u64),
    /// The journal of the run.
    Journal,
}

/// The registered file descriptors.
pub struct PosixIo {
    /// Readers by file descriptor.
    pub read_fds: HashMap<u32, Reader>,
    /// Writers by file descriptor.
    pub write_fds: HashMap<u32, Writer>,
}

impl PosixIo {
    /// No file descriptor registered.
    pub fn new() -> (r: Self)
        ensures
            r.read_fds@ == Map::<u32, Reader>::empty(),
            r.write_fds@ == Map::<u32, Writer>::empty(),
    {
        PosixIo { read_fds: HashMap::new(), write_fds: HashMap::new() }
    }

    /// Registers `reader` under `fd`, in place of what was there.
    pub fn with_read_fd(self, fd: u32, reader: Reader) -> (r: Self)
        ensures
            r.read_fds@ == self.read_fds@.insert(fd, reader),
            r.write_fds@ == self.write_fds@,
    {
        let mut io = self;
        io.read_fds.insert(fd, reader);
        io
    }

    /// Registers `writer` under `fd`, in place of what was there.
    pub fn with_write_fd(self, fd: u32, writer: Writer) -> (r: Self)
        ensures
            r.write_fds@ == self.write_fds@.insert(fd, writer),
            r.read_fds@ == self.read_fds@,
    {
        let mut io = self;
        io.write_fds.insert(fd, writer);
        io
    }
}

/// What a read on a file descriptor comes to.
#[derive(Debug)]
pub enum ReadStep {
    /// These bytes were taken from the front of what the reader held.
    Data(Vec<u8>),
    /// The host reads from its stream of this token.
    Host(u64),
}

/// The reader `before` after its first `taken` bytes were handed out.
pub open spec fn reader_after(before: Reader, taken: int, after: Reader) -> bool {
    match (before, after) {
        (Reader::Bytes(b), Reader::Bytes(a)) => 0 <= taken <= b@.len() && a@ == b@.skip(taken),
        (Reader::Host(t), Reader::Host(u)) => t == u,
        _ => false,
    }
}

impl PosixIo {
    /// The writer registered under `fd`, if any.
    pub fn writer(&self, fd: u32) -> (r: Option<Writer>)
        ensures
            r == if self.write_fds@.contains_key(fd) {
                Some(self.write_fds@[fd])
            } else {
                None
            },
    {
        match self.write_fds.get(&fd) {
            Some(w) => Some(*w),
            None => None,
        }
    }

    /// How many bytes the reader under `fd` holds ready; `None` for a
    /// stream of the host, or where nothing is registered under `fd`.
    pub fn available(&self, fd: u32) -> (r: Option<usize>)
        ensures
            r == if self.read_fds@.contains_key(fd) {
                match self.read_fds@[fd] {
                    Reader::Bytes(b) => Some(b@.len() as usize),
                    Reader::Host(_) => None,
                }
            } else {
                None
            },
    {
        match self.read_fds.get(&fd) {
            Some(Reader::Bytes(b)) => Some(b.len()),
            Some(Reader::Host(_)) => None,
            None => None,
        }
    }

    /// Reads up to `nbytes` from the reader under `fd`. Bytes held here
    /// leave from the front, as many as are asked for and there; for a
    /// stream of the host the answer names it. `None` where nothing is
    /// registered under `fd`; nothing changes then.
    pub fn read(&mut self, fd: u32, nbytes: usize) -> (r: Option<ReadStep>)
        ensures
            final(self).write_fds == old(self).write_fds,
            final(self).read_fds@.dom() == old(self).read_fds@.dom(),
            forall|k: u32|
                k != fd && old(self).read_fds@.contains_key(k) ==> final(self).read_fds@[k] == old(self).read_fds@[k],
            r is Some == old(self).read_fds@.contains_key(fd),
            old(self).read_fds@.contains_key(fd) ==> match old(self).read_fds@[fd] {
                Reader::Host(t) => r matches Some(ReadStep::Host(u)) && u == t && final(self).read_fds@[fd] == Reader::Host(t),
                Reader::Bytes(b) => r matches Some(ReadStep::Data(d)) && d@ == b@.take(
                    if nbytes <= b@.len() {
                        nbytes as int
                    } else {
                        b@.len() as int
                    },
                ) && reader_after(Reader::Bytes(b), d@.len() as int, final(self).read_fds@[fd]),
            },
    {
        match self.read_fds.remove(&fd) {
            None => {
                assert(self.read_fds@ =~= old(self).read_fds@);
                None
            },
            Some(Reader::Host(t)) => {
                self.read_fds.insert(fd, Reader::Host(t));
                assert(self.read_fds@.dom() =~= old(self).read_fds@.dom());
                Some(ReadStep::Host(t))
            },
            Some(Reader::Bytes(b)) => {
                let n: usize = if nbytes <= b.len() {
                    nbytes
                } else {
                    b.len()
                };
                let mut data: Vec<u8> = Vec::new();
                let mut rest: Vec<u8> = Vec::new();
                let mut i: usize = 0;
                while i < b.len()
                    invariant
                        n <= b@.len(),
                        i <= b@.len(),
                        data@ == b@.take(if i <= n {
                            i as int
                        } else {
                            n as int
                        }),
                        rest@ == b@.subrange(n as int, if i <= n {
                            n as int
                        } else {
                            i as int
                        }),
                    decreases b@.len() - i,
                {
                    if i < n {
                        data.push(b[i]);
                        assert(data@ =~= b@.take(i + 1));
                        assert(rest@ =~= b@.subrange(n as int, n as int));
                    } else {
                        rest.push(b[i]);
                        assert(rest@ =~= b@.subrange(n as int, i + 1));
                    }
                    i += 1;
                }
                assert(rest@ =~= b@.skip(n as int));
                self.read_fds.insert(fd, Reader::Bytes(rest));
                assert(self.read_fds@.dom() =~= old(self).read_fds@.dom());
                Some(ReadStep::Data(data))
            },
        }
    }
}

/// Which way a host call goes.
#[derive(Clone, Copy, Debug, PartialEq, Eq, Structural)]
pub enum Route {
    /// To this handler.
    Handler(SyscallHandler),
    /// To the built-in random fill.
    Random,
}

/// The route of the host call `name`: the handler registered under exactly
/// that name if there is one; else the random fill if that is what the name
/// says once its namespace is removed; else the fallback.
pub open spec fn route_of(
    handlers: Map<Seq<char>, SyscallHandler>,
    fallback: SyscallHandler,
    name: Seq<char>,
) -> Route {
    if handlers.contains_key(name) {
        Route::Handler(handlers[name])
    } else if without_prefix(name, SYSCALL_NAMESPACE@) == RANDOM_SHORT_NAME@ {
        Route::Random
    } else {
        Route::Handler(fallback)
    }
}

/// The handlers after a built-in was installed under `name`: it goes in only
/// where nothing is registered under that name.
pub open spec fn with_late_handler(
    handlers: Map<Seq<char>, SyscallHandler>,
    name: Seq<char>,
    built_in: SyscallHandler,
) -> Map<Seq<char>, SyscallHandler> {
    if handlers.contains_key(name) {
        handlers
    } else {
        handlers.insert(name, built_in)
    }
}

/// The handlers after the built-ins for file descriptors and the environment
/// were installed. A registration under one of their names stays.
pub open spec fn with_late_handlers(handlers: Map<Seq<char>, SyscallHandler>) -> Map<
    Seq<char>,
    SyscallHandler,
> {
    with_late_handler(
        with_late_handler(
            with_late_handler(
                with_late_handler(handlers, SYS_READ@, SyscallHandler::PosixIo),
                SYS_READ_AVAIL@,
                SyscallHandler::PosixIo,
            ),
            SYS_WRITE@,
            SyscallHandler::PosixIo,
        ),
        SYS_GETENV@,
        SyscallHandler::Getenv,
    )
}

/// Options available to modify the prover's behavior.
pub struct ProverOpts {
    /// Leave the seal of every receipt empty.
    pub skip_seal: bool,
    /// Do not verify a receipt after producing it.
    pub skip_verify: bool,
    /// Handlers by the exact name of the host call.
    pub syscall_handlers: StringHashMap<SyscallHandler>,
    /// File descriptors registered so far and not yet bound.
    pub io: PosixIo,
    /// Environment variables registered so far and not yet bound.
    pub env_vars: StringHashMap<String>,
    /// The host's callback for trace events, if one is registered.
    pub trace_callback: Option<u64>,
    /// The handler of last resort.
    pub unknown_syscall_handler: SyscallHandler,
    /// Precompute the segments instead of running them one by one.
    pub preflight: bool,
    /// The cycle limit of a segment, as a power of two.
    pub segment_limit_po2: usize,
    /// Whether the late handlers have been installed.
    pub finalized: bool,
    /// The file descriptors that the installed handlers serve.
    pub bound_io: PosixIo,
    /// The environment that the installed getenv reads.
    pub bound_env: StringHashMap<String>,
}

impl ProverOpts {
    /// Set the segment limit specified as a power of 2.
    ///
    /// When running a large program, this limit specifies the max cycles
    /// allowed for a particular segment.
    pub fn with_segment_limit_po2(self, segment_limit_po2: usize) -> (r: Self)
        ensures
            r == (ProverOpts { segment_limit_po2, ..self }),
    {
        ProverOpts { segment_limit_po2, ..self }
    }

    /// If true, skip generating the seal in receipt. This should
    /// only be used for testing. In this case, performace will be
    /// much better but we will not be able to cryptographically
    /// verify the execution.
    pub fn with_skip_seal(self, skip_seal: bool) -> (r: Self)
        ensures
            r == (ProverOpts { skip_seal, ..self }),
    {
        ProverOpts { skip_seal, ..self }
    }

    /// If true, don't verify the seal after creating it. This
    /// is useful if you wish to use a non-standard verifier for
    /// example.
    pub fn with_skip_verify(self, skip_verify: bool) -> (r: Self)
        ensures
            r == (ProverOpts { skip_verify, ..self }),
    {
        ProverOpts { skip_verify, ..self }
    }

    /// EXPERIMENTAL: run by precomputing the segments.
    pub fn with_preflight(self, preflight: bool) -> (r: Self)
        ensures
            r == (ProverOpts { preflight, ..self }),
    {
        ProverOpts { preflight, ..self }
    }

    /// Add a handler for a raw syscall implementation, in place of any
    /// handler registered under the same name.
    pub fn with_syscall(self, syscall: &str, handler: SyscallHandler) -> (r: Self)
        ensures
            r.syscall_handlers@ == self.syscall_handlers@.insert(syscall@, handler),
            r == (ProverOpts { syscall_handlers: r.syscall_handlers, ..self }),
            route_of(r.syscall_handlers@, r.unknown_syscall_handler, syscall@) == Route::Handler(
                handler,
            ),
    {
        let mut opts = self;
        opts.syscall_handlers.insert(syscall.to_owned(), handler);
        opts
    }

    /// Add a handler of the host, named by `token`, for a syscall which
    /// inputs and outputs a slice of plain old data.
    pub fn with_slice_io(self, syscall: &str, token: u64) -> (r: Self)
        ensures
            r.syscall_handlers@ == self.syscall_handlers@.insert(
                syscall@,
                SyscallHandler::SliceIo(token),
            ),
            r == (ProverOpts { syscall_handlers: r.syscall_handlers, ..self }),
    {
        self.with_syscall(syscall, SyscallHandler::SliceIo(token))
    }

    /// Add a callback of the host, named by `token`, for a syscall which
    /// inputs and outputs a slice of plain old data.
    pub fn with_sendrecv_callback(self, syscall: &str, token: u64) -> (r: Self)
        ensures
            r.syscall_handlers@ == self.syscall_handlers@.insert(
                syscall@,
                SyscallHandler::SliceIo(token),
            ),
            r == (ProverOpts { syscall_handlers: r.syscall_handlers, ..self }),
    {
        self.with_slice_io(syscall, token)
    }

    /// Provide a handler for when an unknown syscall is encountered.
    pub fn with_unknown_syscall_handler(self, handler: SyscallHandler) -> (r: Self)
        ensures
            r == (ProverOpts { unknown_syscall_handler: handler, ..self }),
    {
        ProverOpts { unknown_syscall_handler: handler, ..self }
    }

    /// Add a callback handler for raw trace messages. Only one may be
    /// registered.
    pub fn with_trace_callback(self, callback: u64) -> (r: Self)
        requires
            self.trace_callback is None,
        ensures
            r == (ProverOpts { trace_callback: Some(callback), ..self }),
    {
        ProverOpts { trace_callback: Some(callback), ..self }
    }

    /// Add a posix-style standard input.
    pub fn with_stdin(self, reader: Reader) -> (r: Self)
        ensures
            r.io.read_fds@ == self.io.read_fds@.insert(STDIN, reader),
            r.io.write_fds@ == self.io.write_fds@,
            r == (ProverOpts { io: r.io, ..self }),
    {
        self.with_read_fd(STDIN, reader)
    }

    /// Add a posix-style standard output.
    pub fn with_stdout(self, writer: Writer) -> (r: Self)
        ensures
            r.io.write_fds@ == self.io.write_fds@.insert(STDOUT, writer),
            r.io.read_fds@ == self.io.read_fds@,
            r == (ProverOpts { io: r.io, ..self }),
    {
        self.with_write_fd(STDOUT, writer)
    }

    /// Add an encoded object on standard input: the guest reads the words in
    /// the host's byte order, four bytes each.
    pub fn with_stdin_obj(self, words: &[u32]) -> (r: Self)
        ensures
            r.io.read_fds@.contains_key(STDIN),
            r.io.read_fds@[STDIN] matches Reader::Bytes(b) && in_host_order(words@, b@) && b@.len()
                == 4 * words@.len(),
            r.io.read_fds@.remove(STDIN) == self.io.read_fds@.remove(STDIN),
            r.io.write_fds@ == self.io.write_fds@,
            r == (ProverOpts { io: r.io, ..self }),
    {
        let bytes = words_as_bytes(words);
        let r = self.with_stdin(Reader::Bytes(bytes));
        assert(r.io.read_fds@.remove(STDIN) =~= self.io.read_fds@.remove(STDIN));
        r
    }

    /// Add a posix-style file descriptor for reading.
    pub fn with_read_fd(self, fd: u32, reader: Reader) -> (r: Self)
        ensures
            r.io.read_fds@ == self.io.read_fds@.insert(fd, reader),
            r.io.write_fds@ == self.io.write_fds@,
            r == (ProverOpts { io: r.io, ..self }),
    {
        let ProverOpts {
            skip_seal,
            skip_verify,
            syscall_handlers,
            io,
            env_vars,
            trace_callback,
            unknown_syscall_handler,
            preflight,
            segment_limit_po2,
            finalized,
            bound_io,
            bound_env,
        } = self;
        ProverOpts {
            skip_seal,
            skip_verify,
            syscall_handlers,
            io: io.with_read_fd(fd, reader),
            env_vars,
            trace_callback,
            unknown_syscall_handler,
            preflight,
            segment_limit_po2,
            finalized,
            bound_io,
            bound_env,
        }
    }

    /// Add a posix-style file descriptor for writing.
    pub fn with_write_fd(self, fd: u32, writer: Writer) -> (r: Self)
        ensures
            r.io.write_fds@ == self.io.write_fds@.insert(fd, writer),
            r.io.read_fds@ == self.io.read_fds@,
            r == (ProverOpts { io: r.io, ..self }),
    {
        let ProverOpts {
            skip_seal,
            skip_verify,
            syscall_handlers,
            io,
            env_vars,
            trace_callback,
            unknown_syscall_handler,
            preflight,
            segment_limit_po2,
            finalized,
            bound_io,
            bound_env,
        } = self;
        ProverOpts {
            skip_seal,
            skip_verify,
            syscall_handlers,
            io: io.with_write_fd(fd, writer),
            env_vars,
            trace_callback,
            unknown_syscall_handler,
            preflight,
            segment_limit_po2,
            finalized,
            bound_io,
            bound_env,
        }
    }

    /// Add an environment variable to the guest environment.
    pub fn with_env_var(self, name: &str, val: &str) -> (r: Self)
        ensures
            r.env_vars@.dom() == self.env_vars@.dom().insert(name@),
            r.env_vars@[name@]@ == val@,
            forall|k: Seq<char>| k != name@ && self.env_vars@.contains_key(k) ==> r.env_vars@[k]
                == self.env_vars@[k],
            r == (ProverOpts { env_vars: r.env_vars, ..self }),
    {
        let mut opts = self;
        opts.env_vars.insert(name.to_owned(), val.to_owned());
        opts
    }

    /// Installs the built-in `built_in` under `syscall` unless a handler is
    /// registered under that name already; a registration always stays.
    pub fn with_late_syscall(self, syscall: &str, built_in: SyscallHandler) -> (r: Self)
        ensures
            r.syscall_handlers@ == with_late_handler(self.syscall_handlers@, syscall@, built_in),
            r == (ProverOpts { syscall_handlers: r.syscall_handlers, ..self }),
    {
        if self.syscall_handlers.contains_key(syscall) {
            self
        } else {
            self.with_syscall(syscall, built_in)
        }
    }

    /// Add late-binding handlers for constructed environment: the built-ins
    /// for file descriptors and for getenv are installed, once, each under
    /// its name unless a handler is registered there already, and what was
    /// registered of file descriptors and environment is bound to them. On
    /// options that are finalized already this changes nothing.
    pub fn finalize(self) -> (r: Self)
        ensures
            self.finalized ==> r == self,
            !self.finalized ==> r == (ProverOpts {
                finalized: true,
                syscall_handlers: r.syscall_handlers,
                io: r.io,
                env_vars: r.env_vars,
                bound_io: self.io,
                bound_env: self.env_vars,
                ..self
            }),
            !self.finalized ==> r.syscall_handlers@ == with_late_handlers(self.syscall_handlers@),
            !self.finalized ==> r.io.read_fds@ == Map::<u32, Reader>::empty() && r.io.write_fds@
                == Map::<u32, Writer>::empty() && r.env_vars@ == Map::<Seq<char>, String>::empty(),
            r.finalized,
    {
        if self.finalized {
            self
        } else {
            let ProverOpts {
                skip_seal,
                skip_verify,
                syscall_handlers,
                io,
                env_vars,
                trace_callback,
                unknown_syscall_handler,
                preflight,
                segment_limit_po2,
                finalized: _,
                bound_io: _,
                bound_env: _,
            } = self;
            let bound = ProverOpts {
                skip_seal,
                skip_verify,
                syscall_handlers,
                io: PosixIo::new(),
                env_vars: StringHashMap::new(),
                trace_callback,
                unknown_syscall_handler,
                preflight,
                segment_limit_po2,
                finalized: true,
                bound_io: io,
                bound_env: env_vars,
            };
            bound.with_late_syscall(SYS_READ, SyscallHandler::PosixIo).with_late_syscall(
                SYS_READ_AVAIL,
                SyscallHandler::PosixIo,
            ).with_late_syscall(SYS_WRITE, SyscallHandler::PosixIo).with_late_syscall(
                SYS_GETENV,
                SyscallHandler::Getenv,
            )
        }
    }

    /// Returns an empty ProverOpts with none of the default system calls or
    /// file descriptors attached.
    pub fn without_defaults() -> (r: Self)
        ensures
            !r.skip_seal && !r.skip_verify && !r.preflight && !r.finalized,
            r.segment_limit_po2 == DEFAULT_SEGMENT_LIMIT_PO2,
            r.syscall_handlers@ == Map::<Seq<char>, SyscallHandler>::empty(),
            r.env_vars@ == Map::<Seq<char>, String>::empty(),
            r.io.read_fds@ == Map::<u32, Reader>::empty(),
            r.io.write_fds@ == Map::<u32, Writer>::empty(),
            r.bound_env@ == Map::<Seq<char>, String>::empty(),
            r.bound_io.read_fds@ == Map::<u32, Reader>::empty(),
            r.bound_io.write_fds@ == Map::<u32, Writer>::empty(),
            r.trace_callback is None,
            r.unknown_syscall_handler == SyscallHandler::Unknown,
    {
        ProverOpts {
            io: PosixIo::new(),
            skip_seal: false,
            skip_verify: false,
            syscall_handlers: StringHashMap::new(),
            env_vars: StringHashMap::new(),
            trace_callback: None,
            preflight: false,
            unknown_syscall_handler: SyscallHandler::Unknown,
            finalized: false,
            segment_limit_po2: DEFAULT_SEGMENT_LIMIT_PO2,
            bound_io: PosixIo::new(),
            bound_env: StringHashMap::new(),
        }
    }

    /// The writers of the default options: the host's standard output and
    /// standard error, under the tokens 1 and 2.
    pub open spec fn default_writers() -> Map<u32, Writer> {
        Map::<u32, Writer>::empty().insert(STDOUT, Writer::Host(1)).insert(STDERR, Writer::Host(2))
    }

    /// Whether these are the options that a prover starts from unless it is
    /// given others: nothing skipped, the default segment limit, the host's
    /// three standard streams under the tokens 0, 1 and 2, and the built-in
    /// handler for panic, log and cycle count.
    pub open spec fn is_default(&self) -> bool {
        self.is_default_but_writers() && self.io.write_fds@ == Self::default_writers()
    }

    /// [`Self::is_default`] without what it says of the writers.
    pub open spec fn is_default_but_writers(&self) -> bool {
        &&& !self.skip_seal && !self.skip_verify && !self.preflight && !self.finalized
        &&& self.segment_limit_po2 == DEFAULT_SEGMENT_LIMIT_PO2
        &&& self.syscall_handlers@ == Map::<Seq<char>, SyscallHandler>::empty().insert(
            SYS_PANIC@,
            SyscallHandler::Default,
        ).insert(SYS_LOG@, SyscallHandler::Default).insert(
            SYS_CYCLE_COUNT@,
            SyscallHandler::Default,
        )
        &&& self.env_vars@ == Map::<Seq<char>, String>::empty()
        &&& self.io.read_fds@ == Map::<u32, Reader>::empty().insert(STDIN, Reader::Host(0))
        &&& self.bound_env@ == Map::<Seq<char>, String>::empty()
        &&& self.bound_io.read_fds@ == Map::<u32, Reader>::empty()
        &&& self.bound_io.write_fds@ == Map::<u32, Writer>::empty()
        &&& self.trace_callback is None
        &&& self.unknown_syscall_handler == SyscallHandler::Unknown
    }

    /// The options that a prover starts from unless it is given others.
    pub fn defaults() -> (r: Self)
        ensures
            r.is_default(),
    {
        ProverOpts::without_defaults().with_read_fd(STDIN, Reader::Host(0)).with_write_fd(
            STDOUT,
            Writer::Host(1),
        ).with_write_fd(STDERR, Writer::Host(2)).with_syscall(
            SYS_PANIC,
            SyscallHandler::Default,
        ).with_syscall(SYS_LOG, SyscallHandler::Default).with_syscall(
            SYS_CYCLE_COUNT,
            SyscallHandler::Default,
        )
    }

    /// Which way the host call `syscall` goes: to the handler registered
    /// under exactly that name and to nothing else if there is one, else to
    /// the random fill or to the fallback.
    pub fn route(&self, syscall: &str) -> (r: Route)
        ensures
            r == route_of(self.syscall_handlers@, self.unknown_syscall_handler, syscall@),
            self.syscall_handlers@.contains_key(syscall@) ==> r == Route::Handler(
                self.syscall_handlers@[syscall@],
            ),
    {
        match self.syscall_handlers.get(syscall) {
            Some(handler) => Route::Handler(*handler),
            None => {
                if str_eq(strip_prefix(syscall, SYSCALL_NAMESPACE), RANDOM_SHORT_NAME) {
                    Route::Random
                } else {
                    Route::Handler(self.unknown_syscall_handler)
                }
            },
        }
    }
}

impl Default for ProverOpts {
    fn default() -> (r: ProverOpts)
        ensures
            r.is_default(),
    {
        ProverOpts::defaults()
    }
}

/// A handler registered under a name is the one that a call of exactly that
/// name goes to: never the random fill, never the fallback.
pub proof fn lemma_registered_handler_is_chosen(
    handlers: Map<Seq<char>, SyscallHandler>,
    fallback: SyscallHandler,
    name: Seq<char>,
    handler: SyscallHandler,
)
    ensures
        route_of(handlers.insert(name, handler), fallback, name) == Route::Handler(handler),
{
}

/// Registering a handler under one name changes the route of no other name.
pub proof fn lemma_registration_is_by_exact_name(
    handlers: Map<Seq<char>, SyscallHandler>,
    fallback: SyscallHandler,
    name: Seq<char>,
    handler: SyscallHandler,
    other: Seq<char>,
)
    requires
        other != name,
    ensures
        route_of(handlers.insert(name, handler), fallback, other) == route_of(
            handlers,
            fallback,
            other,
        ),
{
}

/// Finalizing keeps every registration: a call under a name that held a
/// handler before goes to that handler afterwards, whatever the name.
pub proof fn lemma_registration_survives_finalize(
    handlers: Map<Seq<char>, SyscallHandler>,
    fallback: SyscallHandler,
    name: Seq<char>,
)
    requires
        handlers.contains_key(name),
    ensures
        route_of(with_late_handlers(handlers), fallback, name) == Route::Handler(handlers[name]),
        route_of(with_late_handlers(handlers), fallback, name) == route_of(
            handlers,
            fallback,
            name,
        ),
{
}

/// Finalizing changes the route of no name but the four that it installs
/// built-ins for.
pub proof fn lemma_finalize_touches_four_names(
    handlers: Map<Seq<char>, SyscallHandler>,
    fallback: SyscallHandler,
    name: Seq<char>,
)
    requires
        name != SYS_READ@,
        name != SYS_READ_AVAIL@,
        name != SYS_WRITE@,
        name != SYS_GETENV@,
    ensures
        route_of(with_late_handlers(handlers), fallback, name) == route_of(
            handlers,
            fallback,
            name,
        ),
{
}

/// After finalizing, each of the four names that held no registration goes
/// to its built-in.
pub proof fn lemma_late_names_reach_built_ins(
    handlers: Map<Seq<char>, SyscallHandler>,
    fallback: SyscallHandler,
)
    ensures
        !handlers.contains_key(SYS_READ@) ==> route_of(
            with_late_handlers(handlers),
            fallback,
            SYS_READ@,
        ) == Route::Handler(SyscallHandler::PosixIo),
        !handlers.contains_key(SYS_READ_AVAIL@) ==> route_of(
            with_late_handlers(handlers),
            fallback,
            SYS_READ_AVAIL@,
        ) == Route::Handler(SyscallHandler::PosixIo),
        !handlers.contains_key(SYS_WRITE@) ==> route_of(
            with_late_handlers(handlers),
            fallback,
            SYS_WRITE@,
        ) == Route::Handler(SyscallHandler::PosixIo),
        !handlers.contains_key(SYS_GETENV@) ==> route_of(
            with_late_handlers(handlers),
            fallback,
            SYS_GETENV@,
        ) == Route::Handler(SyscallHandler::Getenv),
{
    reveal_strlit("risc0_zkvm_platform::syscall::nr::SYS_READ");
    reveal_strlit("risc0_zkvm_platform::syscall::nr::SYS_READ_AVAIL");
    reveal_strlit("risc0_zkvm_platform::syscall::nr::SYS_WRITE");
    reveal_strlit("risc0_zkvm_platform::syscall::nr::SYS_GETENV");
    assert(SYS_READ@.len() == 42);
    assert(SYS_READ_AVAIL@.len() == 48);
    assert(SYS_WRITE@.len() == 43);
    assert(SYS_GETENV@.len() == 44);
}

} // verus!
