use zkvm_prover::opts::{ProverOpts, Route, SyscallHandler};
use zkvm_prover::prover::Prover;
use zkvm_prover::receipt::Digest;
use zkvm_prover::syscall::{
    default_syscall, finish_random, getenv, log_line, sys_random, unknown_syscall, Outcome,
    SyscallError,
    GETENV_NOT_FOUND, SYS_CYCLE_COUNT, SYS_GETENV, SYS_LOG, SYS_PANIC, SYS_RANDOM, SYS_READ,
    SYS_READ_AVAIL, SYS_WRITE,
};
use zkvm_prover::text::{decimal_string, hex_string, str_eq, strip_prefix};

fn root(n: u32) -> Digest {
    Digest { words: [n, 0, 0, 0, 0, 0, 0, n] }
}

fn env_of(pairs: &[(&str, &str)]) -> ProverOpts {
    let mut opts = ProverOpts::without_defaults();
    for (k, v) in pairs {
        opts = opts.with_env_var(k, v);
    }
    opts
}

#[test]
fn registered_handler_is_the_one_chosen() {
    let opts = ProverOpts::default().with_syscall("X", SyscallHandler::Host(7));
    assert_eq!(opts.route("X"), Route::Handler(SyscallHandler::Host(7)));
    assert_eq!(opts.route("x"), Route::Handler(SyscallHandler::Unknown));
    assert_eq!(opts.route("X "), Route::Handler(SyscallHandler::Unknown));

    let prover = Prover::from_image(root(1), 0x400, opts);
    let mut to_guest = vec![9u8; 4];
    match prover.on_txrx("X", b"payload", 3, &mut to_guest) {
        Ok(Outcome::Host(7)) => {}
        other => panic!("went elsewhere: {:?}", other),
    }
    assert_eq!(to_guest, vec![9u8; 4]);
}

#[test]
fn registration_beats_built_in_and_fallback() {
    let opts = ProverOpts::default()
        .with_syscall(SYS_RANDOM, SyscallHandler::Host(1))
        .with_syscall(SYS_PANIC, SyscallHandler::SliceIo(2))
        .with_unknown_syscall_handler(SyscallHandler::Host(99));
    assert_eq!(opts.route(SYS_RANDOM), Route::Handler(SyscallHandler::Host(1)));
    assert_eq!(opts.route(SYS_PANIC), Route::Handler(SyscallHandler::SliceIo(2)));
    assert_eq!(opts.route(SYS_LOG), Route::Handler(SyscallHandler::Default));
    assert_eq!(opts.route("SYS_RANDOM"), Route::Random);
    assert_eq!(opts.route("anything else"), Route::Handler(SyscallHandler::Host(99)));

    let prover = Prover::from_image(root(1), 0, opts);
    let mut to_guest = vec![0u8; 8];
    assert!(matches!(
        prover.on_txrx(SYS_RANDOM, &[], 0, &mut to_guest),
        Ok(Outcome::Host(1))
    ));
    assert_eq!(to_guest, vec![0u8; 8]);
    assert!(matches!(
        prover.on_txrx(SYS_PANIC, b"oh no", 0, &mut to_guest),
        Ok(Outcome::SliceIo(2))
    ));
}

#[test]
fn slice_handlers_register_like_raw_ones() {
    let opts = ProverOpts::without_defaults()
        .with_slice_io("ECHO", 4)
        .with_sendrecv_callback("SUM", 5);
    assert_eq!(opts.route("ECHO"), Route::Handler(SyscallHandler::SliceIo(4)));
    assert_eq!(opts.route("SUM"), Route::Handler(SyscallHandler::SliceIo(5)));
    let opts = opts.with_slice_io("ECHO", 6);
    assert_eq!(opts.route("ECHO"), Route::Handler(SyscallHandler::SliceIo(6)));
}

#[test]
fn default_routes() {
    let opts = ProverOpts::default();
    assert_eq!(opts.route(SYS_PANIC), Route::Handler(SyscallHandler::Default));
    assert_eq!(opts.route(SYS_LOG), Route::Handler(SyscallHandler::Default));
    assert_eq!(opts.route(SYS_CYCLE_COUNT), Route::Handler(SyscallHandler::Default));
    assert_eq!(opts.route(SYS_RANDOM), Route::Random);
    assert_eq!(opts.route("SYS_RANDOM"), Route::Random);
    assert_eq!(opts.route("SYS_RANDOMX"), Route::Handler(SyscallHandler::Unknown));
    // Nothing answers to these until the options are finalized.
    assert_eq!(opts.route(SYS_READ), Route::Handler(SyscallHandler::Unknown));
    assert_eq!(opts.route(SYS_GETENV), Route::Handler(SyscallHandler::Unknown));

    let opts = opts.finalize();
    assert_eq!(opts.route(SYS_READ), Route::Handler(SyscallHandler::PosixIo));
    assert_eq!(opts.route(SYS_READ_AVAIL), Route::Handler(SyscallHandler::PosixIo));
    assert_eq!(opts.route(SYS_WRITE), Route::Handler(SyscallHandler::PosixIo));
    assert_eq!(opts.route(SYS_GETENV), Route::Handler(SyscallHandler::Getenv));

    let bare = ProverOpts::without_defaults();
    assert_eq!(bare.route(SYS_PANIC), Route::Handler(SyscallHandler::Unknown));
    assert_eq!(bare.route(SYS_RANDOM), Route::Random);
}

#[test]
fn unknown_syscall_is_fatal() {
    let prover = Prover::new(root(1), 0);
    let mut to_guest = vec![1u8, 2, 3, 4];
    match prover.on_txrx("SYS_TELEPORT", &[], 0, &mut to_guest) {
        Err(SyscallError::UnknownSyscall(name)) => assert_eq!(name, "SYS_TELEPORT"),
        other => panic!("an unknown host call was answered: {:?}", other),
    }
    assert_eq!(to_guest, vec![1u8, 2, 3, 4]);
    assert_eq!(
        unknown_syscall("SYS_TELEPORT").to_string(),
        "Unknown syscall: SYS_TELEPORT"
    );
}

#[test]
fn getenv_unset_gives_sentinel() {
    let env = env_of(&[("FOO", "bar")]);
    let mut dest = vec![0xAAu8; 8];
    match getenv(&env.env_vars, b"BAR", &mut dest) {
        Ok(Outcome::Return(a0, a1)) => {
            assert_eq!(a0, u32::MAX);
            assert_eq!(a0, GETENV_NOT_FOUND);
            assert_eq!(a1, 0);
        }
        other => panic!("{:?}", other),
    }
    assert_eq!(dest, vec![0xAAu8; 8]);
}

#[test]
fn getenv_set_copies_and_returns_true_length() {
    let env = env_of(&[("FOO", "bar")]);
    let mut dest = vec![0xAAu8; 8];
    assert!(matches!(getenv(&env.env_vars, b"FOO", &mut dest), Ok(Outcome::Return(3, 0))));
    assert_eq!(dest, vec![b'b', b'a', b'r', 0xAA, 0xAA, 0xAA, 0xAA, 0xAA]);

    let mut exact = vec![0u8; 3];
    assert!(matches!(getenv(&env.env_vars, b"FOO", &mut exact), Ok(Outcome::Return(3, 0))));
    assert_eq!(exact, b"bar".to_vec());
}

#[test]
fn getenv_truncates_to_capacity() {
    let env = env_of(&[("FOO", "bar")]);
    let mut dest = vec![0u8; 2];
    assert!(matches!(getenv(&env.env_vars, b"FOO", &mut dest), Ok(Outcome::Return(3, 0))));
    assert_eq!(dest, b"ba".to_vec());

    let mut none: Vec<u8> = vec![];
    assert!(matches!(getenv(&env.env_vars, b"FOO", &mut none), Ok(Outcome::Return(3, 0))));
    assert!(none.is_empty());
}

#[test]
fn getenv_counts_bytes_not_characters() {
    let env = env_of(&[("GRUSS", "grüß")]);
    let mut dest = vec![0u8; 16];
    assert!(matches!(getenv(&env.env_vars, b"GRUSS", &mut dest), Ok(Outcome::Return(6, 0))));
    assert_eq!(&dest[..6], "grüß".as_bytes());
}

#[test]
fn getenv_refuses_bad_utf8() {
    let env = env_of(&[("FOO", "bar")]);
    let mut dest = vec![7u8; 4];
    assert!(matches!(
        getenv(&env.env_vars, &[0xff, 0xfe], &mut dest),
        Err(SyscallError::InvalidUtf8)
    ));
    assert_eq!(dest, vec![7u8; 4]);
}

#[test]
fn getenv_through_the_prover_reads_the_bound_environment() {
    let opts = ProverOpts::default().with_env_var("FOO", "bar").with_env_var("FOO", "baz!");
    let mut prover = Prover::from_image(root(2), 0, opts);
    let mut dest = vec![0u8; 8];
    // Before the first run nothing answers to getenv.
    assert!(matches!(
        prover.on_txrx(SYS_GETENV, b"FOO", 0, &mut dest),
        Err(SyscallError::UnknownSyscall(_))
    ));
    prover.begin_run(false);
    assert!(matches!(
        prover.on_txrx(SYS_GETENV, b"FOO", 0, &mut dest),
        Ok(Outcome::Return(4, 0))
    ));
    assert_eq!(&dest[..4], b"baz!");
    assert!(matches!(
        prover.on_txrx(SYS_GETENV, b"HOME", 0, &mut dest),
        Ok(Outcome::Return(u32::MAX, 0))
    ));
}

#[test]
fn guest_panic_carries_the_message() {
    match default_syscall(SYS_PANIC, b"boom", 12) {
        Err(SyscallError::GuestPanic(msg)) => {
            assert_eq!(msg, "boom");
            assert_eq!(
                SyscallError::GuestPanic(msg).to_string(),
                "Guest panicked: boom"
            );
        }
        other => panic!("{:?}", other),
    }
    assert!(matches!(
        default_syscall(SYS_PANIC, &[0xc0], 12),
        Err(SyscallError::InvalidUtf8)
    ));
}

#[test]
fn log_line_comes_back_with_its_cycle() {
    match default_syscall(SYS_LOG, "hello wörld".as_bytes(), 77) {
        Ok(Outcome::Log { cycle, msg }) => {
            assert_eq!(cycle, 77);
            assert_eq!(msg, "hello wörld");
            assert_eq!(log_line(cycle, &msg), "R0VM[77] hello wörld");
        }
        other => panic!("{:?}", other),
    }
    assert!(matches!(
        default_syscall(SYS_LOG, &[0x80], 1),
        Err(SyscallError::InvalidUtf8)
    ));
}

#[test]
fn cycle_count_is_the_low_word() {
    assert!(matches!(
        default_syscall(SYS_CYCLE_COUNT, &[0xff], 1234),
        Ok(Outcome::Return(1234, 0))
    ));
    let big: usize = (1usize << 32) + 5;
    assert!(matches!(
        default_syscall(SYS_CYCLE_COUNT, &[], big),
        Ok(Outcome::Return(5, 0))
    ));
    assert!(matches!(
        default_syscall(SYS_CYCLE_COUNT, &[], 0xffff_ffff),
        Ok(Outcome::Return(0xffff_ffff, 0))
    ));
}

#[test]
fn default_handler_knows_three_names_only() {
    match default_syscall(SYS_GETENV, b"FOO", 0) {
        Err(SyscallError::UnknownSyscall(name)) => assert_eq!(name, SYS_GETENV),
        other => panic!("{:?}", other),
    }
}

#[test]
fn random_fill_overwrites_the_buffer() {
    let mut buf = vec![0u8; 64];
    assert!(matches!(sys_random(&mut buf), Ok(Outcome::Return(0, 0))));
    assert_eq!(buf.len(), 64);
    assert!(buf.iter().any(|b| *b != 0));

    let mut empty: Vec<u8> = vec![];
    assert!(matches!(sys_random(&mut empty), Ok(Outcome::Return(0, 0))));
    assert!(empty.is_empty());
}

#[test]
fn random_fill_through_the_prover() {
    let prover = Prover::new(root(3), 0);
    let mut a = vec![0u8; 32];
    let mut b = vec![0u8; 32];
    assert!(matches!(prover.on_txrx(SYS_RANDOM, &[], 0, &mut a), Ok(Outcome::Return(0, 0))));
    assert!(matches!(prover.on_txrx("SYS_RANDOM", &[], 0, &mut b), Ok(Outcome::Return(0, 0))));
    assert_eq!(a.len(), 32);
    assert_ne!(a, b);
}

#[test]
fn error_messages() {
    assert_eq!(SyscallError::InvalidUtf8.to_string(), "invalid utf-8 from the guest");
    assert_eq!(
        SyscallError::RandomUnavailable.to_string(),
        "the random source is unavailable"
    );
    assert_eq!(SyscallError::UnregisteredFd(9).to_string(), "bad file descriptor");
}

#[test]
fn prefix_is_stripped_only_from_the_front() {
    assert_eq!(strip_prefix("ns::NAME", "ns::"), "NAME");
    assert_eq!(strip_prefix("NAME", "ns::"), "NAME");
    assert_eq!(strip_prefix("xns::NAME", "ns::"), "xns::NAME");
    assert_eq!(strip_prefix("ns::", "ns::"), "");
    assert_eq!(strip_prefix("ns", "ns::"), "ns");
    assert_eq!(strip_prefix("ns::ns::N", "ns::"), "ns::N");
    assert_eq!(strip_prefix("äö::ü", "äö::"), "ü");
    assert_eq!(strip_prefix("abc", ""), "abc");
    assert!(str_eq("abc", "abc"));
    assert!(!str_eq("abc", "abd"));
    assert!(!str_eq("abc", "ab"));
}

#[test]
fn numbers_as_text() {
    assert_eq!(decimal_string(0), "0");
    assert_eq!(decimal_string(9), "9");
    assert_eq!(decimal_string(10), "10");
    assert_eq!(decimal_string(1234567890), "1234567890");
    assert_eq!(decimal_string(u64::MAX), "18446744073709551615");
    assert_eq!(hex_string(0), "0x00000000");
    assert_eq!(hex_string(0xdead_beef), "0xDEADBEEF");
    assert_eq!(hex_string(0x10), "0x00000010");
}

#[test]
fn failed_random_source_leaves_the_buffer() {
    let mut buf = vec![3u8; 4];
    let outcome = finish_random(&mut buf, vec![9u8; 4], Err(getrandom::Error::UNSUPPORTED));
    assert!(matches!(outcome, Err(SyscallError::RandomUnavailable)));
    assert_eq!(buf, vec![3u8; 4]);

    let outcome = finish_random(&mut buf, vec![9u8; 4], Ok(()));
    assert!(matches!(outcome, Ok(Outcome::Return(0, 0))));
    assert_eq!(buf, vec![9u8; 4]);
}
