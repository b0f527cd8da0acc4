use century_ring::{
    create_io_ring, ioring_prep_close, ioring_prep_connect_v4, ioring_prep_connect_v6,
    ioring_prep_create_socket, ioring_prep_openat, ioring_prep_read, ioring_prep_recv,
    ioring_prep_send, ioring_prep_write, timeout_barrier, ArgError, Capabilities,
    CompletionEvent, EnqueueAction, EnqueueState, KernelVersion, OpKind, Operation, OwnedData,
    OwnershipRegistry, RawCompletion, Request, RingError, RingSetup, Submission, TheIoRing,
    INTERNAL_TOKEN_BIT, SQE_SKIP_SUCCESS, TIMEOUT_TOKEN,
};
use nix::sys::socket::{SockaddrIn, SockaddrIn6};

const ALL_OPS: [u8; 9] = [11, 16, 18, 19, 22, 23, 26, 27, 45];

fn setup(entries: u32, autosubmit: bool) -> RingSetup {
    create_io_ring(entries, 0, 0, false, autosubmit, Some(KernelVersion { major: 6, minor: 1, patch: 0 }))
        .unwrap()
}

fn ring_with(ops: &[u8]) -> TheIoRing {
    TheIoRing::new(&setup(8, true), Capabilities::from_opcodes(ops))
}

fn buffer_of(sub: &Submission) -> Vec<u8> {
    match &sub.owned {
        Some(OwnedData::Buffer(b)) => b.clone(),
        _ => panic!("no owned buffer"),
    }
}

#[test]
fn construction_refuses_zero_capacity() {
    assert_eq!(
        create_io_ring(0, 0, 0, false, true, None),
        Err(RingError::InvalidArgument(ArgError::ZeroEntries))
    );
}

#[test]
fn construction_gates_on_kernel_release() {
    let old = Some(KernelVersion { major: 5, minor: 17, patch: 3 });
    assert_eq!(
        create_io_ring(8, 0, 0, false, true, old),
        Err(RingError::UnsupportedKernel { major: 5, minor: 17 })
    );
    let older = Some(KernelVersion { major: 4, minor: 19, patch: 0 });
    assert_eq!(
        create_io_ring(8, 0, 0, false, true, older),
        Err(RingError::UnsupportedKernel { major: 4, minor: 19 })
    );
    let minimum = Some(KernelVersion { major: 5, minor: 18, patch: 0 });
    assert!(create_io_ring(8, 0, 0, false, true, minimum).is_ok());
    let six_zero = Some(KernelVersion { major: 6, minor: 0, patch: 0 });
    assert!(create_io_ring(8, 0, 0, false, true, six_zero).is_ok());
}

#[test]
fn construction_picks_the_setup() {
    let five = Some(KernelVersion { major: 5, minor: 19, patch: 0 });
    let six = Some(KernelVersion { major: 6, minor: 5, patch: 0 });
    assert_eq!(
        create_io_ring(8, 32, 100, true, false, six),
        Ok(RingSetup {
            entries: 8,
            cq_entries: Some(32),
            sqpoll_idle_ms: Some(100),
            single_issuer: true,
            autosubmit: false
        })
    );
    assert_eq!(
        create_io_ring(8, 8, 0, true, true, five),
        Ok(RingSetup {
            entries: 8,
            cq_entries: None,
            sqpoll_idle_ms: None,
            single_issuer: false,
            autosubmit: true
        })
    );
    let unknown = create_io_ring(16, 4, 0, true, true, None).unwrap();
    assert_eq!(unknown.cq_entries, None);
    assert!(!unknown.single_issuer);
    assert_eq!(KernelVersion::assumed(), KernelVersion { major: 5, minor: 18, patch: 0 });
}

#[test]
fn tokens_strictly_increase() {
    let mut ring = ring_with(&ALL_OPS);
    let mut last = None;
    for expected in 0..100u64 {
        assert!(ring.can_mint_token());
        let t = ring.get_next_user_data();
        assert_eq!(t, expected);
        if let Some(prev) = last {
            assert!(t > prev);
        }
        last = Some(t);
    }
}

#[test]
fn closed_ring_refuses_everything() {
    let mut ring = ring_with(&ALL_OPS);
    assert!(ring.is_open_now());
    assert_eq!(ring.close(), Ok(()));
    assert!(!ring.is_open_now());
    assert_eq!(ring.close(), Ok(()));
    assert!(!ring.is_open_now());
    assert_eq!(ring.ensure_open(), Err(RingError::RingClosed));
    assert_eq!(ring.start_enqueue().unwrap_err(), RingError::RingClosed);
    assert_eq!(ring.get_completion_entries(vec![]).err(), Some(RingError::RingClosed));
    let closed = Some(RingError::RingClosed);
    assert_eq!(ioring_prep_openat(&ring, -100, b"/tmp/x", 1, 0, 0, 0).err(), closed);
    assert_eq!(ioring_prep_read(&ring, 3, 16, 0, 1, 0).err(), closed);
    assert_eq!(ioring_prep_write(&ring, 3, b"abc", 3, 0, 0, 1, 0).err(), closed);
    assert_eq!(ioring_prep_close(&ring, 3, 1, 0).err(), closed);
    assert_eq!(ioring_prep_create_socket(&ring, 2, 1, 0, 1, 0).err(), closed);
    let v4 = SockaddrIn::new(127, 0, 0, 1, 80);
    assert_eq!(ioring_prep_connect_v4(&ring, 3, Some(v4), 1, 0).err(), closed);
    assert_eq!(ioring_prep_send(&ring, 3, b"abc", 3, 0, 0, 1, 0).err(), closed);
    assert_eq!(ioring_prep_recv(&ring, 3, 16, 0, 1, 0).err(), closed);
}

#[test]
fn full_queue_flushes_exactly_once() {
    // a queue that never takes the entry
    let ring = ring_with(&ALL_OPS);
    let mut state = ring.start_enqueue().unwrap();
    let mut flushes = 0;
    let outcome = loop {
        match state.after_push(false) {
            EnqueueAction::Flush => {
                flushes += 1;
                assert!(state.after_flush(Ok(0)).is_ok());
            }
            other => break other,
        }
        assert!(flushes <= 1);
    };
    assert_eq!(outcome, EnqueueAction::QueueFull);
    assert_eq!(flushes, 1);
}

#[test]
fn full_queue_without_autosubmit_never_flushes() {
    let ring = TheIoRing::new(&setup(8, false), Capabilities::from_opcodes(&ALL_OPS));
    let mut state = ring.start_enqueue().unwrap();
    assert!(!state.autosubmit);
    assert_eq!(state.after_push(false), EnqueueAction::QueueFull);
}

#[test]
fn flush_makes_room() {
    let mut state = EnqueueState::new(true);
    assert_eq!(state.after_push(false), EnqueueAction::Flush);
    assert!(state.flushed);
    assert_eq!(state.after_push(true), EnqueueAction::Accepted);
    assert_eq!(state.after_flush(Err(16)), Err(RingError::Os(16)));
    let mut first = EnqueueState::new(false);
    assert_eq!(first.after_push(true), EnqueueAction::Accepted);
}

#[test]
fn open_then_drain_before_and_after_completion() {
    let mut ring = TheIoRing::new(&setup(8, true), Capabilities::from_opcodes(&ALL_OPS));
    let sub = ioring_prep_openat(&ring, -100, b"/tmp/x", 1, 0o102, 0o644, 0).unwrap();
    assert_eq!(
        sub.request,
        Request { op: Operation::OpenAt { dirfd: -100, file_flags: 0o102, mode: 0o644 }, sqe_flags: 0, user_data: 1 }
    );
    match &sub.owned {
        Some(OwnedData::OnePath(p)) => assert_eq!(p, &b"/tmp/x\0".to_vec()),
        _ => panic!("path not owned"),
    }
    ring.record_accepted(sub);
    assert!(ring.owns(1));
    let nothing = ring.get_completion_entries(vec![]).unwrap();
    assert!(nothing.is_empty());
    assert!(ring.owns(1));
    let events = ring.get_completion_entries(vec![RawCompletion { user_data: 1, result: 5 }]).unwrap();
    assert_eq!(events.len(), 1);
    assert_eq!(events[0].user_data(), 1);
    assert!(events[0].result() >= 0);
    assert!(events[0].buffer().is_none());
    assert!(!ring.owns(1));
}

#[test]
fn write_copies_the_requested_window() {
    let ring = ring_with(&ALL_OPS);
    let data = [b'a', b'b', b'c', b'd', b'e'];
    let sub = ioring_prep_write(&ring, 4, &data, 3, 1, 0, 7, 0).unwrap();
    assert_eq!(buffer_of(&sub), vec![b'b', b'c', b'd']);
    assert_eq!(sub.request.op, Operation::Write { fd: 4, offset: 0 });
    let sent = ioring_prep_send(&ring, 4, &data, 2, 3, 0, 8, 0).unwrap();
    assert_eq!(buffer_of(&sent), vec![b'd', b'e']);
}

#[test]
fn write_outside_the_buffer_is_refused() {
    let ring = ring_with(&ALL_OPS);
    let data = [1u8, 2, 3, 4, 5];
    assert_eq!(
        ioring_prep_write(&ring, 4, &data, 3, 3, 0, 7, 0).err(),
        Some(RingError::InvalidArgument(ArgError::EndOutOfRange { offset: 3, size: 3, len: 5 }))
    );
    assert_eq!(
        ioring_prep_send(&ring, 4, &data, 9, 0, 0, 7, 0).err(),
        Some(RingError::InvalidArgument(ArgError::SizeTooLarge { size: 9, len: 5 }))
    );
}

#[test]
fn receive_completion_is_cut_to_bytes_received() {
    let mut ring = ring_with(&ALL_OPS);
    let sub = ioring_prep_recv(&ring, 5, 64, 0, 3, 0).unwrap();
    assert_eq!(buffer_of(&sub), vec![0u8; 64]);
    ring.record_accepted(sub);
    let events = ring.get_completion_entries(vec![RawCompletion { user_data: 3, result: 10 }]).unwrap();
    assert_eq!(events[0].buffer().map(|b| b.len()), Some(10));
}

#[test]
fn read_completion_lengths() {
    let mut ring = ring_with(&ALL_OPS);
    for (token, result) in [(10u64, -5i32), (11, 0), (12, 16), (13, 99)] {
        let sub = ioring_prep_read(&ring, 5, 16, 0, token, 0).unwrap();
        ring.record_accepted(sub);
        let events =
            ring.get_completion_entries(vec![RawCompletion { user_data: token, result }]).unwrap();
        let expected = if result < 0 { 16 } else { std::cmp::min(16, result as usize) };
        assert_eq!(events[0].buffer().unwrap().len(), expected);
    }
}

#[test]
fn skip_success_with_owned_data_is_refused() {
    let ring = ring_with(&ALL_OPS);
    let bad = Some(RingError::InvalidArgument(ArgError::SkipSuccessWithOwnedData));
    assert_eq!(ioring_prep_read(&ring, 3, 16, 0, 1, SQE_SKIP_SUCCESS).err(), bad);
    assert_eq!(ioring_prep_openat(&ring, -100, b"/x", 1, 0, 0, 0xC0).err(), bad);
    assert_eq!(ioring_prep_write(&ring, 3, b"ab", 9, 0, 0, 1, SQE_SKIP_SUCCESS).err(), bad);
    assert_eq!(ioring_prep_connect_v4(&ring, 3, None, 1, SQE_SKIP_SUCCESS).err(), bad);
    assert!(!ring.owns(1));
    let close = ioring_prep_close(&ring, 3, 1, SQE_SKIP_SUCCESS).unwrap();
    assert_eq!(close.request.sqe_flags, SQE_SKIP_SUCCESS);
    assert!(close.owned.is_none());
}

#[test]
fn unsupported_operations_are_named() {
    let ring = ring_with(&[22]);
    assert!(ring.supports(OpKind::Read));
    assert!(!ring.supports(OpKind::Close));
    assert_eq!(ioring_prep_close(&ring, 3, 1, 0).err(), Some(RingError::NotImplemented(OpKind::Close)));
    assert_eq!(
        ioring_prep_write(&ring, 3, b"", 5, 0, 0, 1, SQE_SKIP_SUCCESS).err(),
        Some(RingError::NotImplemented(OpKind::Write))
    );
    assert_eq!(
        ioring_prep_create_socket(&ring, 2, 1, 0, 1, 0).err(),
        Some(RingError::NotImplemented(OpKind::Socket))
    );
    assert!(ioring_prep_read(&ring, 3, 8, 0, 1, 0).is_ok());
}

#[test]
fn connect_owns_the_address() {
    let ring = ring_with(&ALL_OPS);
    assert_eq!(
        ioring_prep_connect_v4(&ring, 3, None, 1, 0).err(),
        Some(RingError::InvalidArgument(ArgError::BadAddress))
    );
    let v4 = SockaddrIn::new(10, 0, 0, 2, 8080);
    let sub = ioring_prep_connect_v4(&ring, 3, Some(v4), 1, 0).unwrap();
    match &sub.owned {
        Some(OwnedData::SockAddrV4(a)) => assert_eq!(a.port(), 8080),
        _ => panic!("address not owned"),
    }
    let v6: SockaddrIn6 = "[::1]:443".parse().unwrap();
    let sub6 = ioring_prep_connect_v6(&ring, 3, Some(v6), 2, 0).unwrap();
    assert_eq!(sub6.request.op, Operation::Connect { fd: 3 });
    assert!(matches!(sub6.owned, Some(OwnedData::SockAddrV6(_))));
}

#[test]
fn unknown_flag_bits_are_dropped_from_requests() {
    let ring = ring_with(&ALL_OPS);
    let sub = ioring_prep_create_socket(&ring, 2, 1, 0, 9, 0x85).unwrap();
    assert_eq!(sub.request.sqe_flags, 0x05);
    assert_eq!(sub.request.op, Operation::Socket { domain: 2, socket_type: 1, protocol: 0 });
}

#[test]
fn internal_tokens_are_marked() {
    let barrier = timeout_barrier(1, 500);
    assert_eq!(barrier.user_data, TIMEOUT_TOKEN);
    assert_eq!(barrier.sqe_flags, SQE_SKIP_SUCCESS);
    assert_eq!(barrier.op, Operation::Timeout { sec: 1, nsec: 500 });
    let internal = CompletionEvent { user_data: TIMEOUT_TOKEN, result: -62, buffer: None };
    assert!(internal.should_be_ignored());
    let edge = CompletionEvent { user_data: INTERNAL_TOKEN_BIT, result: 0, buffer: None };
    assert!(edge.should_be_ignored());
    let real = CompletionEvent { user_data: INTERNAL_TOKEN_BIT - 1, result: 0, buffer: None };
    assert!(!real.should_be_ignored());
}

#[test]
fn harvest_takes_each_entry_once() {
    let mut registry = OwnershipRegistry::new();
    registry.store(1, OwnedData::Buffer(vec![9; 8]));
    registry.store(2, OwnedData::OnePath(b"/p\0".to_vec()));
    let raw = vec![
        RawCompletion { user_data: 1, result: 3 },
        RawCompletion { user_data: 1, result: 3 },
        RawCompletion { user_data: 2, result: 4 },
        RawCompletion { user_data: 77, result: -2 },
    ];
    let events = century_ring::harvest(&mut registry, raw);
    assert_eq!(events.len(), 4);
    assert_eq!(events[0].buffer(), Some(&[9u8, 9, 9][..]));
    assert_eq!(events[1].buffer(), None);
    assert_eq!(events[2].buffer(), None);
    assert_eq!(events[3].result(), -2);
    assert_eq!(events[3].user_data(), 77);
    assert_eq!(registry.len(), 0);
}

#[test]
fn registry_store_and_take() {
    let mut registry = OwnershipRegistry::new();
    assert_eq!(registry.len(), 0);
    registry.store(5, OwnedData::Buffer(vec![1]));
    assert!(registry.contains(5));
    assert!(matches!(registry.take(5), Some(OwnedData::Buffer(b)) if b == vec![1]));
    assert!(registry.take(5).is_none());
    assert!(!registry.contains(5));
}

#[test]
fn empty_probe_supports_nothing() {
    let probe = io_uring::Probe::new();
    let caps = Capabilities::from_probe(&probe);
    for op in 0..=255u8 {
        assert!(!caps.is_supported(op));
    }
    let none = Capabilities::none();
    assert!(!none.is_supported(22));
    let mut some = Capabilities::none();
    some.insert(45);
    assert!(some.is_supported(45));
    assert!(!some.is_supported(44));
}

#[test]
fn ownership_recorded_only_when_accepted() {
    let mut ring = ring_with(&ALL_OPS);
    let refused = ioring_prep_read(&ring, 3, 16, 0, 40, 0).unwrap();
    assert_eq!(ring.finish_enqueue(refused, EnqueueAction::QueueFull), Err(RingError::QueueFull));
    assert!(!ring.owns(40));
    let accepted = ioring_prep_read(&ring, 3, 16, 0, 41, 0).unwrap();
    assert_eq!(ring.finish_enqueue(accepted, EnqueueAction::Accepted), Ok(()));
    assert!(ring.owns(41));
    let close = ioring_prep_close(&ring, 3, 42, 0).unwrap();
    assert_eq!(ring.finish_enqueue(close, EnqueueAction::Accepted), Ok(()));
    assert!(!ring.owns(42));
}
