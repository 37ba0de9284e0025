use wasix_journal::subscription::{
    __wasi_subscription_clock_t, __wasi_subscription_fs_readwrite_t, __wasi_subscription_t,
    DecodeError, EventType, Eventtype, SubscriptionEnum, WasiSubscription, SUBSCRIPTION_SIZE,
};

fn clock_sub() -> WasiSubscription {
    WasiSubscription {
        user_data: 0x1122_3344_5566_7788,
        event_type: EventType::Clock(__wasi_subscription_clock_t {
            clock_id: 1,
            timeout: 500,
            precision: 1,
            flags: 0,
        }),
    }
}

#[test]
fn clock_round_trip() {
    let s = clock_sub();
    let raw = s.to_raw();
    assert_eq!(WasiSubscription::from_raw(&raw), Ok(s));
}

#[test]
fn read_and_write_round_trip() {
    for s in [
        WasiSubscription {
            user_data: 7,
            event_type: EventType::Read(__wasi_subscription_fs_readwrite_t { fd: 3 }),
        },
        WasiSubscription {
            user_data: u64::MAX,
            event_type: EventType::Write(__wasi_subscription_fs_readwrite_t { fd: u32::MAX }),
        },
    ] {
        let raw = s.to_raw();
        assert_eq!(WasiSubscription::from_raw(&raw), Ok(s));
    }
}

#[test]
fn encoded_layout_is_little_endian() {
    let raw = clock_sub().to_raw();
    let b = raw.as_bytes();
    assert_eq!(b.len(), SUBSCRIPTION_SIZE);
    assert_eq!(&b[0..8], &[0x88, 0x77, 0x66, 0x55, 0x44, 0x33, 0x22, 0x11]);
    assert_eq!(b[8], 0);
    assert!(b[9..16].iter().all(|&x| x == 0));
    assert_eq!(&b[16..20], &[1, 0, 0, 0]);
    assert_eq!(&b[24..32], &[0xf4, 0x01, 0, 0, 0, 0, 0, 0]);
    assert_eq!(&b[32..40], &[1, 0, 0, 0, 0, 0, 0, 0]);
}

#[test]
fn write_discriminant_is_two() {
    let s = WasiSubscription {
        user_data: 0,
        event_type: EventType::Write(__wasi_subscription_fs_readwrite_t { fd: 0x0102_0304 }),
    };
    let raw = s.to_raw();
    assert_eq!(raw.raw_type(), 2);
    assert_eq!(&raw.as_bytes()[16..20], &[4, 3, 2, 1]);
    assert!(raw.as_bytes()[20..48].iter().all(|&x| x == 0));
}

#[test]
fn unknown_discriminant_is_rejected() {
    let mut bytes = vec![0xabu8; SUBSCRIPTION_SIZE];
    bytes[8] = 3;
    let raw = __wasi_subscription_t::from_bytes(bytes).unwrap();
    assert_eq!(
        WasiSubscription::from_raw(&raw),
        Err(DecodeError::InvalidDiscriminant)
    );
    assert_eq!(raw.tagged(), None);
}

#[test]
fn wrong_length_is_refused() {
    assert!(__wasi_subscription_t::from_bytes(vec![0u8; 47]).is_none());
    assert!(__wasi_subscription_t::from_bytes(vec![0u8; 49]).is_none());
    assert!(__wasi_subscription_t::from_bytes(vec![0u8; 48]).is_some());
}

#[test]
fn zero_padding_clears_garbage_and_is_idempotent() {
    let mut bytes: Vec<u8> = (0..48).map(|i| 0x80 | i as u8).collect();
    bytes[8] = 0;
    let raw = __wasi_subscription_t::from_bytes(bytes.clone()).unwrap();
    let once = raw.zero_padded();
    let twice = once.zero_padded();
    assert_eq!(once.as_bytes(), twice.as_bytes());
    let b = once.as_bytes();
    for i in 0..48 {
        let kept = i < 9 || (16..20).contains(&i) || (24..42).contains(&i);
        if kept {
            assert_eq!(b[i], bytes[i]);
        } else {
            assert_eq!(b[i], 0);
        }
    }
}

#[test]
fn zero_padding_of_fd_wait_keeps_only_fd() {
    let mut bytes = vec![0xffu8; 48];
    bytes[8] = 1;
    let mut raw = __wasi_subscription_t::from_bytes(bytes).unwrap();
    raw.zero_padding_bytes();
    let b = raw.as_bytes();
    assert!(b[0..8].iter().all(|&x| x == 0xff));
    assert_eq!(b[8], 1);
    assert!(b[9..16].iter().all(|&x| x == 0));
    assert!(b[16..20].iter().all(|&x| x == 0xff));
    assert!(b[20..48].iter().all(|&x| x == 0));
}

#[test]
fn zero_padding_with_unknown_discriminant_clears_union() {
    let mut bytes = vec![0x5au8; 48];
    bytes[8] = 9;
    let mut raw = __wasi_subscription_t::from_bytes(bytes).unwrap();
    raw.zero_padding_bytes();
    let b = raw.as_bytes();
    assert!(b[0..8].iter().all(|&x| x == 0x5a));
    assert_eq!(b[8], 9);
    assert!(b[9..48].iter().all(|&x| x == 0));
}

#[test]
fn clock_wait_end_to_end() {
    let s = clock_sub();
    let raw = s.to_raw().zero_padded();
    assert!(raw.as_bytes()[42..48].iter().all(|&x| x == 0));
    let back = WasiSubscription::from_raw(&raw).unwrap();
    match back.event_type {
        EventType::Clock(c) => {
            assert_eq!(c.clock_id, 1);
            assert_eq!(c.timeout, 500);
            assert_eq!(c.precision, 1);
            assert_eq!(c.flags, 0);
        }
        _ => panic!("expected a clock wait"),
    }
    assert_eq!(back.user_data, 0x1122_3344_5566_7788);
}

#[test]
fn tagged_merges_read_and_write() {
    let fd = __wasi_subscription_fs_readwrite_t { fd: 9 };
    let r = WasiSubscription { user_data: 1, event_type: EventType::Read(fd) }.to_raw();
    let w = WasiSubscription { user_data: 1, event_type: EventType::Write(fd) }.to_raw();
    assert_eq!(r.tagged(), Some(SubscriptionEnum::FdReadWrite(fd)));
    assert_eq!(w.tagged(), Some(SubscriptionEnum::FdReadWrite(fd)));
    let c = clock_sub();
    match c.event_type {
        EventType::Clock(cw) => assert_eq!(c.to_raw().tagged(), Some(SubscriptionEnum::Clock(cw))),
        _ => unreachable!(),
    }
}

#[test]
fn raw_tag_of_each_variant() {
    let fd = __wasi_subscription_fs_readwrite_t { fd: 0 };
    assert_eq!(clock_sub().event_type.raw_tag(), Eventtype::Clock);
    assert_eq!(EventType::Read(fd).raw_tag(), Eventtype::FdRead);
    assert_eq!(EventType::Write(fd).raw_tag(), Eventtype::FdWrite);
    assert_eq!(Eventtype::from_raw(Eventtype::FdWrite.raw()), Some(Eventtype::FdWrite));
    assert_eq!(Eventtype::from_raw(200), None);
}
