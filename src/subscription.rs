//! The event subscription record that a guest hands to the host to wait on
//! several event sources at once, and its tagged view.
//!
//! The record is 48 bytes, little-endian, laid out as the C structure
//! `{ userdata: u64, type: u8, u: union { clock, fd_readwrite } }`:
//!
//! | bytes   | field                          |
//! |---------|--------------------------------|
//! | 0..8    | `userdata`                     |
//! | 8       | `type`                         |
//! | 9..16   | padding                        |
//! | 16..48  | `u`                            |
//!
//! Inside `u`, a clock wait holds `clock_id` at 16..20, padding at 20..24,
//! `timeout` at 24..32, `precision` at 32..40, `flags` at 40..42 and padding up
//! to 48; a descriptor wait holds `fd` at 16..20 and nothing after it.
use vstd::prelude::*;

use crate::bytes::{
    le16, le32, le64, push_u16, push_u32, push_u64, push_zeros, read_u16, read_u32, read_u64,
    u16_at, u32_at, u64_at, zeros, lemma_u16_round_trip, lemma_u32_round_trip,
    lemma_u64_round_trip,
};

verus! {

#[allow(non_camel_case_types)]
pub type __wasi_userdata_t = u64;

#[allow(non_camel_case_types)]
pub type __wasi_timestamp_t = u64;

#[allow(non_camel_case_types)]
pub type __wasi_fd_t = u32;

/// Size of the whole record in bytes.
pub const SUBSCRIPTION_SIZE: usize = 48;

/// Offset of the `type` discriminant.
pub const TYPE_OFFSET: usize = 8;

/// Offset of the payload union.
pub const UNION_OFFSET: usize = 16;

pub const CLOCK_ID_OFFSET: usize = 16;

pub const TIMEOUT_OFFSET: usize = 24;

pub const PRECISION_OFFSET: usize = 32;

pub const FLAGS_OFFSET: usize = 40;

/// First byte after the `flags` field of a clock wait.
pub const FLAGS_END: usize = 42;

pub const FD_OFFSET: usize = 16;

/// First byte after the `fd` field of a descriptor wait.
pub const FD_END: usize = 20;

/// The kind of event a subscription waits for.
#[derive(Debug, Clone, Copy, PartialEq, Eq, Structural)]
pub enum Eventtype {
    Clock,
    FdRead,
    FdWrite,
}

impl Eventtype {
    /// The discriminant byte of each kind.
    pub open spec fn spec_raw(self) -> u8 {
        match self {
            Eventtype::Clock => 0,
            Eventtype::FdRead => 1,
            Eventtype::FdWrite => 2,
        }
    }

    /// The kind a discriminant byte names, if any.
    pub open spec fn spec_from_raw(b: u8) -> Option<Eventtype> {
        if b == 0 {
            Some(Eventtype::Clock)
        } else if b == 1 {
            Some(Eventtype::FdRead)
        } else if b == 2 {
            Some(Eventtype::FdWrite)
        } else {
            None
        }
    }

    pub fn raw(self) -> (r: u8)
        ensures
            r == self.spec_raw(),
    {
        match self {
            Eventtype::Clock => 0,
            Eventtype::FdRead => 1,
            Eventtype::FdWrite => 2,
        }
    }

    pub fn from_raw(b: u8) -> (r: Option<Eventtype>)
        ensures
            r == Self::spec_from_raw(b),
    {
        if b == 0 {
            Some(Eventtype::Clock)
        } else if b == 1 {
            Some(Eventtype::FdRead)
        } else if b == 2 {
            Some(Eventtype::FdWrite)
        } else {
            None
        }
    }
}

/// Wait until a clock reaches a timeout.
#[allow(non_camel_case_types)]
#[derive(Debug, Clone, Copy, PartialEq, Eq, Structural)]
pub struct __wasi_subscription_clock_t {
    pub clock_id: u32,
    pub timeout: __wasi_timestamp_t,
    pub precision: __wasi_timestamp_t,
    pub flags: u16,
}

/// Wait until a file descriptor is readable or writable.
#[allow(non_camel_case_types)]
#[derive(Debug, Clone, Copy, PartialEq, Eq, Structural)]
pub struct __wasi_subscription_fs_readwrite_t {
    pub fd: __wasi_fd_t,
}

/// The tagged view of a subscription's discriminant and payload.
#[derive(Debug, Clone, Copy, PartialEq, Eq, Structural)]
pub enum EventType {
    Clock(__wasi_subscription_clock_t),
    Read(__wasi_subscription_fs_readwrite_t),
    Write(__wasi_subscription_fs_readwrite_t),
}

impl EventType {
    pub open spec fn spec_raw_tag(self) -> Eventtype {
        match self {
            EventType::Clock(_) => Eventtype::Clock,
            EventType::Read(_) => Eventtype::FdRead,
            EventType::Write(_) => Eventtype::FdWrite,
        }
    }

    /// The discriminant that goes with this variant.
    pub fn raw_tag(&self) -> (r: Eventtype)
        ensures
            r == self.spec_raw_tag(),
    {
        match self {
            EventType::Clock(_) => Eventtype::Clock,
            EventType::Read(_) => Eventtype::FdRead,
            EventType::Write(_) => Eventtype::FdWrite,
        }
    }
}

/// A subscription in tagged form.
#[derive(Debug, Clone, Copy, PartialEq, Eq, Structural)]
pub struct WasiSubscription {
    pub user_data: __wasi_userdata_t,
    pub event_type: EventType,
}

/// The payload of a subscription, where reading and writing share one shape.
#[derive(Debug, Clone, Copy, PartialEq, Eq, Structural)]
pub enum SubscriptionEnum {
    Clock(__wasi_subscription_clock_t),
    FdReadWrite(__wasi_subscription_fs_readwrite_t),
}

/// Why a record cannot be read as a subscription.
#[derive(Debug, Clone, Copy, PartialEq, Eq, Structural)]
pub enum DecodeError {
    /// The discriminant byte names no known event kind.
    InvalidDiscriminant,
}

/// The 32 bytes of the union for a clock wait.
pub open spec fn clock_bytes(c: __wasi_subscription_clock_t) -> Seq<u8> {
    le32(c.clock_id) + zeros(4) + le64(c.timeout) + le64(c.precision) + le16(c.flags) + zeros(6)
}

/// The 32 bytes of the union for a descriptor wait.
pub open spec fn fd_bytes(f: __wasi_subscription_fs_readwrite_t) -> Seq<u8> {
    le32(f.fd) + zeros(28)
}

pub open spec fn payload_bytes(e: EventType) -> Seq<u8> {
    match e {
        EventType::Clock(c) => clock_bytes(c),
        EventType::Read(f) => fd_bytes(f),
        EventType::Write(f) => fd_bytes(f),
    }
}

/// The record that encodes `s`, with every byte that no field covers zero.
pub open spec fn subscription_bytes(s: WasiSubscription) -> Seq<u8> {
    le64(s.user_data) + seq![s.event_type.spec_raw_tag().spec_raw()] + zeros(7) + payload_bytes(
        s.event_type,
    )
}

pub open spec fn clock_at(w: Seq<u8>) -> __wasi_subscription_clock_t {
    __wasi_subscription_clock_t {
        clock_id: u32_at(w, CLOCK_ID_OFFSET as int),
        timeout: u64_at(w, TIMEOUT_OFFSET as int),
        precision: u64_at(w, PRECISION_OFFSET as int),
        flags: u16_at(w, FLAGS_OFFSET as int),
    }
}

pub open spec fn fd_at(w: Seq<u8>) -> __wasi_subscription_fs_readwrite_t {
    __wasi_subscription_fs_readwrite_t { fd: u32_at(w, FD_OFFSET as int) }
}

/// What a 48-byte record reads as: the discriminant byte picks the payload,
/// and an unknown discriminant reads as nothing.
pub open spec fn decode_bytes(w: Seq<u8>) -> Result<WasiSubscription, DecodeError> {
    match Eventtype::spec_from_raw(w[TYPE_OFFSET as int]) {
        None => Err(DecodeError::InvalidDiscriminant),
        Some(t) => Ok(
            WasiSubscription {
                user_data: u64_at(w, 0),
                event_type: match t {
                    Eventtype::Clock => EventType::Clock(clock_at(w)),
                    Eventtype::FdRead => EventType::Read(fd_at(w)),
                    Eventtype::FdWrite => EventType::Write(fd_at(w)),
                },
            },
        ),
    }
}

/// What `tagged` reads from a 48-byte record.
pub open spec fn tagged_bytes(w: Seq<u8>) -> Option<SubscriptionEnum> {
    match Eventtype::spec_from_raw(w[TYPE_OFFSET as int]) {
        None => None,
        Some(Eventtype::Clock) => Some(SubscriptionEnum::Clock(clock_at(w))),
        Some(_) => Some(SubscriptionEnum::FdReadWrite(fd_at(w))),
    }
}

/// Whether byte `i` of a record with discriminant `tag` belongs to a field:
/// `userdata` and `type` always, then the fields of the payload that `tag`
/// selects. Under an unknown discriminant no payload byte belongs to a field.
pub open spec fn significant(tag: u8, i: int) -> bool {
    ||| 0 <= i < TYPE_OFFSET + 1
    ||| tag == Eventtype::Clock.spec_raw() && CLOCK_ID_OFFSET <= i < CLOCK_ID_OFFSET + 4
    ||| tag == Eventtype::Clock.spec_raw() && TIMEOUT_OFFSET <= i < FLAGS_END
    ||| (tag == Eventtype::FdRead.spec_raw() || tag == Eventtype::FdWrite.spec_raw()) && FD_OFFSET
        <= i < FD_END
}

/// The record `w` with every byte that belongs to no field set to zero.
pub open spec fn padded(w: Seq<u8>) -> Seq<u8> {
    Seq::new(
        w.len(),
        |i: int|
            if significant(w[TYPE_OFFSET as int], i) {
                w[i]
            } else {
                0u8
            },
    )
}

fn is_significant(tag: u8, i: usize) -> (r: bool)
    ensures
        r == significant(tag, i as int),
{
    if i <= TYPE_OFFSET {
        true
    } else if tag == 0 {
        (CLOCK_ID_OFFSET <= i && i < CLOCK_ID_OFFSET + 4) || (TIMEOUT_OFFSET <= i && i < FLAGS_END)
    } else if tag == 1 || tag == 2 {
        FD_OFFSET <= i && i < FD_END
    } else {
        false
    }
}

/// A subscription record as it crosses the guest/host boundary.
#[allow(non_camel_case_types)]
#[derive(Debug, Clone)]
pub struct __wasi_subscription_t {
    bytes: Vec<u8>,
}

impl View for __wasi_subscription_t {
    type V = Seq<u8>;

    closed spec fn view(&self) -> Seq<u8> {
        self.bytes@
    }
}

impl __wasi_subscription_t {
    /// Every record this type holds is `SUBSCRIPTION_SIZE` bytes long.
    pub open spec fn wf(&self) -> bool {
        self@.len() == SUBSCRIPTION_SIZE
    }

    /// Takes a record of unknown provenance; `None` unless it has exactly
    /// `SUBSCRIPTION_SIZE` bytes.
    pub fn from_bytes(bytes: Vec<u8>) -> (r: Option<Self>)
        ensures
            r is Some <==> bytes@.len() == SUBSCRIPTION_SIZE,
            r matches Some(w) ==> w@ == bytes@ && w.wf(),
    {
        if bytes.len() == SUBSCRIPTION_SIZE {
            Some(__wasi_subscription_t { bytes })
        } else {
            None
        }
    }

    /// The raw bytes of the record.
    pub fn as_bytes(&self) -> (r: &Vec<u8>)
        ensures
            r@ == self@,
    {
        &self.bytes
    }

    /// The discriminant byte.
    pub fn raw_type(&self) -> (r: u8)
        requires
            self.wf(),
        ensures
            r == self@[TYPE_OFFSET as int],
    {
        self.bytes[TYPE_OFFSET]
    }

    /// The record that encodes `ws`: the discriminant of its variant, the
    /// matching payload, and zero in every other byte.
    pub fn from_subscription(ws: &WasiSubscription) -> (r: Self)
        ensures
            r@ == subscription_bytes(*ws),
            r.wf(),
    {
        let mut bytes: Vec<u8> = Vec::new();
        push_u64(&mut bytes, ws.user_data);
        bytes.push(ws.event_type.raw_tag().raw());
        push_zeros(&mut bytes, UNION_OFFSET - TYPE_OFFSET - 1);
        let ghost head = bytes@;
        match ws.event_type {
            EventType::Clock(c) => {
                push_u32(&mut bytes, c.clock_id);
                push_zeros(&mut bytes, TIMEOUT_OFFSET - CLOCK_ID_OFFSET - 4);
                push_u64(&mut bytes, c.timeout);
                push_u64(&mut bytes, c.precision);
                push_u16(&mut bytes, c.flags);
                push_zeros(&mut bytes, SUBSCRIPTION_SIZE - FLAGS_END);
                assert(bytes@ =~= head + clock_bytes(c));
            },
            EventType::Read(f) | EventType::Write(f) => {
                push_u32(&mut bytes, f.fd);
                push_zeros(&mut bytes, SUBSCRIPTION_SIZE - FD_END);
                assert(bytes@ =~= head + fd_bytes(f));
            },
        }
        assert(bytes@ =~= subscription_bytes(*ws));
        __wasi_subscription_t { bytes }
    }

    /// Sets every byte that belongs to no field to zero: the padding after
    /// `type`, and the part of the union that the discriminant does not
    /// select (all of it under an unknown discriminant).
    pub fn zero_padding_bytes(&mut self)
        requires
            old(self).wf(),
        ensures
            final(self)@ == padded(old(self)@),
            final(self).wf(),
    {
        let tag = self.bytes[TYPE_OFFSET];
        let ghost start = self.bytes@;
        let mut i: usize = 0;
        while i < SUBSCRIPTION_SIZE
            invariant
                i <= SUBSCRIPTION_SIZE,
                start.len() == SUBSCRIPTION_SIZE,
                tag == start[TYPE_OFFSET as int],
                self.bytes@.len() == SUBSCRIPTION_SIZE,
                forall|j: int| 0 <= j < i ==> self.bytes@[j] == padded(start)[j],
                forall|j: int| i <= j < SUBSCRIPTION_SIZE ==> self.bytes@[j] == start[j],
            decreases SUBSCRIPTION_SIZE - i,
        {
            if !is_significant(tag, i) {
                self.bytes.set(i, 0u8);
            }
            i = i + 1;
        }
        assert(self.bytes@ =~= padded(start));
    }

    /// A copy of the record with its padding set to zero.
    pub fn zero_padded(&self) -> (r: Self)
        requires
            self.wf(),
        ensures
            r@ == padded(self@),
            r.wf(),
    {
        let mut r = __wasi_subscription_t { bytes: self.bytes.clone() };
        assert(r.bytes@ =~= self.bytes@);
        r.zero_padding_bytes();
        r
    }

    /// The payload, read as the discriminant selects it; `None` under an
    /// unknown discriminant.
    pub fn tagged(&self) -> (r: Option<SubscriptionEnum>)
        requires
            self.wf(),
        ensures
            r == tagged_bytes(self@),
    {
        match Eventtype::from_raw(self.bytes[TYPE_OFFSET]) {
            None => None,
            Some(Eventtype::Clock) => Some(SubscriptionEnum::Clock(self.read_clock())),
            Some(_) => Some(SubscriptionEnum::FdReadWrite(self.read_fd())),
        }
    }

    fn read_clock(&self) -> (r: __wasi_subscription_clock_t)
        requires
            self.wf(),
        ensures
            r == clock_at(self@),
    {
        __wasi_subscription_clock_t {
            clock_id: read_u32(&self.bytes, CLOCK_ID_OFFSET),
            timeout: read_u64(&self.bytes, TIMEOUT_OFFSET),
            precision: read_u64(&self.bytes, PRECISION_OFFSET),
            flags: read_u16(&self.bytes, FLAGS_OFFSET),
        }
    }

    fn read_fd(&self) -> (r: __wasi_subscription_fs_readwrite_t)
        requires
            self.wf(),
        ensures
            r == fd_at(self@),
    {
        __wasi_subscription_fs_readwrite_t { fd: read_u32(&self.bytes, FD_OFFSET) }
    }
}

impl WasiSubscription {
    /// Reads a record; fails with `InvalidDiscriminant` exactly when the
    /// discriminant byte names no known kind, and then reads no payload.
    pub fn from_raw(ws: &__wasi_subscription_t) -> (r: Result<WasiSubscription, DecodeError>)
        requires
            ws.wf(),
        ensures
            r == decode_bytes(ws@),
            r is Err <==> Eventtype::spec_from_raw(ws@[TYPE_OFFSET as int]) is None,
    {
        let event_type = match Eventtype::from_raw(ws.raw_type()) {
            None => {
                return Err(DecodeError::InvalidDiscriminant);
            },
            Some(Eventtype::Clock) => EventType::Clock(ws.read_clock()),
            Some(Eventtype::FdRead) => EventType::Read(ws.read_fd()),
            Some(Eventtype::FdWrite) => EventType::Write(ws.read_fd()),
        };
        Ok(WasiSubscription { user_data: read_u64(&ws.bytes, 0), event_type })
    }

    /// The record that encodes this subscription.
    pub fn to_raw(&self) -> (r: __wasi_subscription_t)
        ensures
            r@ == subscription_bytes(*self),
            r.wf(),
    {
        __wasi_subscription_t::from_subscription(self)
    }
}

/// Decoding the record that encodes a subscription gives that subscription
/// back.
pub proof fn lemma_decode_encode(s: WasiSubscription)
    ensures
        subscription_bytes(s).len() == SUBSCRIPTION_SIZE,
        decode_bytes(subscription_bytes(s)) == Ok::<WasiSubscription, DecodeError>(s),
{
    let w = subscription_bytes(s);
    let head = le64(s.user_data) + seq![s.event_type.spec_raw_tag().spec_raw()] + zeros(7);
    assert(w == head + payload_bytes(s.event_type));
    assert(head.len() == 16);
    assert(w.subrange(0, 8) =~= le64(s.user_data));
    lemma_u64_round_trip(s.user_data, w, 0);
    assert(w[TYPE_OFFSET as int] == s.event_type.spec_raw_tag().spec_raw());
    match s.event_type {
        EventType::Clock(c) => {
            assert(w.subrange(16, 20) =~= le32(c.clock_id));
            assert(w.subrange(24, 32) =~= le64(c.timeout));
            assert(w.subrange(32, 40) =~= le64(c.precision));
            assert(w.subrange(40, 42) =~= le16(c.flags));
            lemma_u32_round_trip(c.clock_id, w, 16);
            lemma_u64_round_trip(c.timeout, w, 24);
            lemma_u64_round_trip(c.precision, w, 32);
            lemma_u16_round_trip(c.flags, w, 40);
            assert(clock_at(w) == c);
        },
        EventType::Read(f) | EventType::Write(f) => {
            assert(w.subrange(16, 20) =~= le32(f.fd));
            lemma_u32_round_trip(f.fd, w, 16);
            assert(fd_at(w) == f);
        },
    }
}

/// Normalizing a record twice gives what normalizing it once gives, and after
/// normalizing, every byte that belongs to no field of the selected payload
/// is zero while every byte that does is kept.
pub proof fn lemma_zero_padding(w: Seq<u8>)
    requires
        w.len() == SUBSCRIPTION_SIZE,
    ensures
        padded(padded(w)) == padded(w),
        padded(w).len() == SUBSCRIPTION_SIZE,
        padded(w)[TYPE_OFFSET as int] == w[TYPE_OFFSET as int],
        forall|i: int|
            0 <= i < SUBSCRIPTION_SIZE && !significant(w[TYPE_OFFSET as int], i) ==> padded(w)[i]
                == 0,
        forall|i: int|
            0 <= i < SUBSCRIPTION_SIZE && significant(w[TYPE_OFFSET as int], i) ==> padded(w)[i]
                == w[i],
{
    assert(padded(w)[TYPE_OFFSET as int] == w[TYPE_OFFSET as int]);
    assert(padded(padded(w)) =~= padded(w));
}

/// Normalizing the record that encodes a subscription leaves it as it is: the
/// encoder already writes zero into every byte that belongs to no field.
pub proof fn lemma_encode_is_padded(s: WasiSubscription)
    ensures
        padded(subscription_bytes(s)) == subscription_bytes(s),
{
    let w = subscription_bytes(s);
    let head = le64(s.user_data) + seq![s.event_type.spec_raw_tag().spec_raw()] + zeros(7);
    assert(w == head + payload_bytes(s.event_type));
    assert(forall|i: int| 9 <= i < 16 ==> w[i] == 0u8);
    match s.event_type {
        EventType::Clock(c) => {
            assert(forall|i: int| 20 <= i < 24 ==> w[i] == 0u8);
            assert(forall|i: int| 42 <= i < 48 ==> w[i] == 0u8);
        },
        EventType::Read(f) | EventType::Write(f) => {
            assert(forall|i: int| 20 <= i < 48 ==> w[i] == 0u8);
        },
    }
    assert(padded(w) =~= w);
}

} // verus!
