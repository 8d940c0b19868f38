//! Requests to and answers from the Linux GPIO character device, version 2 of its interface.

use crate::config::Nanos;
use crate::number::{decimal_text, hex_text, to_decimal, to_hex};
use vstd::prelude::*;
use vstd::utf8::encode_utf8;

verus! {

pub const GPIO_MAX_NAME_SIZE: usize = 32;

pub const GPIO_V2_LINES_MAX: usize = 64;

pub const GPIO_V2_LINE_NUM_ATTRS_MAX: usize = 10;

pub const GPIO_V2_LINE_FLAG_INPUT: u64 = 4;

pub const GPIO_V2_LINE_FLAG_OUTPUT: u64 = 8;

pub const GPIO_V2_LINE_FLAG_EDGE_RISING: u64 = 16;

pub const GPIO_V2_LINE_FLAG_EDGE_FALLING: u64 = 32;

pub const GPIO_V2_LINE_ATTR_ID_OUTPUT_VALUES: u32 = 2;

pub const GPIO_V2_LINE_ATTR_ID_DEBOUNCE: u32 = 3;

pub const GPIO_V2_LINE_EVENT_RISING_EDGE: u32 = 1;

pub const GPIO_V2_LINE_EVENT_FALLING_EDGE: u32 = 2;

/// How many edge events the kernel is asked to keep.
pub const EVENT_BUFFER_SIZE: u32 = 16;

pub const POLLIN: i16 = 1;

pub const POLLERR: i16 = 8;

pub const POLLHUP: i16 = 16;

/// The levels of requested lines, one bit for each; `mask` says which bits count.
#[derive(Debug, Clone, Copy, PartialEq, Eq, Structural)]
pub struct GpioV2LineValues {
    pub bits: u64,
    pub mask: u64,
}

/// An attribute of a line.
#[derive(Debug, Clone, Copy, PartialEq, Eq, Structural)]
pub struct GpioV2LineAttribute {
    pub id: u32,
    pub padding: u32,
    pub value: u64,
}

/// An attribute and the lines that it is for.
#[derive(Debug, Clone, Copy, PartialEq, Eq, Structural)]
pub struct GpioV2LineConfigAttribute {
    pub attr: GpioV2LineAttribute,
    pub mask: u64,
}

/// The configuration of requested lines.
#[derive(Debug, Clone, Copy)]
pub struct GpioV2LineConfig {
    pub flags: u64,
    pub num_attrs: u32,
    pub padding: [u32; 5],
    pub attrs: [GpioV2LineConfigAttribute; GPIO_V2_LINE_NUM_ATTRS_MAX],
}

/// A request for lines of a chip.
#[derive(Debug, Clone, Copy)]
pub struct GpioV2LineRequest {
    pub offsets: [u32; GPIO_V2_LINES_MAX],
    pub consumer: [u8; GPIO_MAX_NAME_SIZE],
    pub config: GpioV2LineConfig,
    pub num_lines: u32,
    pub event_buffer_size: u32,
    pub padding: [u32; 5],
    pub fd: i32,
}

/// The contents of a [`GpioV2LineRequest`].
#[verifier::ext_equal]
pub struct LineRequestView {
    pub offsets: Seq<u32>,
    pub consumer: Seq<u8>,
    pub flags: u64,
    pub num_attrs: u32,
    pub config_padding: Seq<u32>,
    pub attrs: Seq<GpioV2LineConfigAttribute>,
    pub num_lines: u32,
    pub event_buffer_size: u32,
    pub padding: Seq<u32>,
    pub fd: i32,
}

impl View for GpioV2LineRequest {
    type V = LineRequestView;

    open spec fn view(&self) -> LineRequestView {
        LineRequestView {
            offsets: self.offsets@,
            consumer: self.consumer@,
            flags: self.config.flags,
            num_attrs: self.config.num_attrs,
            config_padding: self.config.padding@,
            attrs: self.config.attrs@,
            num_lines: self.num_lines,
            event_buffer_size: self.event_buffer_size,
            padding: self.padding@,
            fd: self.fd,
        }
    }
}

/// A sequence of `n` zeros.
pub open spec fn zeros_u32(n: nat) -> Seq<u32> {
    Seq::new(n, |i: int| 0u32)
}

/// An attribute for no line.
pub open spec fn no_attribute() -> GpioV2LineConfigAttribute {
    GpioV2LineConfigAttribute {
        attr: GpioV2LineAttribute { id: 0, padding: 0, value: 0 },
        mask: 0,
    }
}

/// The attribute with the given number and value, for the first requested line.
pub open spec fn first_line_attribute(id: u32, value: u64) -> GpioV2LineConfigAttribute {
    GpioV2LineConfigAttribute { attr: GpioV2LineAttribute { id, padding: 0, value }, mask: 1 }
}

/// The request for no line.
pub open spec fn no_lines() -> LineRequestView {
    LineRequestView {
        offsets: zeros_u32(64),
        consumer: Seq::new(32, |i: int| 0u8),
        flags: 0,
        num_attrs: 0,
        config_padding: zeros_u32(5),
        attrs: Seq::new(10, |i: int| no_attribute()),
        num_lines: 0,
        event_buffer_size: 0,
        padding: zeros_u32(5),
        fd: (-1) as i32,
    }
}

/// The request for the single line `offset` under the label `consumer`, without attributes.
pub open spec fn one_line(
    offset: u32,
    consumer: Seq<char>,
    flags: u64,
    event_buffer_size: u32,
) -> LineRequestView {
    LineRequestView {
        offsets: zeros_u32(64).update(0, offset),
        consumer: labelled(no_lines().consumer, consumer),
        flags,
        num_lines: 1,
        event_buffer_size,
        ..no_lines()
    }
}

/// A request with one attribute, which is for its first line.
pub open spec fn with_attribute(r: LineRequestView, id: u32, value: u64) -> LineRequestView {
    LineRequestView {
        num_attrs: 1,
        attrs: r.attrs.update(0, first_line_attribute(id, value)),
        ..r
    }
}

impl Default for GpioV2LineRequest {
    /// The request for no line.
    fn default() -> (request: Self)
        ensures
            request@ == no_lines(),
    {
        let nothing = GpioV2LineConfigAttribute {
            attr: GpioV2LineAttribute { id: 0, padding: 0, value: 0 },
            mask: 0,
        };
        GpioV2LineRequest {
            offsets: [0u32; 64],
            consumer: [0u8; 32],
            config: GpioV2LineConfig {
                flags: 0,
                num_attrs: 0,
                padding: [0u32; 5],
                attrs: [nothing; 10],
            },
            num_lines: 0,
            event_buffer_size: 0,
            padding: [0u32; 5],
            fd: -1,
        }
    }
}

/// How many bytes of a label fit beside the closing zero byte.
pub open spec fn label_length(consumer: Seq<char>) -> nat {
    let n = encode_utf8(consumer).len();
    if n < 31 {
        n
    } else {
        31
    }
}

/// `buf` with the bytes of a label written to its start, as many as fit.
pub open spec fn labelled(buf: Seq<u8>, consumer: Seq<char>) -> Seq<u8> {
    let n = label_length(consumer) as int;
    encode_utf8(consumer).take(n) + buf.skip(n)
}

/// Writes the bytes of a label to the start of `buf`, as many as leave the last byte free.
pub fn copy_consumer_label(buf: &mut [u8; GPIO_MAX_NAME_SIZE], consumer: &str)
    ensures
        final(buf)@ == labelled(old(buf)@, consumer@),
{
    let bytes = consumer.as_bytes();
    let n: usize = if bytes.len() < 31 {
        bytes.len()
    } else {
        31
    };
    for i in 0..n
        invariant
            bytes@ == encode_utf8(consumer@),
            n == label_length(consumer@),
            n <= bytes@.len(),
            n <= 31,
            buf@ == bytes@.take(i as int) + old(buf)@.skip(i as int),
    {
        buf[i] = bytes[i];
        assert(buf@ =~= bytes@.take(i + 1) + old(buf)@.skip(i + 1));
    }
}

/// Builds the request for an output line that starts at the given level.
pub fn output_request(offset: u32, initial_active: bool, consumer: &str) -> (request:
    GpioV2LineRequest)
    ensures
        request@ == with_attribute(
            one_line(offset, consumer@, GPIO_V2_LINE_FLAG_OUTPUT, 0),
            GPIO_V2_LINE_ATTR_ID_OUTPUT_VALUES,
            if initial_active {
                1
            } else {
                0
            },
        ),
{
    let mut request = GpioV2LineRequest::default();
    request.offsets[0] = offset;
    request.num_lines = 1;
    copy_consumer_label(&mut request.consumer, consumer);
    request.config.flags = GPIO_V2_LINE_FLAG_OUTPUT;
    request.config.num_attrs = 1;
    request.config.attrs[0] = GpioV2LineConfigAttribute {
        attr: GpioV2LineAttribute {
            id: GPIO_V2_LINE_ATTR_ID_OUTPUT_VALUES,
            padding: 0,
            value: if initial_active {
                1
            } else {
                0
            },
        },
        mask: 1,
    };
    request
}

/// Whole microseconds of a span, at most as many as a 64-bit number holds.
pub open spec fn debounce_micros(debounce: nat) -> u64 {
    if debounce / 1_000 < u64::MAX {
        (debounce / 1_000) as u64
    } else {
        u64::MAX
    }
}

/// The flags of an input line whose both edges are reported.
pub open spec fn input_edges_flags() -> u64 {
    GPIO_V2_LINE_FLAG_INPUT | GPIO_V2_LINE_FLAG_EDGE_RISING | GPIO_V2_LINE_FLAG_EDGE_FALLING
}

/// Builds the request for an input line whose edges are reported once they have lasted for
/// `debounce`; a debounce below one microsecond asks for none.
pub fn input_edges_request(offset: u32, debounce: Nanos, consumer: &str) -> (request:
    GpioV2LineRequest)
    ensures
        ({
            let plain = one_line(offset, consumer@, input_edges_flags(), EVENT_BUFFER_SIZE);
            let micros = debounce_micros(debounce as nat);
            request@ == if micros > 0 {
                with_attribute(plain, GPIO_V2_LINE_ATTR_ID_DEBOUNCE, micros)
            } else {
                plain
            }
        }),
{
    let mut request = GpioV2LineRequest::default();
    request.offsets[0] = offset;
    request.num_lines = 1;
    request.event_buffer_size = EVENT_BUFFER_SIZE;
    copy_consumer_label(&mut request.consumer, consumer);
    request.config.flags = GPIO_V2_LINE_FLAG_INPUT | GPIO_V2_LINE_FLAG_EDGE_RISING
        | GPIO_V2_LINE_FLAG_EDGE_FALLING;
    let micros: u128 = debounce / 1_000;
    let value: u64 = if micros < u64::MAX as u128 {
        micros as u64
    } else {
        u64::MAX
    };
    if value > 0 {
        request.config.num_attrs = 1;
        request.config.attrs[0] = GpioV2LineConfigAttribute {
            attr: GpioV2LineAttribute { id: GPIO_V2_LINE_ATTR_ID_DEBOUNCE, padding: 0, value },
            mask: 1,
        };
    }
    request
}

/// Which way a line went.
#[derive(Debug, Clone, Copy, PartialEq, Eq, Structural)]
pub enum GpioEdgeKind {
    Rising,
    Falling,
}

/// An edge that the kernel saw.
#[derive(Debug, Clone, Copy, PartialEq, Eq, Structural)]
pub struct GpioEdgeEvent {
    pub kind: GpioEdgeKind,
    pub timestamp_ns: u64,
}

/// An edge event as the kernel hands it out.
#[derive(Debug, Clone, Copy)]
pub struct GpioV2LineEvent {
    pub timestamp_ns: u64,
    pub id: u32,
    pub offset: u32,
    pub seqno: u32,
    pub line_seqno: u32,
    pub padding: [u32; 6],
}

/// Why the GPIO device could not be used.
#[derive(Debug)]
pub enum GpioError {
    /// The system call failed; the operating system knows why.
    LastOsError,
    /// The kernel handed out something that makes no sense.
    InvalidData(String),
    /// Anything else.
    Other(String),
}

/// `r` is an error of the kind `InvalidData` with the given text.
pub open spec fn is_invalid_data<T>(r: Result<T, GpioError>, text: Seq<char>) -> bool {
    r matches Err(GpioError::InvalidData(message)) && message@ == text
}

/// `r` is an error of the kind `Other` with the given text.
pub open spec fn is_other_error<T>(r: Result<T, GpioError>, text: Seq<char>) -> bool {
    r matches Err(GpioError::Other(message)) && message@ == text
}

/// Returns the edge of an event; an event that is no edge is an error.
pub fn decode_edge_event(event: &GpioV2LineEvent) -> (r: Result<GpioEdgeEvent, GpioError>)
    ensures
        event.id == GPIO_V2_LINE_EVENT_RISING_EDGE ==> r == Ok::<GpioEdgeEvent, GpioError>(
            GpioEdgeEvent { kind: GpioEdgeKind::Rising, timestamp_ns: event.timestamp_ns },
        ),
        event.id == GPIO_V2_LINE_EVENT_FALLING_EDGE ==> r == Ok::<GpioEdgeEvent, GpioError>(
            GpioEdgeEvent { kind: GpioEdgeKind::Falling, timestamp_ns: event.timestamp_ns },
        ),
        event.id != GPIO_V2_LINE_EVENT_RISING_EDGE && event.id != GPIO_V2_LINE_EVENT_FALLING_EDGE
            ==> is_invalid_data(r, "unknown GPIO edge event id "@ + decimal_text(event.id as nat)),
{
    if event.id == GPIO_V2_LINE_EVENT_RISING_EDGE {
        Ok(GpioEdgeEvent { kind: GpioEdgeKind::Rising, timestamp_ns: event.timestamp_ns })
    } else if event.id == GPIO_V2_LINE_EVENT_FALLING_EDGE {
        Ok(GpioEdgeEvent { kind: GpioEdgeKind::Falling, timestamp_ns: event.timestamp_ns })
    } else {
        let mut message = "unknown GPIO edge event id ".to_owned();
        message.append(to_decimal(event.id as u64).as_str());
        Err(GpioError::InvalidData(message))
    }
}

/// Returns the whole milliseconds of a timeout, at most as many as `poll` takes.
pub fn poll_timeout_ms(timeout: Nanos) -> (ms: i32)
    ensures
        ms == if timeout as nat / 1_000_000 < i32::MAX {
            timeout as nat / 1_000_000
        } else {
            i32::MAX as nat
        },
{
    let ms: u128 = timeout / 1_000_000;
    if ms < i32::MAX as u128 {
        ms as i32
    } else {
        i32::MAX
    }
}

/// `flags` has a bit in common with `mask`.
pub open spec fn has_flag(flags: i16, mask: i16) -> bool {
    flags & mask != 0
}

/// Tells whether an event can be read, from what `poll` returned and reported. Nothing can be
/// read after a timeout; a failed call, an error and a hang-up are errors.
pub fn poll_outcome(rc: i32, revents: i16) -> (r: Result<bool, GpioError>)
    ensures
        rc < 0 ==> r == Err::<bool, GpioError>(GpioError::LastOsError),
        rc == 0 ==> r == Ok::<bool, GpioError>(false),
        rc > 0 && (has_flag(revents, POLLERR) || has_flag(revents, POLLHUP)) ==> is_other_error(
            r,
            "GPIO line poll returned error flags 0x"@ + hex_text((revents as u16) as nat),
        ),
        rc > 0 && !has_flag(revents, POLLERR) && !has_flag(revents, POLLHUP) ==> r == Ok::<
            bool,
            GpioError,
        >(has_flag(revents, POLLIN)),
{
    if rc < 0 {
        return Err(GpioError::LastOsError);
    }
    if rc == 0 {
        return Ok(false);
    }
    assert(revents & (8i16 | 16i16) != 0 <==> (revents & 8i16 != 0 || revents & 16i16 != 0))
        by (bit_vector);
    if revents & (POLLERR | POLLHUP) != 0 {
        let mut message = "GPIO line poll returned error flags 0x".to_owned();
        message.append(to_hex((revents as u16) as u64).as_str());
        return Err(GpioError::Other(message));
    }
    Ok(revents & POLLIN != 0)
}

/// Returns the error of a system call that returned `rc`.
pub fn ioctl_result(rc: i32) -> (r: Result<(), GpioError>)
    ensures
        r == if rc < 0 {
            Err::<(), GpioError>(GpioError::LastOsError)
        } else {
            Ok::<(), GpioError>(())
        },
{
    if rc < 0 {
        Err(GpioError::LastOsError)
    } else {
        Ok(())
    }
}

/// Returns the file descriptor of a requested line, from what the request returned and the
/// descriptor that the kernel filled in.
pub fn requested_line_fd(rc: i32, fd: i32) -> (r: Result<i32, GpioError>)
    ensures
        rc < 0 ==> r == Err::<i32, GpioError>(GpioError::LastOsError),
        rc >= 0 && fd < 0 ==> is_other_error(
            r,
            "GPIO line request returned invalid file descriptor"@,
        ),
        rc >= 0 && fd >= 0 ==> r == Ok::<i32, GpioError>(fd),
{
    match ioctl_result(rc) {
        Err(e) => Err(e),
        Ok(()) => if fd < 0 {
            Err(GpioError::Other("GPIO line request returned invalid file descriptor".to_owned()))
        } else {
            Ok(fd)
        },
    }
}

/// The question for the level of a single requested line.
pub fn level_query() -> (values: GpioV2LineValues)
    ensures
        values == (GpioV2LineValues { bits: 0, mask: 1 }),
{
    GpioV2LineValues { bits: 0, mask: 1 }
}

/// The order to bring a single requested line to a level.
pub fn level_order(active: bool) -> (values: GpioV2LineValues)
    ensures
        values.mask == 1,
        values.bits == if active {
            1u64
        } else {
            0u64
        },
{
    GpioV2LineValues {
        bits: if active {
            1
        } else {
            0
        },
        mask: 1,
    }
}

/// The level of a single requested line, in the answer to a [`level_query`] that returned
/// `rc`.
pub fn read_level(rc: i32, values: GpioV2LineValues) -> (r: Result<bool, GpioError>)
    ensures
        rc < 0 ==> r == Err::<bool, GpioError>(GpioError::LastOsError),
        rc >= 0 ==> r == Ok::<bool, GpioError>(values.bits % 2 == 1),
{
    match ioctl_result(rc) {
        Err(e) => Err(e),
        Ok(()) => {
            let bits: u64 = values.bits;
            assert((bits & 1 != 0) <==> (bits % 2 == 1)) by (bit_vector);
            Ok(bits & 1 != 0)
        },
    }
}

pub const IOC_NRSHIFT: u64 = 0;

pub const IOC_TYPESHIFT: u64 = 8;

pub const IOC_SIZESHIFT: u64 = 16;

pub const IOC_DIRSHIFT: u64 = 30;

pub const IOC_WRITE: u64 = 1;

pub const IOC_READ: u64 = 2;

/// The number of an `ioctl` request, by its fields.
pub open spec fn ioc_number(dir: u64, ty: u64, nr: u64, size: u64) -> u64 {
    (dir << 30) | (ty << 8) | (nr << 0) | (size << 16)
}

/// The fields of an `ioctl` number are within the bits that it has for them.
pub open spec fn ioc_fields_fit(dir: u64, ty: u64, nr: u64, size: u64) -> bool {
    dir < 4 && ty < 0x100 && nr < 0x100 && size < 0x4000
}

/// Builds the number of an `ioctl` request. Fields that fit stand side by side.
pub fn ioc(dir: u64, ty: u64, nr: u64, size: u64) -> (number: u64)
    ensures
        number == ioc_number(dir, ty, nr, size),
        ioc_fields_fit(dir, ty, nr, size) ==> number == dir * 0x4000_0000 + size * 0x1_0000 + ty
            * 0x100 + nr,
{
    assert(dir < 4 && ty < 0x100 && nr < 0x100 && size < 0x4000 ==> ((dir << 30) | (ty << 8) | (nr
        << 0) | (size << 16)) == dir * 0x4000_0000 + size * 0x1_0000 + ty * 0x100 + nr)
        by (bit_vector);
    (dir << IOC_DIRSHIFT) | (ty << IOC_TYPESHIFT) | (nr << IOC_NRSHIFT) | (size << IOC_SIZESHIFT)
}

/// Builds the number of an `ioctl` request that reads and writes `size` bytes.
pub fn iowr(ty: u64, nr: u64, size: u64) -> (number: u64)
    ensures
        number == ioc_number(3, ty, nr, size),
        ioc_fields_fit(3, ty, nr, size) ==> number == 3 * 0x4000_0000 + size * 0x1_0000 + ty
            * 0x100 + nr,
{
    assert(1u64 | 2u64 == 3u64) by (bit_vector);
    assert(2u64 | 1u64 == 3u64) by (bit_vector);
    ioc(IOC_READ | IOC_WRITE, ty, nr, size)
}

} // verus!
