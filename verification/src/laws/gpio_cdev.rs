//! Laws of the GPIO requests.

use crate::config::Nanos;
use crate::gpio_cdev::{
    copy_consumer_label, decode_edge_event, input_edges_flags, input_edges_request, ioc,
    ioc_fields_fit, ioc_number, ioctl_result, iowr, label_length, labelled, level_order,
    level_query, no_lines, output_request, poll_outcome, poll_timeout_ms, read_level,
    requested_line_fd, GpioEdgeEvent, GpioEdgeKind, GpioError, GpioV2LineEvent, GpioV2LineRequest,
    GpioV2LineValues, GPIO_V2_LINE_FLAG_OUTPUT,
};
use crate::number::{decimal_text, hex_text};
use vstd::prelude::*;
use vstd::utf8::encode_utf8;

verus! {

/// Writing a label keeps the size of the buffer and every byte from the label's end on. The
/// last byte is never written.
pub proof fn a_label_leaves_the_last_byte(buf: Seq<u8>, consumer: Seq<char>)
    requires
        buf.len() == 32,
    ensures
        labelled(buf, consumer).len() == 32,
        labelled(buf, consumer)[31] == buf[31],
        forall|i: int|
            label_length(consumer) <= i < 32 ==> #[trigger] labelled(buf, consumer)[i] == buf[i],
        forall|i: int|
            0 <= i < label_length(consumer) ==> #[trigger] labelled(buf, consumer)[i]
                == encode_utf8(consumer)[i],
{
}

/// The label of a new request ends in a zero byte, however long it is.
pub proof fn a_request_label_ends_in_zero(consumer: Seq<char>)
    ensures
        labelled(no_lines().consumer, consumer)[31] == 0,
{
    a_label_leaves_the_last_byte(no_lines().consumer, consumer);
}

/// A label that leaves room for the zero byte is written whole.
pub proof fn a_short_label_is_written_whole(buf: Seq<u8>, consumer: Seq<char>)
    requires
        buf.len() == 32,
        encode_utf8(consumer).len() <= 31,
    ensures
        labelled(buf, consumer).take(encode_utf8(consumer).len() as int) == encode_utf8(consumer),
{
    assert(labelled(buf, consumer).take(encode_utf8(consumer).len() as int) =~= encode_utf8(
        consumer,
    ));
}

/// Watching the edges of a line makes it an input, never an output.
pub proof fn edges_are_watched_on_an_input()
    ensures
        input_edges_flags() == 52,
        input_edges_flags() & GPIO_V2_LINE_FLAG_OUTPUT == 0,
{
    assert((4u64 | 16u64 | 32u64) == 52u64) by (bit_vector);
    assert((52u64 & 8u64) == 0u64) by (bit_vector);
}

/// The fields of an `ioctl` number can be read back from it.
pub proof fn ioc_fields_read_back(dir: u64, ty: u64, nr: u64, size: u64)
    requires
        ioc_fields_fit(dir, ty, nr, size),
    ensures
        ioc_number(dir, ty, nr, size) % 0x100 == nr,
        ioc_number(dir, ty, nr, size) / 0x100 % 0x100 == ty,
        ioc_number(dir, ty, nr, size) / 0x1_0000 % 0x4000 == size,
        ioc_number(dir, ty, nr, size) / 0x4000_0000 == dir,
{
    let n = ioc_number(dir, ty, nr, size);
    assert(n == ((dir << 30) | (ty << 8) | (nr << 0) | (size << 16)));
    assert(n % 0x100 == nr && n / 0x100 % 0x100 == ty && n / 0x1_0000 % 0x4000 == size && n
        / 0x4000_0000 == dir) by (bit_vector)
        requires
            dir < 4,
            ty < 0x100,
            nr < 0x100,
            size < 0x4000,
            n == ((dir << 30) | (ty << 8) | (nr << 0) | (size << 16)),
    ;
}

/// A call that writes a label: a byte of the buffer is the byte of the label in its place,
/// where the label has one and the place is not the last, and what it was before otherwise.
pub proof fn a_label_is_written_from_the_start(buf: &mut [u8; 32], consumer: &str, i: int)
    requires
        call_ensures(copy_consumer_label, (buf, consumer), ()),
        0 <= i < 32,
    ensures
        final(buf)@[i] == if i < 31 && i < encode_utf8(consumer@).len() {
            encode_utf8(consumer@)[i]
        } else {
            old(buf)@[i]
        },
{
}

/// The parts of a request that are the same for every single line: it asks for one line, that
/// at `offset`, under the label `consumer`, and all that it does not use is zero.
pub open spec fn asks_for_one_line(
    request: GpioV2LineRequest,
    offset: u32,
    consumer: Seq<char>,
) -> bool {
    &&& request.num_lines == 1
    &&& request.offsets@.len() == 64
    &&& request.offsets@[0] == offset
    &&& forall|i: int| 0 < i < 64 ==> #[trigger] request.offsets@[i] == 0
    &&& request.consumer@.len() == 32
    &&& forall|i: int|
        0 <= i < 32 ==> #[trigger] request.consumer@[i] == if i < 31 && i < encode_utf8(
            consumer,
        ).len() {
            encode_utf8(consumer)[i]
        } else {
            0
        }
    &&& request.config.padding@.len() == 5
    &&& forall|i: int| 0 <= i < 5 ==> #[trigger] request.config.padding@[i] == 0
    &&& request.padding@.len() == 5
    &&& forall|i: int| 0 <= i < 5 ==> #[trigger] request.padding@[i] == 0
    &&& request.fd == -1
    &&& request.config.attrs@.len() == 10
    &&& forall|i: int|
        1 <= i < 10 ==> (#[trigger] request.config.attrs@[i]).attr.id == 0
            && request.config.attrs@[i].attr.padding == 0 && request.config.attrs@[i].attr.value
            == 0 && request.config.attrs@[i].mask == 0
}

/// A request that was not filled in yet asks for no line, and has no descriptor.
pub proof fn a_default_request_asks_for_nothing(request: GpioV2LineRequest, i: int)
    requires
        call_ensures(GpioV2LineRequest::default, (), request),
    ensures
        request.num_lines == 0,
        request.event_buffer_size == 0,
        request.config.flags == 0,
        request.config.num_attrs == 0,
        request.fd == -1,
        0 <= i < 64 ==> request.offsets@[i] == 0,
        0 <= i < 32 ==> request.consumer@[i] == 0,
        0 <= i < 10 ==> request.config.attrs@[i].attr.id == 0
            && request.config.attrs@[i].attr.padding == 0 && request.config.attrs@[i].attr.value
            == 0 && request.config.attrs@[i].mask == 0,
        0 <= i < 5 ==> request.padding@[i] == 0 && request.config.padding@[i] == 0,
{
    let r = request@;
    assert(r.offsets == request.offsets@);
    assert(r.consumer == request.consumer@);
    assert(r.config_padding == request.config.padding@);
    assert(r.attrs == request.config.attrs@);
    assert(r.padding == request.padding@);
}

/// A call for the request of an output: it asks for the line as an output, with the level that
/// it starts at as its only attribute, and for no events.
pub proof fn an_output_starts_at_its_level(
    offset: u32,
    active: bool,
    consumer: &str,
    request: GpioV2LineRequest,
)
    requires
        call_ensures(output_request, (offset, active, consumer), request),
    ensures
        asks_for_one_line(request, offset, consumer@),
        request.config.flags == 8,
        request.event_buffer_size == 0,
        request.config.num_attrs == 1,
        request.config.attrs@[0].attr.id == 2,
        request.config.attrs@[0].attr.padding == 0,
        request.config.attrs@[0].attr.value == 1 <==> active,
        request.config.attrs@[0].attr.value == 0 <==> !active,
        request.config.attrs@[0].mask == 1,
{
    let r = request@;
    assert(r.offsets == request.offsets@);
    assert(r.consumer == request.consumer@);
    assert(r.config_padding == request.config.padding@);
    assert(r.attrs == request.config.attrs@);
    assert(r.padding == request.padding@);
    assert(no_lines().consumer.len() == 32);
    assert(r.consumer == labelled(no_lines().consumer, consumer@));
    a_label_leaves_the_last_byte(no_lines().consumer, consumer@);
}

/// A call for the request of an input: it asks for the line as an input with both edges, and
/// for sixteen events to be kept. Its only attribute is the debounce in whole microseconds;
/// without one whole microsecond there is none, and one that is too long to tell is the
/// longest that can be told.
pub proof fn an_input_reports_both_edges(
    offset: u32,
    debounce: Nanos,
    consumer: &str,
    request: GpioV2LineRequest,
)
    requires
        call_ensures(input_edges_request, (offset, debounce, consumer), request),
    ensures
        asks_for_one_line(request, offset, consumer@),
        request.config.flags == 4 + 16 + 32,
        request.event_buffer_size == 16,
        request.config.num_attrs == if debounce < 1_000 {
            0u32
        } else {
            1u32
        },
        debounce < 1_000 ==> request.config.attrs@[0].attr.id == 0
            && request.config.attrs@[0].attr.value == 0 && request.config.attrs@[0].mask == 0,
        debounce >= 1_000 ==> request.config.attrs@[0].attr.id == 3
            && request.config.attrs@[0].mask == 1,
        request.config.attrs@[0].attr.padding == 0,
        1_000 * request.config.attrs@[0].attr.value <= debounce,
        request.config.attrs@[0].attr.value < u64::MAX ==> debounce < 1_000 * (
        request.config.attrs@[0].attr.value + 1),
{
    let r = request@;
    edges_are_watched_on_an_input();
    assert(r.offsets == request.offsets@);
    assert(r.consumer == request.consumer@);
    assert(r.config_padding == request.config.padding@);
    assert(r.attrs == request.config.attrs@);
    assert(r.padding == request.padding@);
    assert(no_lines().consumer.len() == 32);
    assert(r.consumer == labelled(no_lines().consumer, consumer@));
    a_label_leaves_the_last_byte(no_lines().consumer, consumer@);
}

/// A call on an event: the numbers one and two are a rising and a falling edge, at the time of
/// the event, and any other number is an error that tells it. Nothing else in the event
/// matters.
pub proof fn an_event_is_one_of_two_edges(
    event: GpioV2LineEvent,
    r: Result<GpioEdgeEvent, GpioError>,
)
    requires
        call_ensures(decode_edge_event, (&event,), r),
    ensures
        match r {
            Ok(edge) => {
                &&& edge.timestamp_ns == event.timestamp_ns
                &&& edge.kind == GpioEdgeKind::Rising <==> event.id == 1
                &&& edge.kind == GpioEdgeKind::Falling <==> event.id == 2
            },
            Err(GpioError::InvalidData(text)) => {
                &&& event.id != 1 && event.id != 2
                &&& text@ == "unknown GPIO edge event id "@ + decimal_text(event.id as nat)
            },
            Err(_) => false,
        },
{
}

/// A call for a timeout: it is told in whole milliseconds, never longer than it is, and less
/// than one millisecond shorter, unless it is too long to tell.
pub proof fn a_timeout_is_told_in_milliseconds(timeout: Nanos, ms: i32)
    requires
        call_ensures(poll_timeout_ms, (timeout,), ms),
    ensures
        0 <= ms,
        ms * 1_000_000 <= timeout,
        ms < i32::MAX ==> timeout < (ms + 1) * 1_000_000,
{
}

/// A call on what `poll` returned: less than zero is the error of the system, zero says that
/// there is nothing to read. Otherwise an error or a hang-up is an error that tells all flags,
/// and the input flag decides.
pub proof fn a_poll_tells_whether_to_read(rc: i32, revents: i16, r: Result<bool, GpioError>)
    requires
        call_ensures(poll_outcome, (rc, revents), r),
    ensures
        r == Err::<bool, GpioError>(GpioError::LastOsError) <==> rc < 0,
        rc == 0 ==> r == Ok::<bool, GpioError>(false),
        rc > 0 ==> (r matches Err(GpioError::Other(_)) <==> revents & 8 != 0 || revents & 16 != 0),
        r matches Err(GpioError::Other(text)) ==> text@
            == "GPIO line poll returned error flags 0x"@ + hex_text((revents as u16) as nat),
        r matches Ok(ready) ==> (ready <==> rc > 0 && revents & 1 != 0),
        !(r matches Err(GpioError::InvalidData(_))),
{
}

/// Calls on what a system call returned: less than zero is the error of the system. A line has
/// the descriptor that was filled in, unless that is negative.
pub proof fn a_negative_result_is_an_error(
    rc: i32,
    fd: i32,
    values: GpioV2LineValues,
    done: Result<(), GpioError>,
    line: Result<i32, GpioError>,
    level: Result<bool, GpioError>,
)
    requires
        call_ensures(ioctl_result, (rc,), done),
        call_ensures(requested_line_fd, (rc, fd), line),
        call_ensures(read_level, (rc, values), level),
    ensures
        done is Ok <==> rc >= 0,
        line is Ok <==> rc >= 0 && fd >= 0,
        level is Ok <==> rc >= 0,
        done matches Err(e) ==> e is LastOsError,
        line matches Ok(n) ==> n == fd,
        line matches Err(e) ==> if rc < 0 {
            e is LastOsError
        } else {
            e matches GpioError::Other(text) && text@
                == "GPIO line request returned invalid file descriptor"@
        },
        level matches Err(e) ==> e is LastOsError,
{
}

/// Calls that order a level and read one: the level that was ordered is the level that is
/// read, the other lines do not matter, and only the first line is asked for.
pub proof fn an_ordered_level_is_read_back(
    active: bool,
    order: GpioV2LineValues,
    query: GpioV2LineValues,
    others: u64,
    level: Result<bool, GpioError>,
    with_others: Result<bool, GpioError>,
)
    requires
        call_ensures(level_order, (active,), order),
        call_ensures(level_query, (), query),
        call_ensures(read_level, (0i32, order), level),
        others % 2 == 0,
        call_ensures(
            read_level,
            (
                0i32,
                GpioV2LineValues { bits: (order.bits | others), mask: order.mask },
            ),
            with_others,
        ),
    ensures
        level == Ok::<bool, GpioError>(active),
        with_others == Ok::<bool, GpioError>(active),
        order.mask == 1,
        order.bits <= 1,
        query.mask == 1,
        query.bits == 0,
{
    let bits = order.bits;
    assert((bits | others) % 2 == bits % 2) by (bit_vector)
        requires
            others % 2 == 0,
            bits <= 1,
    ;
}

/// Calls for the number of a request: it holds its four fields, each in its own bits, and one
/// that reads and writes has both directions.
pub proof fn a_request_number_holds_its_fields(
    dir: u64,
    ty: u64,
    nr: u64,
    size: u64,
    number: u64,
    both: u64,
)
    requires
        call_ensures(ioc, (dir, ty, nr, size), number),
        call_ensures(iowr, (ty, nr, size), both),
    ensures
        dir < 4 && ty < 256 && nr < 256 && size < 16384 ==> {
            &&& number % 256 == nr
            &&& number / 256 % 256 == ty
            &&& number / 65536 % 16384 == size
            &&& number / 1073741824 == dir
        },
        ty < 256 && nr < 256 && size < 16384 ==> {
            &&& both % 256 == nr
            &&& both / 256 % 256 == ty
            &&& both / 65536 % 16384 == size
            &&& both / 1073741824 == 3
        },
        number == (dir << 30) | (size << 16) | (ty << 8) | nr,
        both == (3u64 << 30) | (size << 16) | (ty << 8) | nr,
{
    if dir < 4 && ty < 256 && nr < 256 && size < 16384 {
        ioc_fields_read_back(dir, ty, nr, size);
    }
    if ty < 256 && nr < 256 && size < 16384 {
        ioc_fields_read_back(3, ty, nr, size);
    }
    assert((dir << 30) | (ty << 8) | (nr << 0) | (size << 16) == (dir << 30) | (size << 16) | (ty
        << 8) | nr) by (bit_vector);
    assert((3u64 << 30) | (ty << 8) | (nr << 0) | (size << 16) == (3u64 << 30) | (size << 16) | (ty
        << 8) | nr) by (bit_vector);
}

} // verus!
