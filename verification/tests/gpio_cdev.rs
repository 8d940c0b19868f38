use penta_top_hat::gpio_cdev::{
    copy_consumer_label, decode_edge_event, input_edges_request, ioc, ioctl_result, iowr,
    level_order, level_query, output_request, poll_outcome, poll_timeout_ms, read_level,
    requested_line_fd, GpioEdgeEvent, GpioEdgeKind, GpioError, GpioV2LineEvent, GpioV2LineRequest,
    GpioV2LineValues, GPIO_MAX_NAME_SIZE, GPIO_V2_LINE_ATTR_ID_DEBOUNCE,
    GPIO_V2_LINE_ATTR_ID_OUTPUT_VALUES, GPIO_V2_LINE_FLAG_EDGE_FALLING,
    GPIO_V2_LINE_FLAG_EDGE_RISING, GPIO_V2_LINE_FLAG_INPUT, GPIO_V2_LINE_FLAG_OUTPUT,
};

const MS: u128 = 1_000_000;

#[test]
fn builds_single_output_request() {
    let request = output_request(27, false, "radxa-penta-top-hat-rs");

    assert_eq!(request.offsets[0], 27);
    assert_eq!(request.num_lines, 1);
    assert_eq!(request.config.flags, GPIO_V2_LINE_FLAG_OUTPUT);
    assert_eq!(request.config.num_attrs, 1);
    assert_eq!(
        request.config.attrs[0].attr.id,
        GPIO_V2_LINE_ATTR_ID_OUTPUT_VALUES
    );
    assert_eq!(request.config.attrs[0].attr.value, 0);
    assert_eq!(request.config.attrs[0].mask, 1);
    assert_eq!(request.consumer[0], b'r');
}

#[test]
fn builds_single_input_edges_request() {
    let request = input_edges_request(17, 10 * MS, "radxa-penta-top-hat-rs");

    assert_eq!(request.offsets[0], 17);
    assert_eq!(request.num_lines, 1);
    assert_eq!(request.event_buffer_size, 16);
    assert_eq!(
        request.config.flags,
        GPIO_V2_LINE_FLAG_INPUT | GPIO_V2_LINE_FLAG_EDGE_RISING | GPIO_V2_LINE_FLAG_EDGE_FALLING
    );
    assert_eq!(request.config.num_attrs, 1);
    assert_eq!(
        request.config.attrs[0].attr.id,
        GPIO_V2_LINE_ATTR_ID_DEBOUNCE
    );
    assert_eq!(request.config.attrs[0].attr.value, 10_000);
    assert_eq!(request.config.attrs[0].mask, 1);
}

#[test]
fn truncates_consumer_label_with_nul_room() {
    let mut buf = [0u8; GPIO_MAX_NAME_SIZE];
    copy_consumer_label(&mut buf, "abcdefghijklmnopqrstuvwxyz0123456789");

    assert_eq!(buf[30], b'4');
    assert_eq!(buf[31], 0);
}

#[test]
fn the_rest_of_a_request_is_zero() {
    let request = output_request(5, true, "x");
    assert_eq!(&request.offsets[1..], &[0u32; 63]);
    assert_eq!(request.config.attrs[0].attr.value, 1);
    assert_eq!(request.config.attrs[1].mask, 0);
    assert_eq!(request.config.padding, [0u32; 5]);
    assert_eq!(request.padding, [0u32; 5]);
    assert_eq!(request.event_buffer_size, 0);
    assert_eq!(request.fd, -1);
    assert_eq!(&request.consumer[..3], b"x\0\0");
    let nothing = GpioV2LineRequest::default();
    assert_eq!(nothing.num_lines, 0);
    assert_eq!(nothing.consumer, [0u8; 32]);
}

#[test]
fn a_debounce_below_a_microsecond_asks_for_none() {
    let request = input_edges_request(1, 999, "x");
    assert_eq!(request.config.num_attrs, 0);
    assert_eq!(request.config.attrs[0].mask, 0);
    let request = input_edges_request(1, 1_000, "x");
    assert_eq!(request.config.attrs[0].attr.value, 1);
    let request = input_edges_request(1, u128::MAX, "x");
    assert_eq!(request.config.attrs[0].attr.value, u64::MAX);
}

#[test]
fn a_label_keeps_the_bytes_after_it() {
    let mut buf = [7u8; 32];
    copy_consumer_label(&mut buf, "h\u{e9}");
    assert_eq!(&buf[..4], &[b'h', 0xc3, 0xa9, 7]);
    let mut buf = [7u8; 32];
    copy_consumer_label(&mut buf, "0123456789012345678901234567890123");
    assert_eq!(buf[30], b'0');
    assert_eq!(buf[31], 7);
}

fn event(id: u32) -> GpioV2LineEvent {
    GpioV2LineEvent {
        timestamp_ns: 99,
        id,
        offset: 17,
        seqno: 1,
        line_seqno: 1,
        padding: [0; 6],
    }
}

#[test]
fn edge_events_are_decoded() {
    assert!(matches!(
        decode_edge_event(&event(1)),
        Ok(GpioEdgeEvent {
            kind: GpioEdgeKind::Rising,
            timestamp_ns: 99
        })
    ));
    assert!(matches!(
        decode_edge_event(&event(2)),
        Ok(GpioEdgeEvent {
            kind: GpioEdgeKind::Falling,
            timestamp_ns: 99
        })
    ));
    match decode_edge_event(&event(4_294_967_295)) {
        Err(GpioError::InvalidData(text)) => {
            assert_eq!(text, "unknown GPIO edge event id 4294967295")
        }
        other => panic!("unexpected {other:?}"),
    }
}

#[test]
fn poll_timeouts_are_whole_milliseconds() {
    assert_eq!(poll_timeout_ms(0), 0);
    assert_eq!(poll_timeout_ms(999_999), 0);
    assert_eq!(poll_timeout_ms(200 * MS), 200);
    assert_eq!(poll_timeout_ms(u128::MAX), i32::MAX);
}

#[test]
fn poll_results_are_told_apart() {
    assert!(matches!(poll_outcome(-1, 1), Err(GpioError::LastOsError)));
    assert!(matches!(poll_outcome(0, 1), Ok(false)));
    assert!(matches!(poll_outcome(1, 1), Ok(true)));
    assert!(matches!(poll_outcome(1, 4), Ok(false)));
    for (flags, shown) in [(8i16, "8"), (0x19, "19"), (0x10, "10"), (-1, "ffff")] {
        match poll_outcome(1, flags) {
            Err(GpioError::Other(text)) => assert_eq!(
                text,
                format!("GPIO line poll returned error flags 0x{shown}")
            ),
            other => panic!("unexpected {other:?}"),
        }
    }
}

#[test]
fn a_requested_line_needs_a_descriptor() {
    assert!(matches!(
        requested_line_fd(-1, 5),
        Err(GpioError::LastOsError)
    ));
    assert!(matches!(requested_line_fd(0, 5), Ok(5)));
    match requested_line_fd(0, -1) {
        Err(GpioError::Other(text)) => {
            assert_eq!(text, "GPIO line request returned invalid file descriptor")
        }
        other => panic!("unexpected {other:?}"),
    }
    assert!(ioctl_result(0).is_ok());
    assert!(ioctl_result(3).is_ok());
    assert!(ioctl_result(-22).is_err());
}

#[test]
fn levels_are_the_lowest_bit() {
    assert_eq!(level_query(), GpioV2LineValues { bits: 0, mask: 1 });
    assert_eq!(level_order(true), GpioV2LineValues { bits: 1, mask: 1 });
    assert_eq!(level_order(false), GpioV2LineValues { bits: 0, mask: 1 });
    assert!(matches!(
        read_level(0, GpioV2LineValues { bits: 1, mask: 1 }),
        Ok(true)
    ));
    assert!(matches!(
        read_level(0, GpioV2LineValues { bits: 2, mask: 1 }),
        Ok(false)
    ));
    assert!(matches!(
        read_level(-1, GpioV2LineValues { bits: 1, mask: 1 }),
        Err(GpioError::LastOsError)
    ));
}

#[test]
fn ioctl_numbers_have_their_fields_side_by_side() {
    assert_eq!(iowr(0xB4, 0x07, 592), 0xC250_B407);
    assert_eq!(iowr(0xB4, 0x0F, 16), 0xC010_B40F);
    assert_eq!(iowr(0xB4, 0x0E, 16), 0xC010_B40E);
    assert_eq!(ioc(1, 2, 3, 4), (1 << 30) | (4 << 16) | (2 << 8) | 3);
    assert_eq!(ioc(0, 0x100, 0, 0), 0x1_0000);
}
