use itch_codec::cursor::{ReadCursor, WriteCursor};
use itch_codec::error::{DecodeError, EncodeError};
use itch_codec::itch::{
    crack_message, eBuySellIndicator, eSystemEvent, u48_to_u64, write_add_order,
    write_add_order_struct, write_order_delete_struct, write_system_event, AddOrder, ItchHandler,
    Message, OrderDelete, OrderExecuted, SystemEvent, ADD_ORDER_SIZE, SYSTEM_EVENT_SIZE,
};
use itch_codec::moldudp::{MoldReader, MoldWriter};

/// Prints every message and counts what it saw.
#[derive(Default)]
struct Dumper {
    add_orders: Vec<AddOrder>,
    executions: Vec<OrderExecuted>,
    deletes: Vec<OrderDelete>,
    others: usize,
}

impl ItchHandler for Dumper {
    fn on_system_event(&mut self, msg: SystemEvent) {
        println!("{:?}", msg);
        self.others += 1;
    }
    fn on_add_order(&mut self, msg: AddOrder) {
        println!("{:?}", msg);
        self.add_orders.push(msg);
    }
    fn on_order_executed(&mut self, msg: OrderExecuted) {
        println!("{:?}", msg);
        self.executions.push(msg);
    }
    fn on_order_delete(&mut self, msg: OrderDelete) {
        println!("{:?}", msg);
        self.deletes.push(msg);
    }
}

/// Overrides nothing.
struct Deaf;

impl ItchHandler for Deaf {}

#[test]
fn process_packet() {
    let msgbuf = b"SUCKONTHIS\x00\x00\x00\x00\x00\x00\x00\x02\
    \x00\x03\
    \x00\x24\
    A\x00\x10\x00\x00\
    \x16\xce\xd3\xc5\xb0\xc8\x10\x20\
    \x30\x40\x50\x60\x70\x7F\
    B\
    \x00\x00\x00\x64\
    AMZN    \
    \x01\xe8\x6e\x48\
    \x00\x1f\
    E\x00\x10\x00\x00\x16\xce\xd3\xc5\xb0\xc8\x10\x20\x30\x40\x50\x60\x70\x7F\x00\x00\x00\x0A\x00\x00\x00\x00\x00\x00\x10\x00\
    \x00\x13\
    D\x00\x10\x00\x00\x00\x00\x00\x00\x00\xFF\x10\x20\x30\x40\x50\x60\x70\x7F";
    let mut handler = Dumper::default();
    let reader = MoldReader::new(&msgbuf[..]);
    let mut it = reader.iter();
    let mut i = 0;
    while let Some(msg) = it.next() {
        println!(
            "processing session:{} seqno:{} msgno:{}",
            std::str::from_utf8(reader.session()).unwrap(),
            reader.seqno(),
            i
        );
        crack_message(msg, &mut handler).unwrap();
        i += 1;
    }
    assert_eq!(i, 3);
    assert_eq!(reader.seqno(), 2);
    assert_eq!(
        handler.add_orders,
        vec![AddOrder {
            message_type: b'A',
            stock_locate: 16,
            tracking_number: 0,
            timestamp: 0x16ced3c5b0c8,
            order_reference_number: 0x102030405060707F,
            buy_sell_indicator: eBuySellIndicator(eBuySellIndicator::Buy_Order),
            shares: 100,
            stock: *b"AMZN    ",
            price: 32_009_800,
        }]
    );
    assert_eq!(
        handler.executions,
        vec![OrderExecuted {
            message_type: b'E',
            stock_locate: 16,
            tracking_number: 0,
            timestamp: 0x16ced3c5b0c8,
            order_reference_number: 0x102030405060707F,
            executed_shares: 10,
            match_number: 0x1000,
        }]
    );
    assert_eq!(
        handler.deletes,
        vec![OrderDelete {
            message_type: b'D',
            stock_locate: 16,
            tracking_number: 0,
            timestamp: 0xFF,
            order_reference_number: 0x102030405060707F,
        }]
    );
    assert_eq!(handler.others, 0);
}

#[test]
fn test_write() {
    let mut data = vec![0u8; 512];
    let mut cursor = WriteCursor::new(&mut data[..]);
    write_system_event(
        &mut cursor,
        1234,
        0,
        0,
        eSystemEvent(eSystemEvent::Start_of_Messages),
    )
    .unwrap();
    let expected = b"S\
    \x04\xd2\
    \x00\x00\
    \x00\x00\x00\x00\x00\x00\
    O\
    A\
    \x02\x9a\
    \x00\x00\
    \x00\x00\x00\x00\xff\xff\
    \x00\x00\x00\x00\x00\x00\xbe\xef\
    S\
    \x00\x00\x00\x64\
    AMZN    \
    \x00\x12\xd6\x44";

    let mut add_order = AddOrder::default();
    add_order.stock_locate = 666;
    add_order.timestamp = 65535;
    add_order.order_reference_number = 0xbeef;
    add_order.buy_sell_indicator = eBuySellIndicator(eBuySellIndicator::Sell_Order);
    add_order.shares = 100;
    add_order.stock = b"AMZN    ".clone();
    add_order.price = 1234500;
    write_add_order_struct(&mut cursor, add_order).unwrap();
    assert_eq!(cursor.position(), 12 + 36);

    assert_eq!(data[..12 + 36], expected[..12 + 36]);
}

#[test]
fn batch_of_one_order_reaches_the_order_handler() {
    let mut writer = MoldWriter::new("SESSION001", 2);
    writer.write_message(ADD_ORDER_SIZE as u16, |loc| {
        let mut cursor = WriteCursor::new(loc);
        write_add_order(
            &mut cursor,
            16,
            0,
            100,
            0x1020304050607F,
            eBuySellIndicator(eBuySellIndicator::Sell_Order),
            100,
            *b"AMZN    ",
            32_000_000,
        )
        .unwrap();
    });
    let packet = writer.data().to_vec();

    let reader = MoldReader::new(&packet);
    assert_eq!(reader.session(), b"SESSION001");
    assert_eq!(reader.seqno(), 2);
    assert_eq!(reader.len(), 1);
    let messages = reader.messages();
    assert_eq!(messages.len(), 1);

    let mut handler = Dumper::default();
    crack_message(messages[0], &mut handler).unwrap();
    assert_eq!(handler.others, 0);
    assert!(handler.executions.is_empty());
    assert!(handler.deletes.is_empty());
    assert_eq!(handler.add_orders.len(), 1);
    let got = handler.add_orders[0];
    assert_eq!(got.message_type, b'A');
    assert_eq!(got.stock_locate, 16);
    assert_eq!(got.tracking_number, 0);
    assert_eq!(got.timestamp, 100);
    assert_eq!(got.order_reference_number, 0x1020304050607F);
    assert_eq!(got.buy_sell_indicator, eBuySellIndicator(b'S'));
    assert_eq!(got.shares, 100);
    assert_eq!(&got.stock, b"AMZN    ");
    assert_eq!(got.price, 32_000_000);
}

#[test]
fn unknown_tag_is_reported_with_the_byte() {
    let mut handler = Dumper::default();
    assert_eq!(crack_message(b"?", &mut handler), Err(DecodeError::UnknownType(b'?')));
    assert_eq!(Message::from_bytes(b"?"), Err(DecodeError::UnknownType(b'?')));
    assert_eq!(Message::from_bytes(b"\x00 and more"), Err(DecodeError::UnknownType(0)));
    assert_eq!(handler.others, 0);
    assert!(handler.add_orders.is_empty());
}

#[test]
fn cut_message_is_reported_as_truncated() {
    let mut handler = Dumper::default();
    let mut bytes = [0u8; 36];
    bytes[0] = b'A';
    assert_eq!(crack_message(&bytes[..35], &mut handler), Err(DecodeError::Truncated));
    assert_eq!(crack_message(&bytes[..1], &mut handler), Err(DecodeError::Truncated));
    assert!(handler.add_orders.is_empty());
    assert_eq!(crack_message(&bytes[..], &mut handler), Ok(()));
    assert_eq!(handler.add_orders.len(), 1);
    assert_eq!(Message::from_bytes(b""), Err(DecodeError::Truncated));
}

#[test]
fn handler_that_overrides_nothing_takes_every_message() {
    let mut bytes = [0u8; 50];
    for tag in b"SRHYLVWKJhAFECXDUPQBING" {
        bytes[0] = *tag;
        assert_eq!(crack_message(&bytes, &mut Deaf), Ok(()));
    }
}

#[test]
fn decoding_looks_at_the_tag_only_to_pick_the_type() {
    // A record type decodes whatever stands in the first byte.
    let mut bytes = [0u8; 12];
    bytes[0] = b'Z';
    bytes[11] = b'Q';
    let (event, used) = SystemEvent::from_bytes(&bytes).unwrap();
    assert_eq!(used, SYSTEM_EVENT_SIZE);
    assert_eq!(event.message_type, b'Z');
    assert_eq!(event.event_code, eSystemEvent(b'Q'));
}

#[test]
fn timestamp_of_48_bits_comes_back() {
    for ts in [0u64, 1, 100, 0xffff, 0x16ced3c5b0c8, 0x8000_0000_0000, 0xffff_ffff_ffff] {
        let mut buf = [0u8; 19];
        let mut cursor = WriteCursor::new(&mut buf);
        let mut msg = OrderDelete::default();
        msg.timestamp = ts;
        write_order_delete_struct(&mut cursor, msg).unwrap();
        let (back, _) = OrderDelete::from_bytes(&buf).unwrap();
        assert_eq!(back.timestamp, ts);
    }
}

#[test]
fn timestamp_beyond_48_bits_loses_its_upper_bits() {
    let mut buf = [0u8; 19];
    let mut cursor = WriteCursor::new(&mut buf);
    let mut msg = OrderDelete::default();
    msg.timestamp = 0xabcd_0123_4567_89ab;
    write_order_delete_struct(&mut cursor, msg).unwrap();
    assert_eq!(&buf[5..11], b"\x01\x23\x45\x67\x89\xab");
    let (back, _) = OrderDelete::from_bytes(&buf).unwrap();
    assert_eq!(back.timestamp, 0x0123_4567_89ab);

    let mut buf = [0u8; 19];
    let mut cursor = WriteCursor::new(&mut buf);
    msg.timestamp = 1 << 48;
    write_order_delete_struct(&mut cursor, msg).unwrap();
    let (back, _) = OrderDelete::from_bytes(&buf).unwrap();
    assert_eq!(back.timestamp, 0);
}

#[test]
fn u48_to_u64_exact_values() {
    assert_eq!(u48_to_u64(&[0, 0, 0, 0, 0, 0]), 0);
    assert_eq!(u48_to_u64(&[0, 0, 0, 0, 0, 1]), 1);
    assert_eq!(u48_to_u64(&[0, 0, 0, 0, 1, 0]), 256);
    assert_eq!(u48_to_u64(&[1, 2, 3, 4, 5, 6]), 0x010203040506);
    assert_eq!(u48_to_u64(&[0xff; 6]), 0xffff_ffff_ffff);
    assert_eq!(u48_to_u64(&[0x80, 0, 0, 0, 0, 0]), 1 << 47);
}

#[test]
fn encoded_tag_is_always_the_types_own() {
    let mut buf = [0u8; 19];
    let mut cursor = WriteCursor::new(&mut buf);
    let mut msg = OrderDelete::default();
    msg.message_type = b'Z';
    write_order_delete_struct(&mut cursor, msg).unwrap();
    assert_eq!(buf[0], b'D');
}

#[test]
fn write_into_a_short_buffer_fails_and_fills_it() {
    let mut buf = [0xeeu8; 10];
    let mut cursor = WriteCursor::new(&mut buf);
    let r = write_system_event(&mut cursor, 0x0102, 0x0304, 0x05060708090a, eSystemEvent(b'O'));
    assert_eq!(r, Err(EncodeError::BufferFull));
    assert_eq!(cursor.position(), 10);
    // A further write finds no room.
    assert_eq!(cursor.write_u8(1), Err(EncodeError::BufferFull));
    assert_eq!(cursor.write_all(b""), Ok(()));
    assert_eq!(&buf, b"S\x01\x02\x03\x04\x05\x06\x07\x08\x09");
}

#[test]
fn write_that_fits_exactly_succeeds() {
    let mut buf = [0u8; 14];
    let mut cursor = WriteCursor::new(&mut buf);
    cursor.write_u16(0xfffe).unwrap();
    let r = write_system_event(&mut cursor, 1, 2, 3, eSystemEvent(b'C'));
    assert_eq!(r, Ok(()));
    assert_eq!(cursor.position(), 14);
    assert_eq!(cursor.get_ref(), b"\xff\xfeS\x00\x01\x00\x02\x00\x00\x00\x00\x00\x03C");
    assert_eq!(&buf, b"\xff\xfeS\x00\x01\x00\x02\x00\x00\x00\x00\x00\x03C");
}

#[test]
fn cursor_writes_each_width_big_endian() {
    let mut buf = [0u8; 21];
    let mut cursor = WriteCursor::new(&mut buf);
    cursor.write_u8(0x01).unwrap();
    cursor.write_u16(0x0203).unwrap();
    cursor.write_u32(0x04050607).unwrap();
    cursor.write_u48(0x08090a0b0c0d).unwrap();
    cursor.write_u64(0x0e0f101112131415).unwrap();
    assert_eq!(cursor.position(), 21);
    let expected: Vec<u8> = (1u8..=21).collect();
    assert_eq!(&buf[..], &expected[..]);
}

#[test]
fn from_cursor_moves_on_success_and_stays_on_failure() {
    let mut bytes = Vec::new();
    bytes.extend_from_slice(b"S\x00\x01\x00\x02\x00\x00\x00\x00\x00\x03O");
    bytes.extend_from_slice(b"D\x00\x01\x00\x02\x00\x00\x00\x00\x00\x04\x00\x00\x00\x00\x00\x00\x00");
    let mut rdr = ReadCursor::new(&bytes);
    let event = SystemEvent::from_cursor(&mut rdr).unwrap();
    assert_eq!(event.timestamp, 3);
    assert_eq!(event.event_code, eSystemEvent(b'O'));
    assert_eq!(rdr.position(), 12);
    assert_eq!(rdr.remaining().len(), 18);
    // One byte short of an order delete.
    assert_eq!(OrderDelete::from_cursor(&mut rdr), Err(DecodeError::Truncated));
    assert_eq!(rdr.position(), 12);
    assert_eq!(rdr.remaining()[0], b'D');
}
