use itch_codec::moldudp::{MoldReader, MoldWriter, MOLD_HEADER_LEN, MOLD_PACKET_LEN};
use std::str;

fn collect(reader: &MoldReader<'_>) -> Vec<Vec<u8>> {
    let mut it = reader.iter();
    let mut out = Vec::new();
    while let Some(msg) = it.next() {
        out.push(msg.to_vec());
    }
    assert!(it.next().is_none());
    out
}

#[test]
fn mold_iterate() {
    let msgbuf = b"1234567890\x00\x00\x00\x00\x00\x00\x00\x01\x00\x03\x00\x01X\x00\x04ASDF\x00\x0AABCDEFGHIJ";
    let reader = MoldReader::new(&msgbuf[..]);
    let mut it = reader.iter();
    let mut i = 0;
    while let Some(msg) = it.next() {
        println!(
            "msg: session[{}] seqno[{}] msg#{}: \"{}\"",
            str::from_utf8(reader.session()).unwrap(),
            reader.seqno(),
            i,
            str::from_utf8(msg).unwrap()
        );
        i += 1;
    }
    println!("seqno was: {}", reader.seqno());
    assert_eq!(i, 3);
    assert_eq!(reader.seqno(), 1);
    assert_eq!(reader.len(), 3);
    assert_eq!(reader.session(), b"1234567890");
    assert_eq!(collect(&reader), vec![b"X".to_vec(), b"ASDF".to_vec(), b"ABCDEFGHIJ".to_vec()]);
}

#[test]
fn mold_writer() {
    let mut writer = MoldWriter::new("1234567890", 666);
    writer
        .add_message(b"HELLO")
        .add_message(b"GOODBYE")
        .add_message(b"BOOGADEEBOO")
        .write_message(6, |loc| {
            loc.clone_from_slice(b"FOOBAR");
        })
        .write_message(12, |loc| {
            loc.clone_from_slice(b"BAZQUXFOOBAR");
        });
    let buf = writer.data();
    assert_eq!(&buf[0..10], b"1234567890");
    println!("{:?}", buf);

    let reader = MoldReader::new(&buf);
    assert_eq!(reader.len(), 5);
    assert_eq!(reader.seqno(), 666);
    let expected = vec!["HELLO", "GOODBYE", "BOOGADEEBOO", "FOOBAR", "BAZQUXFOOBAR"];
    let mut it = reader.iter();
    let mut i = 0;
    while let Some(msg) = it.next() {
        println!(
            "msg: session[{}] seqno[{}] msg#{}: \"{}\"",
            str::from_utf8(reader.session()).unwrap(),
            reader.seqno() + i as u64,
            i,
            str::from_utf8(msg).unwrap()
        );
        assert_eq!(std::str::from_utf8(msg).unwrap(), expected[i]);
        i += 1;
    }
    assert_eq!(i, 5);
}

#[test]
fn writer_lays_out_the_packet_byte_for_byte() {
    let mut writer = MoldWriter::new("SESSION001", 0x0102030405060708);
    writer.add_message(b"AB").add_message(b"");
    let expected: &[u8] =
        b"SESSION001\x01\x02\x03\x04\x05\x06\x07\x08\x00\x02\x00\x02AB\x00\x00";
    assert_eq!(writer.data(), expected);
    assert_eq!(writer.size_remaining(), MOLD_PACKET_LEN - expected.len());
}

#[test]
fn reader_yields_three_of_three() {
    let packet = b"ABCDEFGHIJ\x00\x00\x00\x00\x00\x00\x00\x07\x00\x03\x00\x02hi\x00\x00\x00\x03abc";
    let reader = MoldReader::new(&packet[..]);
    assert!(reader.has_header());
    assert_eq!(reader.len(), 3);
    assert_eq!(reader.seqno(), 7);
    assert_eq!(collect(&reader), vec![b"hi".to_vec(), b"".to_vec(), b"abc".to_vec()]);
    let all = reader.messages();
    assert_eq!(all.len(), 3);
    assert_eq!(all[0], b"hi");
    assert_eq!(all[1], b"");
    assert_eq!(all[2], b"abc");
}

#[test]
fn reader_stops_at_a_short_batch() {
    let packet = b"ABCDEFGHIJ\x00\x00\x00\x00\x00\x00\x00\x07\x00\x05\x00\x02hi\x00\x03abc";
    let reader = MoldReader::new(&packet[..]);
    assert_eq!(reader.len(), 5);
    assert_eq!(collect(&reader), vec![b"hi".to_vec(), b"abc".to_vec()]);
}

#[test]
fn reader_stops_at_a_cut_message() {
    // The third length says four bytes and only three are there.
    let packet = b"ABCDEFGHIJ\x00\x00\x00\x00\x00\x00\x00\x07\x00\x03\x00\x02hi\x00\x01x\x00\x04abc";
    let reader = MoldReader::new(&packet[..]);
    assert_eq!(collect(&reader), vec![b"hi".to_vec(), b"x".to_vec()]);
}

#[test]
fn reader_stops_at_half_a_length() {
    let packet = b"ABCDEFGHIJ\x00\x00\x00\x00\x00\x00\x00\x07\x00\x03\x00\x02hi\x00";
    let reader = MoldReader::new(&packet[..]);
    assert_eq!(collect(&reader), vec![b"hi".to_vec()]);
}

#[test]
fn reader_yields_no_more_than_the_count() {
    let packet = b"ABCDEFGHIJ\x00\x00\x00\x00\x00\x00\x00\x07\x00\x01\x00\x02hi\x00\x03abc";
    let reader = MoldReader::new(&packet[..]);
    assert_eq!(collect(&reader), vec![b"hi".to_vec()]);
    assert_eq!(reader.messages().len(), 1);
}

#[test]
fn reader_of_a_bare_header_yields_nothing() {
    let packet = b"ABCDEFGHIJ\x00\x00\x00\x00\x00\x00\x00\x07\x00\x00";
    assert_eq!(packet.len(), MOLD_HEADER_LEN);
    let reader = MoldReader::new(&packet[..]);
    assert_eq!(reader.len(), 0);
    assert!(collect(&reader).is_empty());
}

#[test]
fn reader_without_a_header_yields_nothing() {
    let packet = b"ABCDEFGHIJ\x00\x00\x00";
    let reader = MoldReader::new(&packet[..]);
    assert!(!reader.has_header());
    assert!(collect(&reader).is_empty());
    assert!(reader.messages().is_empty());
}

#[test]
fn reader_reads_a_two_byte_length() {
    let mut packet = b"ABCDEFGHIJ\x00\x00\x00\x00\x00\x00\x00\x07\x00\x01\x01\x02".to_vec();
    packet.extend(std::iter::repeat(0x55u8).take(0x0102));
    let reader = MoldReader::new(&packet[..]);
    let got = collect(&reader);
    assert_eq!(got.len(), 1);
    assert_eq!(got[0].len(), 258);
}

#[test]
fn reader_reads_a_wide_sequence_number_and_count() {
    let packet = b"ABCDEFGHIJ\xff\xee\xdd\xcc\xbb\xaa\x99\x88\x12\x34";
    let reader = MoldReader::new(&packet[..]);
    assert_eq!(reader.seqno(), 0xffeeddccbbaa9988);
    assert_eq!(reader.len(), 0x1234);
}

#[test]
fn writer_fills_up_and_then_does_nothing() {
    let mut writer = MoldWriter::new("0123456789", 1);
    assert_eq!(writer.size_remaining(), MOLD_PACKET_LEN - MOLD_HEADER_LEN);
    let chunk = [0xabu8; 98];
    let mut added = 0;
    while writer.can_fit(chunk.len()) {
        writer.add_message(&chunk);
        added += 1;
    }
    // 1380 free bytes hold thirteen messages of 98 + 2 bytes and leave 80.
    assert_eq!(added, 13);
    assert_eq!(writer.size_remaining(), 80);
    let before = writer.data().to_vec();
    writer.add_message(&chunk);
    assert_eq!(writer.data(), &before[..]);
    assert_eq!(writer.size_remaining(), 80);
    writer.write_message(98, |loc| loc.fill(1));
    assert_eq!(writer.data(), &before[..]);
    let reader = MoldReader::new(writer.data());
    assert_eq!(reader.len(), 13);
    assert_eq!(collect(&reader).len(), 13);
}

#[test]
fn writer_takes_a_message_that_fills_it_to_the_last_byte() {
    let mut writer = MoldWriter::new("0123456789", 1);
    let big = [7u8; 1300];
    writer.add_message(&big);
    assert_eq!(writer.size_remaining(), 78);
    assert!(writer.can_fit(76));
    assert!(!writer.can_fit(77));
    writer.add_message(&[9u8; 77]);
    assert_eq!(writer.size_remaining(), 78);
    writer.add_message(&[9u8; 76]);
    assert_eq!(writer.size_remaining(), 0);
    assert_eq!(writer.data().len(), MOLD_PACKET_LEN);
    assert!(!writer.can_fit(0));
    let reader = MoldReader::new(writer.data());
    assert_eq!(reader.len(), 2);
    let got = collect(&reader);
    assert_eq!(got[0], big.to_vec());
    assert_eq!(got[1], vec![9u8; 76]);
}

#[test]
fn writer_can_fit_does_not_wrap() {
    let writer = MoldWriter::new("0123456789", 1);
    assert!(!writer.can_fit(usize::MAX));
    assert!(!writer.can_fit(usize::MAX - 1));
    assert!(writer.can_fit(1378));
    assert!(!writer.can_fit(1379));
}

#[test]
fn writer_reset_keeps_the_header() {
    let mut writer = MoldWriter::new("0123456789", 42);
    writer.add_message(b"one").add_message(b"two");
    writer.reset();
    assert_eq!(writer.data(), b"0123456789\x00\x00\x00\x00\x00\x00\x00\x2a\x00\x00");
    assert_eq!(writer.size_remaining(), MOLD_PACKET_LEN - MOLD_HEADER_LEN);
    writer.add_message(b"three");
    let reader = MoldReader::new(writer.data());
    assert_eq!(reader.seqno(), 42);
    assert_eq!(collect(&reader), vec![b"three".to_vec()]);
}

#[test]
fn writer_sets_session_and_sequence_number_in_place() {
    let mut writer = MoldWriter::new("0123456789", 42);
    writer.add_message(b"kept");
    writer.set_session("ABCDEFGHIJ").set_seqno(0x0100);
    let reader = MoldReader::new(writer.data());
    assert_eq!(reader.session(), b"ABCDEFGHIJ");
    assert_eq!(reader.seqno(), 256);
    assert_eq!(collect(&reader), vec![b"kept".to_vec()]);
}

#[test]
fn write_message_hands_over_what_the_buffer_held() {
    let mut writer = MoldWriter::new("0123456789", 1);
    writer.add_message(b"abcdef");
    writer.reset();
    // The bytes of the old message are still there behind the new length.
    writer.write_message(4, |loc| {
        assert_eq!(loc.len(), 4);
        loc[0] = b'X';
    });
    let reader = MoldReader::new(writer.data());
    assert_eq!(collect(&reader), vec![b"Xbcd".to_vec()]);
}
