use rexmrg::endian::Endian;
use rexmrg::error::XmrgError;
use rexmrg::headers::{
    build_1997_reader, build_4_2_add_reader, build_4_2_reader, build_5_2_2_reader,
    Build1997Header, Build4_2Additions, Build4_2Header, Build5_2_2Header, Metadata, OperSys,
};
use rexmrg::reader::ByteReader;
use rexmrg::text::decode_text;

fn field(text: &str, width: usize) -> Vec<u8> {
    let mut bytes = text.as_bytes().to_vec();
    assert!(bytes.len() <= width);
    bytes.resize(width, b' ');
    bytes
}

fn record_1997() -> Vec<u8> {
    let mut bytes = field("oper", 10);
    bytes.extend(field("0506199516", 20));
    bytes.extend(field("MPA01", 8));
    bytes
}

fn additions(endian: Endian) -> Vec<u8> {
    let mut bytes = field("0506199500", 20);
    match endian {
        Endian::Big => {
            bytes.extend(1234i32.to_be_bytes());
            bytes.extend(1.5f32.to_be_bytes());
        }
        Endian::Little => {
            bytes.extend(1234i32.to_le_bytes());
            bytes.extend(1.5f32.to_le_bytes());
        }
    }
    bytes
}

#[test]
fn text_field_is_decoded_as_utf8() {
    assert_eq!(decode_text(b"HP".to_vec()), "HP");
    assert_eq!(decode_text("gr\u{fc}n \u{2603}".as_bytes().to_vec()), "gr\u{fc}n \u{2603}");
    assert_eq!(decode_text(Vec::new()), "");
}

#[test]
fn malformed_text_field_reads_as_empty() {
    assert_eq!(decode_text(vec![b'a', 0xff, b'b']), "");
    assert_eq!(decode_text(vec![0xc3]), "");
    assert_eq!(decode_text(vec![0xed, 0xa0, 0x80]), "");
    assert_eq!(decode_text(vec![0xc0, 0x80]), "");
}

#[test]
fn operating_system_tags() {
    assert_eq!(OperSys::from_tag(&String::from("LX")), OperSys::LX);
    assert_eq!(OperSys::from_tag(&String::from("HP")), OperSys::HP);
    assert_eq!(OperSys::from_tag(&String::from("lx")), OperSys::Unknown);
    assert_eq!(OperSys::from_tag(&String::from("hp")), OperSys::Unknown);
    assert_eq!(OperSys::from_tag(&String::from("Lx")), OperSys::Unknown);
    assert_eq!(OperSys::from_tag(&String::from("")), OperSys::Unknown);
    assert_eq!(OperSys::from_tag(&String::from("LX ")), OperSys::Unknown);
    assert_eq!(OperSys::from_tag(&String::from("XL")), OperSys::Unknown);
}

#[test]
fn record_of_1997_is_three_text_fields() {
    let mut bytes = record_1997();
    bytes.push(0x55);
    let mut reader = ByteReader::new(bytes);
    let header = build_1997_reader(&mut reader, Endian::Big).unwrap();
    assert_eq!(reader.position(), 38);
    assert_eq!(header.user_id, "oper      ");
    assert_eq!(header.saved_datetime, "0506199516          ");
    assert_eq!(header.process_flag, "MPA01   ");
}

#[test]
fn malformed_field_does_not_stop_the_record() {
    let mut bytes = record_1997();
    bytes[12] = 0xff;
    let mut reader = ByteReader::new(bytes);
    let header = build_1997_reader(&mut reader, Endian::Little).unwrap();
    assert_eq!(reader.position(), 38);
    assert_eq!(header.user_id, "oper      ");
    assert_eq!(header.saved_datetime, "");
    assert_eq!(header.process_flag, "MPA01   ");
}

#[test]
fn short_record_of_1997_fails() {
    let mut bytes = record_1997();
    bytes.pop();
    let mut reader = ByteReader::new(bytes);
    assert!(matches!(
        build_1997_reader(&mut reader, Endian::Big),
        Err(XmrgError::UnexpectedEof)
    ));
    assert_eq!(reader.position(), 37);
}

#[test]
fn additions_of_build_4_2() {
    for endian in [Endian::Big, Endian::Little] {
        let mut reader = ByteReader::new(additions(endian));
        let read = build_4_2_add_reader(&mut reader, endian).unwrap();
        assert_eq!(reader.position(), 28);
        assert_eq!(read.valid_datetime, "0506199500          ");
        assert_eq!(read.max_value, 1234);
        assert_eq!(read.version_number, 1.5f32.to_bits());
        assert_eq!(f32::from_bits(read.version_number), 1.5);
    }
}

#[test]
fn short_additions_fail() {
    let mut bytes = additions(Endian::Big);
    bytes.truncate(27);
    let mut reader = ByteReader::new(bytes);
    assert!(matches!(
        build_4_2_add_reader(&mut reader, Endian::Big),
        Err(XmrgError::UnexpectedEof)
    ));
}

#[test]
fn record_of_build_4_2() {
    let mut bytes = record_1997();
    bytes.extend(additions(Endian::Little));
    assert_eq!(bytes.len(), 66);
    let mut reader = ByteReader::new(bytes);
    let header = build_4_2_reader(&mut reader, Endian::Little).unwrap();
    assert_eq!(reader.position(), 66);
    assert_eq!(header.original.user_id, "oper      ");
    assert_eq!(header.original.saved_datetime, "0506199516          ");
    assert_eq!(header.original.process_flag, "MPA01   ");
    assert_eq!(header.build_4_2_additions.valid_datetime, "0506199500          ");
    assert_eq!(header.build_4_2_additions.max_value, 1234);
    assert_eq!(header.build_4_2_additions.version_number, 1.5f32.to_bits());
}

#[test]
fn short_record_of_build_4_2_fails() {
    let mut bytes = record_1997();
    bytes.extend(additions(Endian::Big));
    bytes.truncate(65);
    let mut reader = ByteReader::new(bytes);
    assert!(matches!(build_4_2_reader(&mut reader, Endian::Big), Err(XmrgError::UnexpectedEof)));
    assert_eq!(reader.position(), 65);
}

fn record_5_2_2(tag: &[u8]) -> Vec<u8> {
    let mut bytes = tag.to_vec();
    bytes.extend(record_1997());
    bytes.extend(additions(Endian::Big));
    bytes
}

#[test]
fn record_of_build_5_2_2() {
    let bytes = record_5_2_2(b"LX");
    assert_eq!(bytes.len(), 68);
    let mut reader = ByteReader::new(bytes);
    let header = build_5_2_2_reader(&mut reader, Endian::Big).unwrap();
    assert_eq!(reader.position(), 68);
    assert_eq!(header.operating_system, OperSys::LX);
    assert_eq!(header.user_id, "oper      ");
    assert_eq!(header.saved_datetime, "0506199516          ");
    assert_eq!(header.process_flag, "MPA01   ");
    assert_eq!(header.build_4_2_additions.valid_datetime, "0506199500          ");
    assert_eq!(header.build_4_2_additions.max_value, 1234);
    assert_eq!(header.build_4_2_additions.version_number, 1.5f32.to_bits());
}

#[test]
fn operating_system_of_a_record() {
    let cases: [(&[u8], OperSys); 6] = [
        (b"HP", OperSys::HP),
        (b"LX", OperSys::LX),
        (b"hp", OperSys::Unknown),
        (b"  ", OperSys::Unknown),
        (&[0xff, 0xfe], OperSys::Unknown),
        (&[b'L', 0x80], OperSys::Unknown),
    ];
    for (tag, system) in cases {
        let mut reader = ByteReader::new(record_5_2_2(tag));
        let header = build_5_2_2_reader(&mut reader, Endian::Big).unwrap();
        assert_eq!(header.operating_system, system);
        assert_eq!(header.user_id, "oper      ");
    }
}

#[test]
fn short_record_of_build_5_2_2_fails() {
    let mut bytes = record_5_2_2(b"HP");
    bytes.truncate(67);
    let mut reader = ByteReader::new(bytes);
    assert!(matches!(
        build_5_2_2_reader(&mut reader, Endian::Big),
        Err(XmrgError::UnexpectedEof)
    ));
    assert_eq!(reader.position(), 67);
}

fn text(s: &str) -> String {
    String::from(s)
}

#[test]
fn metadata_of_1997() {
    let metadata = Metadata::Header1997(Build1997Header::new(text("u"), text("s"), text("p")));
    assert_eq!(metadata.datetime(), "s");
    assert_eq!(metadata.os(), None);
    assert_eq!(metadata.max_value(), None);
    assert_eq!(metadata.user_id(), Some(text("u")));
    assert_eq!(metadata.process_flag(), Some(text("p")));
    assert_eq!(metadata.version(), None);
    assert_eq!(metadata.valid_datetime(), None);
}

#[test]
fn metadata_of_build_4_2() {
    let header = Build4_2Header::new(text("u"), text("s"), text("p"), text("v"), 77, 9);
    let metadata = Metadata::Header4_2(header);
    assert_eq!(metadata.datetime(), "s");
    assert_eq!(metadata.os(), None);
    assert_eq!(metadata.max_value(), Some(77));
    assert_eq!(metadata.user_id(), Some(text("u")));
    assert_eq!(metadata.process_flag(), Some(text("p")));
    assert_eq!(metadata.version(), Some(9));
    assert_eq!(metadata.valid_datetime(), Some(text("v")));
}

#[test]
fn metadata_of_build_4_2_from_its_parts() {
    let header = Build4_2Header::new_2(
        Build1997Header::new(text("u"), text("s"), text("p")),
        Build4_2Additions::new(text("v"), -3, 0x3fc0_0000),
    );
    let metadata = Metadata::Header4_2(header);
    assert_eq!(metadata.datetime(), "s");
    assert_eq!(metadata.max_value(), Some(-3));
    assert_eq!(metadata.version(), Some(0x3fc0_0000));
    assert_eq!(metadata.valid_datetime(), Some(text("v")));
}

#[test]
fn metadata_of_build_5_2_2() {
    let header =
        Build5_2_2Header::new(OperSys::HP, text("u"), text("s"), text("p"), text("v"), 77, 9);
    let metadata = Metadata::Header5_2_2(header);
    assert_eq!(metadata.datetime(), "s");
    assert_eq!(metadata.os(), Some(OperSys::HP));
    assert_eq!(metadata.max_value(), Some(77));
    assert_eq!(metadata.user_id(), Some(text("u")));
    assert_eq!(metadata.process_flag(), Some(text("p")));
    assert_eq!(metadata.version(), Some(9));
    assert_eq!(metadata.valid_datetime(), Some(text("v")));
}

#[test]
fn metadata_of_build_5_2_2_from_its_parts() {
    let header = Build5_2_2Header::new_2(
        OperSys::LX,
        text("u"),
        text("s"),
        text("p"),
        Build4_2Additions::new(text("v"), 5, 6),
    );
    let metadata = Metadata::Header5_2_2(header);
    assert_eq!(metadata.os(), Some(OperSys::LX));
    assert_eq!(metadata.user_id(), Some(text("u")));
    assert_eq!(metadata.max_value(), Some(5));
    assert_eq!(metadata.version(), Some(6));
}
