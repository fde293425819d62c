use hldemo::errors::{decimal, signed_decimal, Error, ErrorKind};
use hldemo::parse;
use hldemo::parse::frame::netmsg::{movevars, net_msg_data_inner, net_msg_info, ref_params, usercmd};
use hldemo::parse::frame::{
    frame, frame_data, frame_header, frame_next_section, parse_frame_type, FrameType,
};
use hldemo::parse::Needed;
use hldemo::FrameData;

fn need(count: usize) -> Error {
    Error::from_kind(ErrorKind::NeedMoreBytes(Some(count)))
}

fn counting(size: usize) -> Vec<u8> {
    (0..size).map(|i| (i * 7 + 3) as u8).collect()
}

fn u32_at(bytes: &[u8], at: usize) -> u32 {
    u32::from_le_bytes([bytes[at], bytes[at + 1], bytes[at + 2], bytes[at + 3]])
}

fn i32_at(bytes: &[u8], at: usize) -> i32 {
    u32_at(bytes, at) as i32
}

#[test]
fn numbers_are_little_endian() {
    let bytes = [0x01u8, 0x02, 0x03, 0x84, 0xff, 0xfe];
    assert_eq!(parse::le_u32(&bytes, 0), Ok((4, 0x8403_0201)));
    assert_eq!(parse::le_i32(&bytes, 0), Ok((4, 0x8403_0201u32 as i32)));
    assert_eq!(parse::le_i32(&bytes, 0), Ok((4, -2080177663)));
    assert_eq!(parse::le_u32(&bytes, 2), Ok((6, 0xfeff_8403)));
    assert_eq!(parse::le_i32(&[0xfe, 0xff, 0xff, 0xff], 0), Ok((4, -2)));
    assert_eq!(parse::le_u16(&bytes, 1), Ok((3, 0x0302)));
    assert_eq!(parse::le_u16(&bytes, 4), Ok((6, 0xfeff)));
    assert_eq!(parse::le_i16(&bytes, 4), Ok((6, -257)));
    assert_eq!(parse::le_i16(&bytes, 0), Ok((2, 0x0201)));
    assert_eq!(parse::be_u8(&bytes, 3), Ok((4, 0x84)));
    assert_eq!(parse::be_i8(&bytes, 3), Ok((4, -124)));
    assert_eq!(parse::be_i8(&bytes, 1), Ok((2, 2)));
}

#[test]
fn short_reads_name_their_size() {
    let bytes = [1u8, 2, 3];
    assert_eq!(parse::le_u32(&bytes, 0), Err(need(4)));
    assert_eq!(parse::le_i32(&bytes, 0), Err(need(4)));
    assert_eq!(parse::le_u16(&bytes, 2), Err(need(2)));
    assert_eq!(parse::le_i16(&bytes, 2), Err(need(2)));
    assert_eq!(parse::be_u8(&bytes, 3), Err(need(1)));
    assert_eq!(parse::be_i8(&bytes, 3), Err(need(1)));
    assert_eq!(parse::be_u8(&bytes, 99), Err(need(1)));
    assert_eq!(parse::le_u32(&bytes, usize::MAX), Err(need(4)));
    assert_eq!(parse::take(&bytes, 1, 3), Err(need(3)));
    assert_eq!(parse::take(&bytes, 4, 0), Err(need(0)));
    assert_eq!(parse::take(&bytes, 1, usize::MAX), Err(need(usize::MAX)));
    assert_eq!(parse::xyz(&[0u8; 11], 0), Err(need(4)));
    assert_eq!(parse::i32_4(&[0u8; 15], 0), Err(need(4)));
}

#[test]
fn take_borrows_the_bytes() {
    let bytes = [1u8, 2, 3, 4, 5];
    assert_eq!(parse::take(&bytes, 1, 3), Ok((4, &bytes[1..4])));
    assert_eq!(parse::take(&bytes, 5, 0), Ok((5, &bytes[5..])));
    assert_eq!(parse::take(&bytes, 0, 5), Ok((5, &bytes[..])));
}

#[test]
fn vectors_keep_their_order() {
    let bytes = counting(20);
    assert_eq!(
        parse::xyz(&bytes, 1),
        Ok((13, [u32_at(&bytes, 1), u32_at(&bytes, 5), u32_at(&bytes, 9)]))
    );
    assert_eq!(
        parse::i32_4(&bytes, 2),
        Ok((18, [i32_at(&bytes, 2), i32_at(&bytes, 6), i32_at(&bytes, 10), i32_at(&bytes, 14)]))
    );
    let one = 1.0f32.to_bits().to_le_bytes();
    let mut bytes = Vec::new();
    for _ in 0..3 {
        bytes.extend_from_slice(&one);
    }
    let (_, v) = parse::xyz(&bytes, 0).unwrap();
    assert_eq!([f32::from_bits(v[0]), f32::from_bits(v[1]), f32::from_bits(v[2])], [1.0, 1.0, 1.0]);
}

#[test]
fn length_bytes_reads_as_many_as_said() {
    let bytes = [9u8, 3, 0, 0, 0, 10, 11, 12, 13];
    assert_eq!(parse::length_bytes(&bytes, 1), Ok((8, &bytes[5..8])));
    let bytes = [5u8, 0, 0, 0, 1, 2, 3, 4];
    assert_eq!(parse::length_bytes(&bytes, 0), Err(need(5)));
    assert_eq!(parse::length_bytes(&bytes[..3], 0), Err(need(4)));
    let bytes = [0xffu8, 0xff, 0xff, 0xff, 1, 2];
    assert_eq!(parse::length_bytes(&bytes, 0), Err(need(usize::MAX)));
    let bytes = [0u8, 0, 0, 0x80];
    assert_eq!(parse::length_bytes(&bytes, 0), Err(need(usize::MAX - 0x7fff_ffff)));
    assert_eq!(parse::as_usize(7), 7);
    assert_eq!(parse::as_usize(-1), usize::MAX);
    assert_eq!(parse::as_usize(i32::MIN), (i32::MIN as isize) as usize);
    assert_eq!(parse::as_usize(-20), (-20i32) as usize);
}

#[test]
fn needed_becomes_an_error_kind() {
    assert_eq!(Error::from_needed(Needed::Size(12)).kind, ErrorKind::NeedMoreBytes(Some(12)));
    assert_eq!(Error::from_needed(Needed::Unknown).kind, ErrorKind::NeedMoreBytes(None));
    assert_eq!(ErrorKind::NeedMoreBytes(Some(12)).to_string(), "need 12 more bytes");
    assert_eq!(ErrorKind::NeedMoreBytes(None).to_string(), "need (unknown) more bytes");
    assert_eq!(Error::from(parse::Error::Frames).kind, ErrorKind::ParseError(parse::Error::Frames));
    let inner = Error::from_needed(Needed::Size(4));
    let outer = Error::with_chain(inner, ErrorKind::ParseError(parse::Error::Frames));
    assert_eq!(
        outer.chain(),
        vec![ErrorKind::ParseError(parse::Error::Frames), ErrorKind::NeedMoreBytes(Some(4))]
    );
    let outermost = Error::with_chain(outer, ErrorKind::ParseError(parse::Error::Directory));
    assert_eq!(outermost.chain().len(), 3);
    assert_eq!(outermost.chain()[0], ErrorKind::ParseError(parse::Error::Directory));
    assert_eq!(Error::from_kind(ErrorKind::NeedMoreBytes(None)).chain(), vec![ErrorKind::NeedMoreBytes(None)]);
}

#[test]
fn messages_are_exact() {
    assert_eq!(parse::Error::Header.to_string(), "couldn't parse the demo header");
    assert_eq!(parse::Error::Directory.to_string(), "couldn't parse the demo directory");
    assert_eq!(parse::Error::Frames.to_string(), "couldn't parse the demo frames");
    assert_eq!(parse::Error::InvalidMagic.to_string(), "invalid magic value");
    assert_eq!(
        parse::Error::InvalidDemoProtocol(-7).to_string(),
        "invalid demo protocol: -7 (only protocol 5 is supported)"
    );
    assert_eq!(
        parse::Error::InvalidDirectoryEntryCount(0).to_string(),
        "invalid directory entry count: 0 (expected from 1 to 1024)"
    );
    assert_eq!(
        parse::Error::InvalidFrameType(255).to_string(),
        "invalid frame type: 255 (expected from 0 to 9)"
    );
    assert_eq!(
        parse::Error::InvalidNetMsgLength(i32::MIN).to_string(),
        "invalid netmsg length: -2147483648 (expected from 0 to 65536)"
    );
    assert_eq!(
        ErrorKind::ParseError(parse::Error::InvalidMagic).to_string(),
        "invalid magic value"
    );
}

#[test]
fn decimal_digits() {
    assert_eq!(decimal(0), "0");
    assert_eq!(decimal(9), "9");
    assert_eq!(decimal(10), "10");
    assert_eq!(decimal(1234567890), "1234567890");
    assert_eq!(decimal(u64::MAX), "18446744073709551615");
    assert_eq!(signed_decimal(0), "0");
    assert_eq!(signed_decimal(-1), "-1");
    assert_eq!(signed_decimal(i32::MAX), "2147483647");
    assert_eq!(signed_decimal(i32::MIN), "-2147483648");
}

#[test]
fn checks_accept_their_ranges() {
    assert_eq!(parse::header::check_demo_protocol(5), Ok(5));
    assert_eq!(parse::header::check_demo_protocol(4), Err(parse::Error::InvalidDemoProtocol(4)));
    assert_eq!(parse::directory::check_count(1), Ok(1));
    assert_eq!(parse::directory::check_count(1024), Ok(1024));
    assert_eq!(parse::directory::check_count(0), Err(parse::Error::InvalidDirectoryEntryCount(0)));
    assert_eq!(
        parse::directory::check_count(1025),
        Err(parse::Error::InvalidDirectoryEntryCount(1025))
    );
    assert_eq!(parse::frame::netmsg::check_msg_length(0), Ok(0));
    assert_eq!(parse::frame::netmsg::check_msg_length(65536), Ok(65536));
    assert_eq!(
        parse::frame::netmsg::check_msg_length(65537),
        Err(parse::Error::InvalidNetMsgLength(65537))
    );
    assert_eq!(
        parse::frame::netmsg::check_msg_length(-1),
        Err(parse::Error::InvalidNetMsgLength(-1))
    );
}

#[test]
fn frame_types_by_their_byte() {
    assert_eq!(parse_frame_type(0), Ok(FrameType::NetMsg(0)));
    assert_eq!(parse_frame_type(1), Ok(FrameType::NetMsg(1)));
    assert_eq!(parse_frame_type(2), Ok(FrameType::DemoStart));
    assert_eq!(parse_frame_type(3), Ok(FrameType::ConsoleCommand));
    assert_eq!(parse_frame_type(4), Ok(FrameType::ClientData));
    assert_eq!(parse_frame_type(5), Ok(FrameType::NextSection));
    assert_eq!(parse_frame_type(6), Ok(FrameType::Event));
    assert_eq!(parse_frame_type(7), Ok(FrameType::WeaponAnim));
    assert_eq!(parse_frame_type(8), Ok(FrameType::Sound));
    assert_eq!(parse_frame_type(9), Ok(FrameType::DemoBuffer));
    assert_eq!(parse_frame_type(10), Err(parse::Error::InvalidFrameType(10)));
    assert_eq!(parse_frame_type(255), Err(parse::Error::InvalidFrameType(255)));
}

#[test]
fn magic_and_what_follows() {
    assert_eq!(parse::header::magic(b"HLDEMO\x00\x00rest"), Ok((8, ())));
    assert_eq!(parse::header::magic(b"HLDEMO\x01\x02"), Ok((8, ())));
    assert_eq!(parse::header::magic(b"HLDEMO\x01"), Err(need(2)));
    assert_eq!(parse::header::magic(b"HLDEM"), Err(need(6)));
    assert_eq!(parse::header::magic(b""), Err(need(6)));
    assert_eq!(parse::header::magic(b"HLDEMX\x00\x00"), Err(Error::from(parse::Error::InvalidMagic)));
    assert_eq!(parse::header::magic(b"hLDEMO\x00\x00"), Err(Error::from(parse::Error::InvalidMagic)));
    assert_eq!(parse::header::magic(b"HLX"), Err(Error::from(parse::Error::InvalidMagic)));
    assert_eq!(parse::header::demo_protocol(&[0, 5, 0, 0, 0], 1), Ok((5, 5)));
    assert_eq!(
        parse::header::demo_protocol(&[0, 6, 0, 0, 0], 1),
        Err(Error::from(parse::Error::InvalidDemoProtocol(6)))
    );
    assert_eq!(parse::header::demo_protocol(&[0, 5, 0, 0], 1), Err(need(4)));
}

#[test]
fn frame_header_fields() {
    let mut bytes = vec![0xaau8, 8];
    bytes.extend_from_slice(&3.5f32.to_bits().to_le_bytes());
    bytes.extend_from_slice(&(-9i32).to_le_bytes());
    let (end, header) = frame_header(&bytes, 1).ok().unwrap();
    assert_eq!(end, 10);
    assert_eq!(header.frame_type, FrameType::Sound);
    assert_eq!(f32::from_bits(header.time), 3.5);
    assert_eq!(header.frame, -9);
    assert_eq!(frame_header(&bytes[..9], 1).err().unwrap(), need(4));
    assert_eq!(frame_header(&bytes[..4], 1).err().unwrap(), need(4));
    assert_eq!(frame_header(&bytes[..1], 1).err().unwrap(), need(1));
    assert!(frame_next_section(&bytes, 1).is_none());
    bytes[1] = 5;
    let (end, last) = frame_next_section(&bytes, 1).unwrap();
    assert_eq!(end, 10);
    assert_eq!(f32::from_bits(last.time), 3.5);
    assert_eq!(last.frame, -9);
    assert_eq!(last.data, FrameData::NextSection);
    assert!(frame_next_section(&bytes[..9], 1).is_none());
    bytes[1] = 12;
    assert!(frame_next_section(&bytes, 1).is_none());
    assert_eq!(frame(&bytes, 1).err().unwrap(), Error::from(parse::Error::InvalidFrameType(12)));
}

#[test]
fn data_of_each_frame_type() {
    let bytes = counting(600);
    assert_eq!(frame_data(&bytes, 5, FrameType::DemoStart), Ok((5, FrameData::DemoStart)));
    assert_eq!(frame_data(&bytes, 5, FrameType::NextSection), Ok((5, FrameData::NextSection)));
    assert_eq!(frame_data(&bytes, 9999, FrameType::DemoStart), Ok((9999, FrameData::DemoStart)));

    match frame_data(&bytes, 5, FrameType::ConsoleCommand).unwrap() {
        (69, FrameData::ConsoleCommand(data)) => assert_eq!(data.command, &bytes[5..69]),
        other => panic!("{:?}", other),
    }
    assert_eq!(frame_data(&bytes[..68], 5, FrameType::ConsoleCommand), Err(need(64)));

    match frame_data(&bytes, 3, FrameType::ClientData).unwrap() {
        (35, FrameData::ClientData(data)) => {
            assert_eq!(data.origin, [u32_at(&bytes, 3), u32_at(&bytes, 7), u32_at(&bytes, 11)]);
            assert_eq!(data.viewangles, [u32_at(&bytes, 15), u32_at(&bytes, 19), u32_at(&bytes, 23)]);
            assert_eq!(data.weapon_bits, i32_at(&bytes, 27));
            assert_eq!(data.fov, u32_at(&bytes, 31));
        },
        other => panic!("{:?}", other),
    }
    assert_eq!(frame_data(&bytes[..34], 3, FrameType::ClientData), Err(need(4)));

    match frame_data(&bytes, 2, FrameType::Event).unwrap() {
        (86, FrameData::Event(data)) => {
            assert_eq!(data.flags, i32_at(&bytes, 2));
            assert_eq!(data.index, i32_at(&bytes, 6));
            assert_eq!(data.delay, u32_at(&bytes, 10));
            assert_eq!(data.args.flags, i32_at(&bytes, 14));
            assert_eq!(data.args.entity_index, i32_at(&bytes, 18));
            assert_eq!(data.args.origin[0], u32_at(&bytes, 22));
            assert_eq!(data.args.angles[1], u32_at(&bytes, 38));
            assert_eq!(data.args.velocity[2], u32_at(&bytes, 54));
            assert_eq!(data.args.ducking, i32_at(&bytes, 58));
            assert_eq!(data.args.fparam1, u32_at(&bytes, 62));
            assert_eq!(data.args.fparam2, u32_at(&bytes, 66));
            assert_eq!(data.args.iparam1, i32_at(&bytes, 70));
            assert_eq!(data.args.iparam2, i32_at(&bytes, 74));
            assert_eq!(data.args.bparam1, i32_at(&bytes, 78));
            assert_eq!(data.args.bparam2, i32_at(&bytes, 82));
        },
        other => panic!("{:?}", other),
    }
    assert_eq!(frame_data(&bytes[..85], 2, FrameType::Event), Err(need(4)));

    match frame_data(&bytes, 1, FrameType::WeaponAnim).unwrap() {
        (9, FrameData::WeaponAnim(data)) => {
            assert_eq!(data.anim, i32_at(&bytes, 1));
            assert_eq!(data.body, i32_at(&bytes, 5));
        },
        other => panic!("{:?}", other),
    }
    assert_eq!(frame_data(&bytes[..8], 1, FrameType::WeaponAnim), Err(need(4)));

    let mut sound = vec![0u8, 0x11, 0x22, 0x33, 0x44, 2, 0, 0, 0, b'a', b'b'];
    sound.extend_from_slice(&0.5f32.to_bits().to_le_bytes());
    sound.extend_from_slice(&2.0f32.to_bits().to_le_bytes());
    sound.extend_from_slice(&(-3i32).to_le_bytes());
    sound.extend_from_slice(&100i32.to_le_bytes());
    match frame_data(&sound, 1, FrameType::Sound).unwrap() {
        (27, FrameData::Sound(data)) => {
            assert_eq!(data.channel, 0x4433_2211);
            assert_eq!(data.sample, b"ab");
            assert_eq!(f32::from_bits(data.attenuation), 0.5);
            assert_eq!(f32::from_bits(data.volume), 2.0);
            assert_eq!(data.flags, -3);
            assert_eq!(data.pitch, 100);
        },
        other => panic!("{:?}", other),
    }
    assert_eq!(frame_data(&sound[..26], 1, FrameType::Sound), Err(need(4)));
    assert_eq!(frame_data(&sound[..10], 1, FrameType::Sound), Err(need(2)));
    assert_eq!(frame_data(&sound[..8], 1, FrameType::Sound), Err(need(4)));
    assert_eq!(frame_data(&sound[..4], 1, FrameType::Sound), Err(need(4)));

    let buffer = [3u8, 0, 0, 0, 7, 8, 9, 10];
    match frame_data(&buffer, 0, FrameType::DemoBuffer).unwrap() {
        (7, FrameData::DemoBuffer(data)) => assert_eq!(data.buffer, &[7, 8, 9]),
        other => panic!("{:?}", other),
    }
    assert_eq!(frame_data(&buffer[..6], 0, FrameType::DemoBuffer), Err(need(3)));
}

#[test]
fn net_msg_kinds() {
    let mut bytes = counting(464);
    bytes.extend_from_slice(&2i32.to_le_bytes());
    bytes.extend_from_slice(&[0xab, 0xcd, 0xef]);
    for (raw, start) in [(0u8, true), (1, false), (77, false)] {
        match frame_data(&bytes, 0, FrameType::NetMsg(raw)).unwrap() {
            (470, FrameData::NetMsgStart(data)) => {
                assert!(start);
                assert_eq!(data.msg, &[0xab, 0xcd]);
            },
            (470, FrameData::NetMsg(data)) => {
                assert!(!start);
                assert_eq!(data.msg, &[0xab, 0xcd]);
            },
            other => panic!("{:?}", other),
        }
    }
}

#[test]
fn net_msg_fields() {
    let mut bytes = counting(465);
    bytes.extend_from_slice(&3i32.to_le_bytes());
    bytes.extend_from_slice(&[1, 2, 3, 4]);
    let at = 1;
    let (end, data) = net_msg_data_inner(&bytes, at).unwrap();
    assert_eq!(end, 1 + 468 + 3);
    assert_eq!(data.msg, &[1, 2, 3]);
    assert_eq!(data.info.timestamp, u32_at(&bytes, at));
    let rp = &data.info.ref_params;
    assert_eq!(rp.vieworg, [u32_at(&bytes, at + 4), u32_at(&bytes, at + 8), u32_at(&bytes, at + 12)]);
    assert_eq!(rp.up[2], u32_at(&bytes, at + 4 + 56));
    assert_eq!(rp.frametime, u32_at(&bytes, at + 4 + 60));
    assert_eq!(rp.time, u32_at(&bytes, at + 4 + 64));
    assert_eq!(rp.intermission, i32_at(&bytes, at + 4 + 68));
    assert_eq!(rp.waterlevel, i32_at(&bytes, at + 4 + 84));
    assert_eq!(rp.simvel[0], u32_at(&bytes, at + 4 + 88));
    assert_eq!(rp.idealpitch, u32_at(&bytes, at + 4 + 124));
    assert_eq!(rp.health, i32_at(&bytes, at + 4 + 140));
    assert_eq!(rp.viewsize, u32_at(&bytes, at + 4 + 156));
    assert_eq!(rp.maxclients, i32_at(&bytes, at + 4 + 172));
    assert_eq!(rp.ptr_movevars, i32_at(&bytes, at + 4 + 204));
    assert_eq!(
        rp.viewport,
        [
            i32_at(&bytes, at + 4 + 208),
            i32_at(&bytes, at + 4 + 212),
            i32_at(&bytes, at + 4 + 216),
            i32_at(&bytes, at + 4 + 220)
        ]
    );
    assert_eq!(rp.next_view, i32_at(&bytes, at + 4 + 224));
    assert_eq!(rp.only_client_draw, i32_at(&bytes, at + 4 + 228));
    let uc = &data.info.usercmd;
    let u = at + 236;
    assert_eq!(uc.lerp_msec, i16::from_le_bytes([bytes[u], bytes[u + 1]]));
    assert_eq!(uc.msec, bytes[u + 2]);
    assert_eq!(uc.viewangles[0], u32_at(&bytes, u + 4));
    assert_eq!(uc.forwardmove, u32_at(&bytes, u + 16));
    assert_eq!(uc.sidemove, u32_at(&bytes, u + 20));
    assert_eq!(uc.upmove, u32_at(&bytes, u + 24));
    assert_eq!(uc.lightlevel, bytes[u + 28] as i8);
    assert_eq!(uc.buttons, u16::from_le_bytes([bytes[u + 30], bytes[u + 31]]));
    assert_eq!(uc.impulse, bytes[u + 32] as i8);
    assert_eq!(uc.weaponselect, bytes[u + 33] as i8);
    assert_eq!(uc.impact_index, i32_at(&bytes, u + 36));
    assert_eq!(uc.impact_position[2], u32_at(&bytes, u + 48));
    let mv = &data.info.movevars;
    let m = at + 288;
    assert_eq!(mv.gravity, u32_at(&bytes, m));
    assert_eq!(mv.wave_height, u32_at(&bytes, m + 60));
    assert_eq!(mv.footsteps, i32_at(&bytes, m + 64));
    assert_eq!(mv.sky_name, &bytes[m + 68..m + 100]);
    assert_eq!(mv.rollangle, u32_at(&bytes, m + 100));
    assert_eq!(mv.skyvec_z, u32_at(&bytes, m + 128));
    assert_eq!(data.info.view[0], u32_at(&bytes, at + 420));
    assert_eq!(data.info.viewmodel, i32_at(&bytes, at + 432));
    assert_eq!(data.incoming_sequence, i32_at(&bytes, at + 436));
    assert_eq!(data.incoming_acknowledged, i32_at(&bytes, at + 440));
    assert_eq!(data.incoming_reliable_acknowledged, i32_at(&bytes, at + 444));
    assert_eq!(data.incoming_reliable_sequence, i32_at(&bytes, at + 448));
    assert_eq!(data.outgoing_sequence, i32_at(&bytes, at + 452));
    assert_eq!(data.reliable_sequence, i32_at(&bytes, at + 456));
    assert_eq!(data.last_reliable_sequence, i32_at(&bytes, at + 460));
}

#[test]
fn short_net_msg_names_the_field_that_fell_short() {
    let mut bytes = counting(464);
    bytes.extend_from_slice(&5i32.to_le_bytes());
    bytes.extend_from_slice(&[1, 2, 3, 4, 5]);
    let expect = |size: usize, count: usize| {
        assert_eq!(net_msg_data_inner(&bytes[..size], 0).err().unwrap(), need(count), "size {}", size);
    };
    expect(0, 4);
    expect(235, 4);
    expect(236, 2);
    expect(237, 2);
    expect(238, 1);
    expect(239, 1);
    expect(240, 4);
    expect(263, 4);
    expect(264, 1);
    expect(265, 1);
    expect(266, 2);
    expect(267, 2);
    expect(268, 1);
    expect(269, 1);
    expect(270, 2);
    expect(271, 2);
    expect(272, 4);
    expect(355, 4);
    expect(356, 32);
    expect(387, 32);
    expect(388, 4);
    expect(467, 4);
    expect(468, 5);
    expect(472, 5);
    assert!(net_msg_data_inner(&bytes, 0).is_ok());
    assert_eq!(ref_params(&bytes[..231], 0).err().unwrap(), need(4));
    assert_eq!(ref_params(&bytes, 0).ok().unwrap().0, 232);
    assert_eq!(usercmd(&bytes[..51], 0).err().unwrap(), need(4));
    assert_eq!(usercmd(&bytes, 10).ok().unwrap().0, 62);
    assert_eq!(movevars(&bytes[..99], 0).err().unwrap(), need(32));
    assert_eq!(movevars(&bytes, 0).ok().unwrap().0, 132);
    assert_eq!(net_msg_info(&bytes[..435], 0).err().unwrap(), need(4));
    assert_eq!(net_msg_info(&bytes, 0).ok().unwrap().0, 436);
}

#[test]
fn directory_entry_fields() {
    let bytes = counting(200);
    let (end, entry) = parse::directory::entry(&bytes, 7).unwrap();
    assert_eq!(end, 99);
    assert_eq!(entry.entry_type, i32_at(&bytes, 7));
    assert_eq!(entry.description, &bytes[11..75]);
    assert_eq!(entry.flags, i32_at(&bytes, 75));
    assert_eq!(entry.cd_track, i32_at(&bytes, 79));
    assert_eq!(entry.track_time, u32_at(&bytes, 83));
    assert_eq!(entry.frame_count, i32_at(&bytes, 87));
    assert_eq!(entry.offset, i32_at(&bytes, 91));
    assert_eq!(entry.file_length, i32_at(&bytes, 95));
    assert!(entry.frames.is_empty());
    let mut directory = vec![0u8; 3];
    directory.extend_from_slice(&2i32.to_le_bytes());
    directory.extend_from_slice(&bytes[..184]);
    let (end, found) = parse::directory::directory(&directory, 3).unwrap();
    assert_eq!(end, 3 + 4 + 184);
    assert_eq!(found.entries.len(), 2);
    assert_eq!(found.entries[1].entry_type, i32_at(&bytes, 92));
    let found = parse::directory::offset_directory(&directory, 3).unwrap();
    assert_eq!(found.entries[0].entry_type, i32_at(&bytes, 0));
    assert_eq!(
        parse::directory::offset_directory(&directory, 192).err().unwrap().chain(),
        vec![ErrorKind::ParseError(parse::Error::Directory), ErrorKind::NeedMoreBytes(Some(192))]
    );
    assert_eq!(
        parse::directory::offset_directory(&directory, 191).err().unwrap().chain(),
        vec![ErrorKind::ParseError(parse::Error::Directory), ErrorKind::NeedMoreBytes(Some(4))]
    );
}
