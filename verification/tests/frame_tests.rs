use scylla::frame::frame_codec::{
    read_frame, read_header, serialize_frame, write_header, Frame, FrameHeader, Opcode,
    RequestOpcode, ResponseOpcode, FLAG_COMPRESSION, FLAG_TRACING, HEADER_SIZE,
};
use scylla::frame::frame_errors::FrameError;

fn same(a: &Frame, b: &Frame) -> bool {
    a.flags == b.flags && a.stream == b.stream && a.opcode == b.opcode && a.body == b.body
}

#[test]
fn frame_on_the_wire() {
    let frame = Frame {
        flags: 0x02,
        stream: 0x0102,
        opcode: Opcode::Request(RequestOpcode::Query),
        body: vec![0xaa, 0xbb, 0xcc],
    };
    let mut buf = Vec::new();
    assert_eq!(serialize_frame(&frame, &mut buf), Ok(()));
    assert_eq!(
        buf,
        vec![0x04, 0x02, 0x01, 0x02, 0x07, 0, 0, 0, 3, 0xaa, 0xbb, 0xcc]
    );
    let response = Frame {
        flags: 0,
        stream: -1,
        opcode: Opcode::Response(ResponseOpcode::Event),
        body: vec![],
    };
    let mut buf = vec![7];
    assert_eq!(serialize_frame(&response, &mut buf), Ok(()));
    assert_eq!(buf, vec![7, 0x84, 0, 0xff, 0xff, 0x0c, 0, 0, 0, 0]);
}

#[test]
fn frames_round_trip() {
    let requests = [
        RequestOpcode::Startup,
        RequestOpcode::Options,
        RequestOpcode::Query,
        RequestOpcode::Prepare,
        RequestOpcode::Execute,
        RequestOpcode::Register,
        RequestOpcode::Batch,
        RequestOpcode::AuthResponse,
    ];
    let responses = [
        ResponseOpcode::Error,
        ResponseOpcode::Ready,
        ResponseOpcode::Authenticate,
        ResponseOpcode::Supported,
        ResponseOpcode::Result,
        ResponseOpcode::Event,
        ResponseOpcode::AuthChallenge,
        ResponseOpcode::AuthSuccess,
    ];
    let mut opcodes: Vec<Opcode> = requests.iter().map(|op| Opcode::Request(*op)).collect();
    opcodes.extend(responses.iter().map(|op| Opcode::Response(*op)));
    let streams = [0i16, 1, 255, 256, i16::MAX, -1, i16::MIN];
    for (i, opcode) in opcodes.iter().enumerate() {
        for stream in streams {
            let frame = Frame {
                flags: (i % 4) as u8,
                stream,
                opcode: *opcode,
                body: (0..(i * 37) as u32).map(|b| b as u8).collect(),
            };
            let mut buf = Vec::new();
            assert_eq!(serialize_frame(&frame, &mut buf), Ok(()));
            buf.extend([1, 2, 3]);
            let mut cur: &[u8] = &buf;
            let back = read_frame(&mut cur).unwrap();
            assert!(same(&back, &frame));
            assert_eq!(cur, &[1, 2, 3][..]);
        }
    }
}

#[test]
fn header_alone() {
    let header = FrameHeader {
        flags: FLAG_COMPRESSION | FLAG_TRACING,
        stream: 300,
        opcode: Opcode::Response(ResponseOpcode::Result),
        length: 0x01020304,
    };
    let mut buf = Vec::new();
    assert_eq!(write_header(&header, &mut buf), Ok(()));
    assert_eq!(buf.len(), HEADER_SIZE);
    assert_eq!(buf, vec![0x84, 0x03, 0x01, 0x2c, 0x08, 1, 2, 3, 4]);
    let mut cur: &[u8] = &buf;
    let back = read_header(&mut cur).unwrap();
    assert_eq!(back, header);
    assert!(back.is_compressed());
    assert!(back.is_traced());
    assert!(cur.is_empty());
    let plain = FrameHeader { flags: 0, ..header };
    assert!(!plain.is_compressed());
    assert!(!plain.is_traced());
}

#[test]
fn frame_errors() {
    let mut cur: &[u8] = &[0x84, 0, 0, 0, 8, 0, 0, 0];
    assert_eq!(
        read_frame(&mut cur).unwrap_err(),
        FrameError::IncompleteHeader
    );
    assert_eq!(cur.len(), 8);
    let mut cur: &[u8] = &[0x03, 0, 0, 0, 8, 0, 0, 0, 0];
    assert_eq!(
        read_frame(&mut cur).unwrap_err(),
        FrameError::BadVersion(0x03)
    );
    let mut cur: &[u8] = &[0x84, 0, 0, 0, 0x11, 0, 0, 0, 0];
    assert_eq!(
        read_frame(&mut cur).unwrap_err(),
        FrameError::UnknownOpcode(0x11)
    );
    let mut cur: &[u8] = &[0x84, 0, 0, 0, 0x07, 0, 0, 0, 0];
    assert_eq!(
        read_frame(&mut cur).unwrap_err(),
        FrameError::WrongDirection(0x07)
    );
    let mut cur: &[u8] = &[0x04, 0, 0, 0, 0x08, 0, 0, 0, 0];
    assert_eq!(
        read_frame(&mut cur).unwrap_err(),
        FrameError::WrongDirection(0x08)
    );
    let mut cur: &[u8] = &[0x84, 0, 0, 0, 0x08, 0xff, 0xff, 0xff, 0xff];
    assert_eq!(
        read_frame(&mut cur).unwrap_err(),
        FrameError::NegativeBodyLength(-1)
    );
    let bytes = [0x84, 0, 0, 0, 0x08, 0, 0, 0, 2, 1];
    let mut cur: &[u8] = &bytes;
    assert_eq!(read_frame(&mut cur).unwrap_err(), FrameError::IncompleteBody);
    assert_eq!(cur, &bytes[..]);
    let mut cur: &[u8] = &bytes;
    assert!(read_header(&mut cur).is_ok());
    assert_eq!(cur, &[1][..]);
}

#[test]
fn header_refuses_a_length_it_cannot_say() {
    let header = FrameHeader {
        flags: 0,
        stream: 0,
        opcode: Opcode::Request(RequestOpcode::Query),
        length: i32::MAX as usize + 1,
    };
    let mut buf = vec![1];
    assert_eq!(
        write_header(&header, &mut buf),
        Err(FrameError::BodyTooLong(i32::MAX as usize + 1))
    );
    assert_eq!(buf, vec![1]);
}

#[test]
fn opcode_bytes() {
    assert_eq!(Opcode::Request(RequestOpcode::Startup).to_bytes(), (0x04, 0x01));
    assert_eq!(Opcode::Request(RequestOpcode::Options).to_bytes(), (0x04, 0x05));
    assert_eq!(Opcode::Request(RequestOpcode::Prepare).to_bytes(), (0x04, 0x09));
    assert_eq!(Opcode::Request(RequestOpcode::Execute).to_bytes(), (0x04, 0x0a));
    assert_eq!(Opcode::Request(RequestOpcode::Register).to_bytes(), (0x04, 0x0b));
    assert_eq!(Opcode::Request(RequestOpcode::Batch).to_bytes(), (0x04, 0x0d));
    assert_eq!(
        Opcode::Request(RequestOpcode::AuthResponse).to_bytes(),
        (0x04, 0x0f)
    );
    assert_eq!(Opcode::Response(ResponseOpcode::Error).to_bytes(), (0x84, 0x00));
    assert_eq!(Opcode::Response(ResponseOpcode::Ready).to_bytes(), (0x84, 0x02));
    assert_eq!(
        Opcode::Response(ResponseOpcode::Authenticate).to_bytes(),
        (0x84, 0x03)
    );
    assert_eq!(
        Opcode::Response(ResponseOpcode::Supported).to_bytes(),
        (0x84, 0x06)
    );
    assert_eq!(
        Opcode::Response(ResponseOpcode::AuthChallenge).to_bytes(),
        (0x84, 0x0e)
    );
    assert_eq!(
        Opcode::Response(ResponseOpcode::AuthSuccess).to_bytes(),
        (0x84, 0x10)
    );
    assert_eq!(
        Opcode::from_bytes(0x84, 0x08),
        Ok(Opcode::Response(ResponseOpcode::Result))
    );
    assert_eq!(RequestOpcode::from_u8(0x02), None);
    assert_eq!(ResponseOpcode::from_u8(0x01), None);
}
