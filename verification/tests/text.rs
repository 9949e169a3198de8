use ptcp::PTCPBody;
use ptcp::PTCPEvent;
use ptcp::PTCPPacket;
use ptcp::PTCPPayload;

fn hex_of(bytes: &[u8]) -> String {
    bytes.iter().map(|b| format!("{:02x}", b)).collect::<Vec<_>>().join(" ")
}

#[test]
fn payload_text_short_data() {
    let p = PTCPPayload { realm: 0xDEAD_BEEF, data: vec![0x00, 0x0A, 0xFF] };
    assert_eq!(p.describe(), "length: 3, realm: 0xdeadbeef, data: [00 0a ff]");
}

#[test]
fn payload_text_no_data() {
    let p = PTCPPayload { realm: 0, data: vec![] };
    assert_eq!(p.describe(), "length: 0, realm: 0x00000000, data: []");
}

#[test]
fn payload_text_shows_sixteen_bytes() {
    let sixteen = PTCPPayload { realm: 0x12, data: (0..16).collect() };
    assert_eq!(
        sixteen.describe(),
        "length: 16, realm: 0x00000012, data: [00 01 02 03 04 05 06 07 08 09 0a 0b 0c 0d 0e 0f]"
    );
    let seventeen = PTCPPayload { realm: 0x12, data: (0..17).collect() };
    assert_eq!(
        seventeen.describe(),
        "length: 17, realm: 0x00000012, data: [00 01 02 03 04 05 06 07 08 09 0a 0b 0c 0d 0e 0f ...]"
    );
}

#[test]
fn payload_text_follows_the_format() {
    for len in [1usize, 9, 10, 99, 100, 1000, 65535, 65536] {
        let data: Vec<u8> = (0..len).map(|i| (i * 7 % 256) as u8).collect();
        let shown = if len > 16 { 16 } else { len };
        let expected = format!(
            "length: {}, realm: 0x{:08x}, data: [{}{}]",
            len,
            0x0fed_cba9u32,
            hex_of(&data[0..shown]),
            if len > 16 { " ..." } else { "" }
        );
        assert_eq!(PTCPPayload { realm: 0x0fed_cba9, data }.describe(), expected);
    }
}

#[test]
fn body_text() {
    assert_eq!(PTCPBody::Empty.describe(), "Empty");
    assert_eq!(PTCPBody::Command(vec![]).describe(), "Command([])");
    assert_eq!(PTCPBody::Command(vec![0x00, 0x03, 0x01, 0x00]).describe(), "Command([00 03 01 00])");
    let all: Vec<u8> = (0..=255).collect();
    assert_eq!(PTCPBody::Command(all.clone()).describe(), format!("Command([{}])", hex_of(&all)));
    let payload = PTCPPayload { realm: 1, data: vec![2] };
    assert_eq!(PTCPBody::Payload(payload.clone()).describe(), payload.describe());
}

#[test]
fn packet_text() {
    let packet = PTCPPacket {
        sent: 0,
        recv: 4294967295,
        pid: 0x0000_FFFF,
        lmid: 0,
        rmid: 0xABCD_EF01,
        body: PTCPBody::Command(vec![0x00, 0x01, 0x02, 0x03]),
    };
    assert_eq!(
        packet.describe(),
        "PTCPPacket { sent: 0, recv: 4294967295, pid: 0x0000ffff, lmid: 0x00000000, rmid: 0xabcdef01, body: Command([00 01 02 03]) }"
    );
}

#[test]
fn packet_text_follows_the_format() {
    let bodies = vec![
        PTCPBody::Empty,
        PTCPBody::Command(vec![1, 2, 3, 4, 5]),
        PTCPBody::Payload(PTCPPayload { realm: 77, data: vec![0xF0; 40] }),
    ];
    for body in bodies {
        let packet = PTCPPacket { sent: 1234567, recv: 89, pid: 0x2FFFF, lmid: 10, rmid: 0x10, body };
        let expected = format!(
            "PTCPPacket {{ sent: {}, recv: {}, pid: 0x{:08x}, lmid: 0x{:08x}, rmid: 0x{:08x}, body: {} }}",
            packet.sent,
            packet.recv,
            packet.pid,
            packet.lmid,
            packet.rmid,
            packet.body.describe()
        );
        assert_eq!(packet.describe(), expected);
    }
}

#[test]
fn events_compare_by_value() {
    assert_eq!(PTCPEvent::Connect(1), PTCPEvent::Connect(1));
    assert_ne!(PTCPEvent::Connect(1), PTCPEvent::Disconnect(1));
    assert_eq!(PTCPEvent::Data(2, vec![1, 2]), PTCPEvent::Data(2, vec![1, 2]));
    assert_ne!(PTCPEvent::Data(2, vec![1, 2]), PTCPEvent::Data(2, vec![1, 3]));
}
