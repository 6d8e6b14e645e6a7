use keyboard_shared::checksum::csum;
use keyboard_shared::envelope::{Ack, CmdOrAck, Command, IdGenerator};
use keyboard_shared::frame::{decode, MAX_PAYLOAD};
use keyboard_shared::messages::{
    DisplayOverride, DomToSub, HostRequest, HostToKeyboard, KeyEvent, KeyboardSide,
    KeyboardToHost, SubToDom,
};
use keyboard_shared::outbound::frame_envelope;
use keyboard_shared::wire::{get_le16, get_le32, put_le16, put_le32, Wire};

#[test]
fn key_coordinates_are_packed_into_one_byte() {
    assert_eq!(SubToDom::key_pressed(3, 5), SubToDom::KeyPressed(0x35));
    assert_eq!(SubToDom::key_released(3, 5), SubToDom::KeyReleased(0x35));
    assert_eq!(SubToDom::key_pressed(0, 0), SubToDom::KeyPressed(0));
    assert_eq!(SubToDom::key_pressed(15, 15), SubToDom::KeyPressed(0xff));
    // only the low four bits of each coordinate are kept
    assert_eq!(SubToDom::key_pressed(0x13, 0x25), SubToDom::KeyPressed(0x35));
    assert_eq!(SubToDom::key_released(0xff, 0xf0), SubToDom::KeyReleased(0xf0));
}

#[test]
fn key_coordinates_are_unpacked_again() {
    assert_eq!(SubToDom::key_pressed(3, 11).as_keyberon_event(), Some(KeyEvent::Press(3, 11)));
    assert_eq!(SubToDom::key_released(4, 0).as_keyberon_event(), Some(KeyEvent::Release(4, 0)));
    assert_eq!(SubToDom::KeyPressed(0xa7).as_keyberon_event(), Some(KeyEvent::Press(10, 7)));
}

#[test]
fn write_pixels_carries_display_rows() {
    let msg = DomToSub::WritePixels { row: 126, data_0: [1, 2, 3, 4], data_1: [5, 6, 7, 8] };
    assert_eq!(
        msg.display_override(),
        Some(DisplayOverride { row: 126, data_0: [1, 2, 3, 4], data_1: [5, 6, 7, 8] })
    );
    assert_eq!(DomToSub::Reset.display_override(), None);
    assert_eq!(DomToSub::ResyncLeds(1).display_override(), None);
}

#[test]
fn integers_are_written_least_significant_byte_first() {
    let mut out = vec![9];
    put_le16(&mut out, 0x1234);
    assert_eq!(out, vec![9, 0x34, 0x12]);
    let mut out = Vec::new();
    put_le32(&mut out, 0xdead_beef);
    assert_eq!(out, vec![0xef, 0xbe, 0xad, 0xde]);
    assert_eq!(get_le16(0x34, 0x12), 0x1234);
    assert_eq!(get_le16(0xff, 0xff), 0xffff);
    assert_eq!(get_le32(0xef, 0xbe, 0xad, 0xde), 0xdead_beef);
    assert_eq!(get_le32(0, 0, 0, 0), 0);
}

#[test]
fn messages_have_their_bytes() {
    assert_eq!(DomToSub::ResyncLeds(0x1234).to_bytes(), vec![0, 0x34, 0x12]);
    assert_eq!(DomToSub::Reset.to_bytes(), vec![1]);
    assert_eq!(DomToSub::SyncKeypresses(3).to_bytes(), vec![2, 3, 0]);
    assert_eq!(
        DomToSub::WritePixels { row: 7, data_0: [1, 2, 3, 4], data_1: [5, 6, 7, 8] }.to_bytes(),
        vec![3, 7, 1, 2, 3, 4, 5, 6, 7, 8]
    );
    assert_eq!(SubToDom::KeyPressed(0x35).to_bytes(), vec![0, 0x35]);
    assert_eq!(SubToDom::KeyReleased(0x35).to_bytes(), vec![1, 0x35]);
    assert_eq!(HostToKeyboard::RequestStats.to_bytes(), vec![0]);
    assert_eq!(
        HostToKeyboard::WritePixels {
            side: KeyboardSide::Right,
            row: 2,
            data_0: [0, 0, 0, 1],
            data_1: [0xff, 0, 0, 0],
        }
        .to_bytes(),
        vec![1, 1, 2, 0, 0, 0, 1, 0xff, 0, 0, 0]
    );
    assert_eq!(KeyboardToHost::Stats { keypresses: 0x0102_0304 }.to_bytes(), vec![0, 4, 3, 2, 1]);
}

#[test]
fn messages_are_read_back() {
    let dom = [
        DomToSub::ResyncLeds(0),
        DomToSub::ResyncLeds(0xffff),
        DomToSub::Reset,
        DomToSub::SyncKeypresses(258),
        DomToSub::WritePixels { row: 0, data_0: [0; 4], data_1: [255; 4] },
    ];
    for m in dom {
        assert_eq!(DomToSub::from_bytes(&m.to_bytes()), Some(m));
    }
    for m in [SubToDom::KeyPressed(0), SubToDom::KeyReleased(255)] {
        assert_eq!(SubToDom::from_bytes(&m.to_bytes()), Some(m));
    }
    let host = [
        HostToKeyboard::RequestStats,
        HostToKeyboard::WritePixels {
            side: KeyboardSide::Left,
            row: 9,
            data_0: [1, 2, 3, 4],
            data_1: [4, 3, 2, 1],
        },
    ];
    for m in host {
        assert_eq!(HostToKeyboard::from_bytes(&m.to_bytes()), Some(m));
    }
    let stats = KeyboardToHost::Stats { keypresses: u32::MAX };
    assert_eq!(KeyboardToHost::from_bytes(&stats.to_bytes()), Some(stats));
}

#[test]
fn bytes_that_spell_no_message_are_refused() {
    assert_eq!(DomToSub::from_bytes(&[]), None);
    assert_eq!(DomToSub::from_bytes(&[4]), None);
    assert_eq!(DomToSub::from_bytes(&[0, 1]), None);
    assert_eq!(DomToSub::from_bytes(&[1, 0]), None);
    assert_eq!(DomToSub::from_bytes(&[0, 1, 2, 3]), None);
    assert_eq!(DomToSub::from_bytes(&[3, 7, 1, 2, 3, 4, 5, 6, 7]), None);
    assert_eq!(SubToDom::from_bytes(&[2, 0]), None);
    assert_eq!(SubToDom::from_bytes(&[0]), None);
    assert_eq!(HostToKeyboard::from_bytes(&[1, 2, 2, 0, 0, 0, 1, 0xff, 0, 0, 0]), None);
    assert_eq!(HostToKeyboard::from_bytes(&[0, 0]), None);
    assert_eq!(KeyboardToHost::from_bytes(&[0, 1, 2, 3]), None);
    assert_eq!(KeyboardToHost::from_bytes(&[1, 1, 2, 3, 4]), None);
}

#[test]
fn id_generator_counts_and_wraps() {
    let mut ids = IdGenerator::new();
    assert_eq!(ids.peek(), 0);
    assert_eq!(ids.next_id(), 0);
    assert_eq!(ids.next_id(), 1);
    let mut ids = IdGenerator::starting_at(254);
    assert_eq!(ids.next_id(), 254);
    assert_eq!(ids.peek(), 255);
    assert_eq!(ids.next_id(), 255);
    assert_eq!(ids.next_id(), 0);
    assert_eq!(ids.next_id(), 1);
}

#[test]
fn command_carries_a_fresh_id_and_its_checksum() {
    let mut ids = IdGenerator::starting_at(5);
    let first = Command::new(DomToSub::ResyncLeds(0x1234), &mut ids);
    assert_eq!(first.uuid, 5);
    assert_eq!(first.cmd, DomToSub::ResyncLeds(0x1234));
    assert_eq!(first.csum, csum(&[0, 0x34, 0x12, 5]));
    assert!(first.validate());
    let second = Command::new(DomToSub::ResyncLeds(0x1234), &mut ids);
    assert_eq!(second.uuid, 6);
    assert_eq!(second.csum, csum(&[0, 0x34, 0x12, 6]));
    assert!(second.validate());
}

#[test]
fn command_with_a_wrong_checksum_is_invalid() {
    let mut ids = IdGenerator::new();
    let sound = Command::new(SubToDom::KeyPressed(0x12), &mut ids);
    let wrong_sum = Command { uuid: sound.uuid, csum: sound.csum ^ 1, cmd: sound.cmd };
    assert!(!wrong_sum.validate());
    let wrong_id = Command { uuid: sound.uuid ^ 0x10, csum: sound.csum, cmd: sound.cmd };
    assert!(!wrong_id.validate());
    let wrong_cmd = Command { uuid: sound.uuid, csum: sound.csum, cmd: SubToDom::KeyPressed(0x13) };
    assert!(!wrong_cmd.validate());
}

#[test]
fn ack_carries_the_id_and_its_checksum() {
    let mut ids = IdGenerator::starting_at(9);
    let command = Command::new(DomToSub::Reset, &mut ids);
    let ack = command.ack();
    assert_eq!(ack, Ack { uuid: 9, csum: csum(&[9]) });
    assert_eq!(ack, Ack::new(9));
    assert_eq!(ack.validate(), Some(ack));
}

#[test]
fn ack_with_a_wrong_checksum_is_invalid() {
    let ack = Ack::new(5);
    assert_eq!(Ack { uuid: 5, csum: ack.csum ^ 0x80 }.validate(), None);
    assert_eq!(Ack { uuid: 4, csum: ack.csum }.validate(), None);
}

#[test]
fn envelopes_have_their_bytes() {
    let ack: CmdOrAck<DomToSub> = CmdOrAck::Ack(Ack { uuid: 5, csum: 0x70 });
    assert_eq!(ack.to_bytes(), vec![1, 5, 0x70]);
    let cmd = CmdOrAck::Cmd(Command { uuid: 7, csum: 0xaa, cmd: DomToSub::SyncKeypresses(2) });
    assert_eq!(cmd.to_bytes(), vec![0, 7, 0xaa, 2, 2, 0]);
}

#[test]
fn envelopes_are_read_back() {
    let ack: CmdOrAck<SubToDom> = CmdOrAck::Ack(Ack { uuid: 0, csum: 0 });
    assert_eq!(CmdOrAck::<SubToDom>::from_bytes(&ack.to_bytes()), Some(ack));
    let cmd = CmdOrAck::Cmd(Command { uuid: 255, csum: 1, cmd: SubToDom::KeyReleased(9) });
    assert_eq!(CmdOrAck::<SubToDom>::from_bytes(&cmd.to_bytes()), Some(cmd));
}

#[test]
fn bytes_that_spell_no_envelope_are_refused() {
    assert_eq!(CmdOrAck::<SubToDom>::from_bytes(&[]), None);
    assert_eq!(CmdOrAck::<SubToDom>::from_bytes(&[1, 5]), None);
    assert_eq!(CmdOrAck::<SubToDom>::from_bytes(&[1, 5, 6, 7]), None);
    assert_eq!(CmdOrAck::<SubToDom>::from_bytes(&[2, 5, 6]), None);
    assert_eq!(CmdOrAck::<SubToDom>::from_bytes(&[0, 5, 6]), None);
    assert_eq!(CmdOrAck::<SubToDom>::from_bytes(&[0, 5, 6, 9, 9]), None);
    // a command of the other direction
    assert_eq!(CmdOrAck::<SubToDom>::from_bytes(&[0, 5, 6, 0, 0x34, 0x12]), None);
}

#[test]
fn envelope_is_framed_for_the_wire() {
    let ack: CmdOrAck<DomToSub> = CmdOrAck::Ack(Ack { uuid: 0, csum: 0x70 });
    assert_eq!(frame_envelope(&ack), Some(vec![2, 1, 2, 0x70, 0]));
    let frame = frame_envelope(&ack).unwrap();
    assert_eq!(decode(&frame), Some(vec![1, 0, 0x70]));
}

#[test]
fn framed_envelopes_fit_one_frame() {
    let mut ids = IdGenerator::new();
    let largest = CmdOrAck::Cmd(Command::new(
        HostToKeyboard::WritePixels {
            side: KeyboardSide::Left,
            row: 0,
            data_0: [0; 4],
            data_1: [0; 4],
        },
        &mut ids,
    ));
    assert!(largest.to_bytes().len() <= MAX_PAYLOAD);
    assert!(frame_envelope(&largest).is_some());
}

#[test]
fn acknowledgement_frame_is_what_postcard_writes() {
    let ack = Ack::new(5);
    let ours = frame_envelope(&CmdOrAck::<DomToSub>::Ack(ack)).unwrap();
    let mut buf = [0u8; 128];
    let theirs = postcard::to_slice_cobs(&(1u8, 5u8, ack.csum), &mut buf).unwrap();
    assert_eq!(ours, theirs.to_vec());
}

#[test]
fn command_frames_are_what_postcard_writes() {
    let mut ids = IdGenerator::starting_at(0);
    let resync = Command::new(DomToSub::ResyncLeds(0x0100), &mut ids);
    let ours = frame_envelope(&CmdOrAck::Cmd(Command {
        uuid: resync.uuid,
        csum: resync.csum,
        cmd: resync.cmd,
    }))
    .unwrap();
    let mut buf = [0u8; 128];
    let theirs =
        postcard::to_slice_cobs(&(0u8, 0u8, resync.csum, 0u8, 0x0100u16), &mut buf).unwrap();
    assert_eq!(ours, theirs.to_vec());

    let pixels = Command::new(
        DomToSub::WritePixels { row: 0, data_0: [0, 1, 0, 2], data_1: [0; 4] },
        &mut ids,
    );
    let csum = pixels.csum;
    let ours = frame_envelope(&CmdOrAck::Cmd(pixels)).unwrap();
    let mut buf = [0u8; 128];
    let theirs = postcard::to_slice_cobs(
        &(0u8, 1u8, csum, 3u8, 0u8, [0u8, 1, 0, 2], [0u8; 4]),
        &mut buf,
    )
    .unwrap();
    assert_eq!(ours, theirs.to_vec());

    let stats = Command::new(KeyboardToHost::Stats { keypresses: 70_000 }, &mut ids);
    let csum = stats.csum;
    let ours = frame_envelope(&CmdOrAck::Cmd(stats)).unwrap();
    let mut buf = [0u8; 128];
    let theirs = postcard::to_slice_cobs(&(0u8, 2u8, csum, 0u8, 70_000u32), &mut buf).unwrap();
    assert_eq!(ours, theirs.to_vec());
}

#[test]
fn postcard_reads_our_command_frame() {
    let mut ids = IdGenerator::starting_at(200);
    let command = Command::new(SubToDom::key_pressed(2, 9), &mut ids);
    let csum = command.csum;
    let mut frame = frame_envelope(&CmdOrAck::Cmd(command)).unwrap();
    let read: (u8, u8, u8, u8, u8) = postcard::from_bytes_cobs(&mut frame).unwrap();
    assert_eq!(read, (0, 200, csum, 0, 0x29));
}

#[test]
fn key_events_become_messages() {
    assert_eq!(SubToDom::from_event(KeyEvent::Press(3, 5)), SubToDom::KeyPressed(0x35));
    assert_eq!(SubToDom::from_event(KeyEvent::Release(3, 5)), SubToDom::KeyReleased(0x35));
    for x in 0..16 {
        for y in 0..16 {
            let event = KeyEvent::Press(x, y);
            assert_eq!(SubToDom::from_event(event).as_keyberon_event(), Some(event));
            let event = KeyEvent::Release(x, y);
            assert_eq!(SubToDom::from_event(event).as_keyberon_event(), Some(event));
        }
    }
}

#[test]
fn host_commands_are_routed() {
    assert_eq!(HostToKeyboard::RequestStats.route(), HostRequest::Stats);
    let left = HostToKeyboard::WritePixels {
        side: KeyboardSide::Left,
        row: 4,
        data_0: [1, 2, 3, 4],
        data_1: [5, 6, 7, 8],
    };
    assert_eq!(
        left.route(),
        HostRequest::Show(DisplayOverride { row: 4, data_0: [1, 2, 3, 4], data_1: [5, 6, 7, 8] })
    );
    let right = HostToKeyboard::WritePixels {
        side: KeyboardSide::Right,
        row: 4,
        data_0: [1, 2, 3, 4],
        data_1: [5, 6, 7, 8],
    };
    assert_eq!(
        right.route(),
        HostRequest::Forward(DomToSub::WritePixels {
            row: 4,
            data_0: [1, 2, 3, 4],
            data_1: [5, 6, 7, 8]
        })
    );
}
