use buttplug_server_device_config::Endpoint;
use tcode_v03::{HardwareCommand, ProtocolHandler, TCodeV03};
use uuid::Uuid;

fn feature() -> Uuid {
    Uuid::from_u128(0x5d1c_7e2a_0000_4000_8000_0000_0000_0042)
}

fn single_payload(cmds: Vec<HardwareCommand>) -> String {
    assert_eq!(cmds.len(), 1);
    match &cmds[0] {
        HardwareCommand::Write(w) => {
            assert_eq!(w.feature_ids, vec![feature()]);
            assert_eq!(w.endpoint, Endpoint::Tx);
            assert!(!w.write_with_response);
            String::from_utf8(w.data.clone()).unwrap()
        }
    }
}

fn position(positions: Vec<u32>) -> String {
    let handler = TCodeV03::default();
    single_payload(handler.handle_output_position_cmd(0, feature(), positions).unwrap())
}

fn timed(feature_index: u32, positions: Vec<u32>, durations: Vec<u32>) -> String {
    let handler = TCodeV03::default();
    single_payload(
        handler
            .handle_hw_position_with_duration_cmd(feature_index, feature(), positions, durations)
            .unwrap(),
    )
}

fn vibrate(feature_index: u32, speed: u32) -> String {
    let handler = TCodeV03::default();
    single_payload(handler.handle_output_vibrate_cmd(feature_index, feature(), speed).unwrap())
}

#[test]
fn position_three_linear_axes() {
    assert_eq!(position(vec![5, 250, 999]), "L0005\nL1250\nL2999\n");
}

#[test]
fn position_six_axes_split_linear_and_rotational() {
    assert_eq!(
        position(vec![0, 0, 0, 10, 20, 30]),
        "L0000\nL1000\nL2000\nR0010\nR1020\nR2030\n"
    );
}

#[test]
fn position_line_shape_for_each_axis_count() {
    for n in 0..=6usize {
        let positions: Vec<u32> = (0..n as u32).map(|k| k * 111 + 7).collect();
        let text = position(positions.clone());
        let lines: Vec<&str> = text.split_terminator('\n').collect();
        assert_eq!(lines.len(), n);
        for (i, line) in lines.iter().enumerate() {
            let expected = if i < 3 {
                format!("L{}{:03}", i, positions[i])
            } else {
                format!("R{}{:03}", i - 3, positions[i])
            };
            assert_eq!(*line, expected);
            assert_eq!(line.len(), 5);
        }
    }
}

#[test]
fn position_empty_list_gives_empty_write() {
    assert_eq!(position(vec![]), "");
}

#[test]
fn position_beyond_six_axes_keeps_counting_rotational() {
    assert_eq!(
        position(vec![1, 2, 3, 4, 5, 6, 7]),
        "L0001\nL1002\nL2003\nR0004\nR1005\nR2006\nR3007\n"
    );
}

#[test]
fn position_boundaries_are_not_clamped() {
    assert_eq!(position(vec![0]), "L0000\n");
    assert_eq!(position(vec![999]), "L0999\n");
    assert_eq!(position(vec![1000]), "L01000\n");
    assert_eq!(position(vec![u32::MAX]), "L04294967295\n");
}

#[test]
fn timed_single_axis() {
    assert_eq!(timed(0, vec![100], vec![500]), "L0100I500\n");
}

#[test]
fn timed_all_axes_with_unpadded_durations() {
    assert_eq!(
        timed(1, vec![1, 22, 333, 4, 55, 999], vec![0, 7, 10, 1000, 65535, 4294967295]),
        "L0001I0\nL1022I7\nL2333I10\nR0004I1000\nR1055I65535\nR2999I4294967295\n"
    );
}

#[test]
fn timed_stops_at_shorter_list() {
    let text = timed(0, vec![100, 200, 300], vec![500]);
    assert_eq!(text, "L0100I500\n");
    assert_eq!(text.lines().count(), 1);
    assert_eq!(timed(0, vec![100], vec![500, 600, 700]), "L0100I500\n");
    assert_eq!(timed(0, vec![], vec![500]), "");
}

#[test]
fn vibrate_pads_speed_to_two_digits() {
    assert_eq!(vibrate(2, 7), "V207\n");
    assert_eq!(vibrate(0, 0), "V000\n");
    assert_eq!(vibrate(12, 99), "V1299\n");
    assert_eq!(vibrate(3, 100), "V3100\n");
}

#[test]
fn repeated_calls_give_identical_payloads() {
    let handler = TCodeV03::default();
    let a = handler.handle_output_position_cmd(0, feature(), vec![5, 250, 999, 3]).unwrap();
    let b = handler.handle_output_position_cmd(0, feature(), vec![5, 250, 999, 3]).unwrap();
    assert_eq!(single_payload(a), single_payload(b));
    let a = handler
        .handle_hw_position_with_duration_cmd(0, feature(), vec![10, 20], vec![30, 40])
        .unwrap();
    let b = handler
        .handle_hw_position_with_duration_cmd(0, feature(), vec![10, 20], vec![30, 40])
        .unwrap();
    assert_eq!(single_payload(a), single_payload(b));
    let a = handler.handle_output_vibrate_cmd(1, feature(), 42).unwrap();
    let b = handler.handle_output_vibrate_cmd(1, feature(), 42).unwrap();
    assert_eq!(single_payload(a), single_payload(b));
}

#[test]
fn write_request_carries_given_fields() {
    let ids = [feature(), Uuid::from_u128(7)];
    let cmd = tcode_v03::HardwareWriteCmd::new(&ids, Endpoint::TxVibrate, vec![1, 2, 3], true);
    assert_eq!(cmd.feature_ids, ids.to_vec());
    assert_eq!(cmd.endpoint, Endpoint::TxVibrate);
    assert_eq!(cmd.data, vec![1, 2, 3]);
    assert!(cmd.write_with_response);
    let wrapped: HardwareCommand = cmd.into();
    match wrapped {
        HardwareCommand::Write(w) => assert_eq!(w.data, vec![1, 2, 3]),
    }
}
