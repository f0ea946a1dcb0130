use axi_psu::codec::encode;
use axi_psu::linear::decode_linear;
use axi_psu::psu::{Config, Psu, FAN_MODE_REGISTER, PAGE_SELECT_REGISTER, RAIL_SELECT_REGISTER};
use axi_psu::session::{
    check_ack, readback_value, AckCheck, AckStatus, AckWarning, ReadStep, RegisterTransaction,
    ReplyAssembly, MAX_READS,
};
use axi_psu::status::{status_plan, Quantity, StatusStep};

/// Runs one exchange against canned bulk reads, as a transport would hand
/// them over; returns the decoded payload and the number of reads taken.
fn exchange(reads: &[Vec<u8>]) -> (Vec<u8>, usize) {
    let mut assembly = ReplyAssembly::new();
    let mut taken = 0;
    for chunk in reads {
        taken += 1;
        match assembly.push(chunk) {
            ReadStep::More => continue,
            ReadStep::Complete(reply) => return (reply.payload, taken),
            ReadStep::Overrun => panic!("overrun"),
        }
    }
    panic!("ran out of reads");
}

/// Runs a register transaction; each request is answered by the next frame.
fn run(mut t: RegisterTransaction, frames: &[Vec<u8>]) -> (Vec<u8>, Vec<Vec<u8>>, Vec<AckWarning>) {
    let mut sent = Vec::new();
    for frame in frames {
        sent.push(t.request());
        let (payload, _) = exchange(&[frame.clone()]);
        if let Some(result) = t.on_reply(&payload) {
            assert!(t.is_finished());
            return (result, sent, t.warning_list());
        }
    }
    panic!("transaction did not finish");
}

#[test]
fn continuation_takes_two_reads() {
    let full = encode(7, &[0x01, 0x02, 0x03]);
    let first = full[..3].to_vec();
    let second = full[3..].to_vec();
    assert_ne!(*first.last().unwrap(), 0);
    let (payload, taken) = exchange(&[first, second, vec![0xaa]]);
    assert_eq!(taken, 2);
    assert_eq!(payload, vec![0x01, 0x02, 0x03]);
}

#[test]
fn empty_read_asks_for_more() {
    let mut a = ReplyAssembly::new();
    assert!(matches!(a.push(&[]), ReadStep::More));
    match a.push(&encode(7, &[0x42])) {
        ReadStep::Complete(reply) => {
            assert_eq!(reply.payload, vec![0x42]);
            assert!(reply.tag_ok);
        }
        _ => panic!("expected a complete reply"),
    }
}

#[test]
fn wrong_tag_is_decoded_anyway() {
    let mut a = ReplyAssembly::new();
    match a.push(&encode(0, &[0x42])) {
        ReadStep::Complete(reply) => {
            assert_eq!(reply.payload, vec![0x42]);
            assert!(!reply.tag_ok);
        }
        _ => panic!("expected a complete reply"),
    }
}

#[test]
fn unterminated_reply_overruns() {
    let mut a = ReplyAssembly::new();
    for _ in 0..MAX_READS - 1 {
        assert!(matches!(a.push(&[0x55]), ReadStep::More));
    }
    assert!(matches!(a.push(&[0x55]), ReadStep::Overrun));
}

#[test]
fn ack_checks() {
    assert_eq!(check_ack(AckCheck::Zero, &[0]), AckStatus::Accepted);
    assert_eq!(check_ack(AckCheck::Zero, &[3]), AckStatus::ErrorReported(3));
    assert_eq!(check_ack(AckCheck::Zero, &[0, 0]), AckStatus::WrongLength(2));
    assert_eq!(check_ack(AckCheck::ZeroFirst, &[0, 9]), AckStatus::Accepted);
    assert_eq!(check_ack(AckCheck::ZeroFirst, &[1, 9]), AckStatus::ErrorReported(1));
    assert_eq!(check_ack(AckCheck::ZeroFirst, &[]), AckStatus::WrongLength(0));
}

#[test]
fn register_read_scenario() {
    let frames = vec![encode(7, &[0x00]), encode(7, &[0x00, 0x00]), encode(7, &[0x64, 0x00])];
    let (value, sent, warnings) = run(RegisterTransaction::read(2, 0x8e), &frames);
    assert_eq!(
        sent,
        vec![vec![0x13, 0x03, 0x06, 0x01, 0x07, 0x02, 0x8e], vec![0x12], vec![0x08, 0x07, 0x02]]
    );
    assert!(warnings.is_empty());
    assert_eq!(value, vec![0x64, 0x00]);
    let v = decode_linear(&value);
    assert_eq!((v.mantissa as f64) * 2f64.powi(v.exponent), 100.0);
}

#[test]
fn write_with_bad_ack_still_returns_reply() {
    let frames = vec![encode(7, &[0x05]), encode(7, &[0x00, 0x33])];
    let (value, sent, warnings) = run(RegisterTransaction::write(0xf0, &[1]), &frames);
    assert_eq!(sent, vec![vec![0x13, 0x01, 0x04, 0x01, 0xf0, 0x01], vec![0x12]]);
    assert_eq!(value, vec![0x00, 0x33]);
    assert_eq!(warnings, vec![AckWarning { step: 0, status: AckStatus::ErrorReported(5) }]);
}

#[test]
fn read_with_wrong_length_acks_warns_twice() {
    let frames = vec![encode(7, &[0x00, 0x00]), encode(7, &[0x00]), encode(7, &[0x07])];
    let (value, _, warnings) = run(RegisterTransaction::read(1, 0xf0), &frames);
    assert_eq!(value, vec![0x07]);
    assert_eq!(
        warnings,
        vec![
            AckWarning { step: 0, status: AckStatus::WrongLength(2) },
            AckWarning { step: 1, status: AckStatus::WrongLength(1) },
        ]
    );
}

#[test]
fn fan_and_page_commands() {
    let psu = Psu::new(Config::default());
    assert_eq!(psu.setup_dongle(), vec![0x11, 0x02, 0x64, 0x00, 0x00, 0x00, 0x00]);
    assert_eq!(psu.version_request(), vec![0x00]);
    assert_eq!(psu.firmware_request(), vec![0x02]);
    assert_eq!(psu.set_fan_mode(1).request(), vec![0x13, 0x01, 0x04, 0x01, FAN_MODE_REGISTER, 0x01]);
    assert_eq!(psu.set_fan_speed_percent(40).request(), vec![0x13, 0x01, 0x04, 0x01, 0x3b, 40]);
    let rail = psu.set_rail(2);
    assert_eq!(rail.register, RAIL_SELECT_REGISTER);
    assert_eq!(rail.write().request(), vec![0x13, 0x01, 0x04, 0x01, 0x00, 0x02]);
    let page = psu.set_12v_page(5);
    assert_eq!(page.register, PAGE_SELECT_REGISTER);
    assert_eq!(page.read_back().request(), vec![0x13, 0x03, 0x06, 0x01, 0x07, 0x01, 0xe7]);
    assert_eq!(psu.read_device_name().request(), vec![0x13, 0x03, 0x06, 0x01, 0x07, 0x07, 0x9a]);
    assert_eq!(psu.read_uptime().request(), vec![0x13, 0x03, 0x06, 0x01, 0x07, 0x02, 0xd2]);
    assert_eq!(psu.read_linear(0x88).request(), vec![0x13, 0x03, 0x06, 0x01, 0x07, 0x02, 0x88]);
}

#[test]
fn readback_first_byte_or_zero() {
    assert_eq!(readback_value(&[7, 1]), 7);
    assert_eq!(readback_value(&[]), 0);
}

#[test]
fn config_defaults() {
    let c = Config::default();
    assert_eq!(c.vendor_id, 0x1b1c);
    assert_eq!(c.product_id, 0x1c11);
    assert!(c.fan_percent.is_none());
    assert_eq!(c.fan_mode(), 0);
    let mut manual = c;
    manual.fan_percent = Some(50);
    assert_eq!(manual.fan_mode(), 1);
}

#[test]
fn status_plan_order() {
    let plan = status_plan();
    assert_eq!(plan.len(), 7 + 3 * 6 + 12 * 7 + 6);
    assert_eq!(plan[0], StatusStep::DeviceName);
    assert_eq!(plan[6], StatusStep::ReportInput);
    assert_eq!(plan[7], StatusStep::SelectRail(0));
    assert_eq!(plan[19], StatusStep::SelectRail(2));
    assert_eq!(plan[24], StatusStep::ReportRail(2));
    assert_eq!(plan[25], StatusStep::SelectRail(0));
    assert_eq!(plan[26], StatusStep::SelectPage(0));
    assert_eq!(plan[25 + 7 * 11 + 1], StatusStep::SelectPage(11));
    assert_eq!(plan[25 + 7 * 11 + 5], StatusStep::Read(Quantity::PageOcpLimit, 0xea));
    assert_eq!(plan[plan.len() - 5], StatusStep::Uptime);
    assert_eq!(*plan.last().unwrap(), StatusStep::ReportTail);
}
