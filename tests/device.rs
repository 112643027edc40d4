use hmtk::codec::Message;
use hmtk::device::{
    bit, decode_status, DeviceInfo, DeviceOptions, Measurement, RawDeviceInfo, Scene, Timestamp,
};
use hmtk::error::{FieldError, IntErrorKind, InvalidSceneError, InvalidStatus, ParseIntError};
use hmtk::units::{Celsius, FieldValue, Percentage, Watt, WattHours};

const SCENARIO: &[u8] = b"p1=1,p2=1,w1=23,w2=23,pe=99,o1=1,o2=1,do=80,lv=200,cj=2,kn=2217,g1=1,g2=0,tl=27,th=27,l0=1";

fn raw(status: u8) -> RawDeviceInfo {
    RawDeviceInfo {
        p1: status,
        p2: 0,
        w1: Watt(0),
        w2: Watt(0),
        pe: Percentage(0),
        o1: status,
        o2: 0,
        discharge_depth: Percentage(0),
        lv: Watt(0),
        cj: Scene::Day,
        kn: WattHours(0),
        g1: Watt(0),
        g2: Watt(0),
        tl: Celsius(0),
        th: Celsius(0),
        l0: status,
    }
}

#[test]
fn test_message_device_info() {
    let payload = b"p1=1,p2=1,w1=23,w2=23,pe=99,vv=220,sv=12,cs=0,cd=0,am=0,o1=1,o2=1,do=80,lv=200,cj=2,kn=2217,g1=1,g2=0,b1=0,b2=0,md=0,d1=1,e1=0:0,f1=23:59,h1=200,d2=0,e2=0:0,f2=0:0,h2=600,d3=0,e3=0:0,f3=0:0,h3=0,sg=0,sp=80,st=0,tl=27,th=27,tc=0,tf=0,fc=202310231502,id=5,a0=99,a1=0,a2=0,l0=1,l1=0,c0=255,c1=0,bc=2025,bs=329,pt=3332,it=1518,m0=0,m1=0,m2=0,m3=1,d4=0,e4=0:0,f4=24:0,h4=80,d5=0,e5=0:0,f5=24:0,h5=80,lmo=1830,lmi=272,lmf=1";
    let message = Message::parse(payload.to_vec()).unwrap();
    let message = RawDeviceInfo::from_message(&message).unwrap();
    assert_eq!(
        message,
        RawDeviceInfo {
            p1: 1,
            p2: 1,
            w1: Watt(23),
            w2: Watt(23),
            pe: Percentage(99),
            o1: 1,
            o2: 1,
            discharge_depth: Percentage(80),
            lv: Watt(200),
            cj: Scene::Dusk,
            kn: WattHours(2217),
            g1: Watt(1),
            g2: Watt(0),
            tl: Celsius(27),
            th: Celsius(27),
            l0: 1,
        }
    );
}

#[test]
fn scenario_payload_decodes_to_snapshot() {
    let raw = decode_status(SCENARIO.to_vec()).unwrap();
    let info = DeviceInfo::from_raw(&raw, Timestamp { nanos: 5 });
    assert!(info.solar1.charging);
    // `p1=1` has bit 0 set and bit 1 clear: charging, not passing through.
    assert!(!info.solar1.pass_through);
    assert_eq!(info.solar1.power, Watt(23));
    assert!(info.output1.active);
    assert_eq!(info.output1.power, Watt(1));
    assert_eq!(info.output2.power, Watt(0));
    assert_eq!(info.battery.charge, Percentage(99));
    assert_eq!(info.battery.discharge_depth, Percentage(80));
    assert_eq!(info.battery.output_threshold, Watt(200));
    assert_eq!(info.battery.capacity, WattHours(2217));
    assert_eq!(info.scene, Scene::Dusk);
    assert_eq!(info.temperature.min, Celsius(27));
    assert_eq!(info.temperature.max, Celsius(27));
    assert!(info.battery.internal.charging);
    assert!(!info.battery.internal.discharging);
    assert!(!info.battery.internal.discharge_depth);
    assert!(!info.battery.internal.undervoltage);
    assert_eq!(info.timestamp, Timestamp { nanos: 5 });
}

#[test]
fn measurement_snapshot_keeps_capture_time() {
    let raw = decode_status(SCENARIO.to_vec()).unwrap();
    let m = Measurement::new(raw, Timestamp { nanos: 1_700_000_000_000_000_000 });
    let info = DeviceInfo::from_measurement(&m);
    assert_eq!(info, DeviceInfo::from_raw(&raw, m.time));
    assert_eq!(info.timestamp.secs(), 1_700_000_000);
    let empty: Measurement<RawDeviceInfo> = Measurement::default();
    assert!(empty.data.is_none());
    assert_eq!(empty.time, Timestamp { nanos: 0 });
}

#[test]
fn status_bits_are_independent_flags() {
    let one = DeviceInfo::from_raw(&raw(0b0000_0001), Timestamp::default());
    assert!(one.solar1.charging && !one.solar1.pass_through && one.output1.active);
    let two = DeviceInfo::from_raw(&raw(0b0000_0010), Timestamp::default());
    assert!(!two.solar1.charging && two.solar1.pass_through && !two.output1.active);
    let three = DeviceInfo::from_raw(&raw(0b0000_0011), Timestamp::default());
    assert!(three.solar1.charging && three.solar1.pass_through && three.output1.active);
    let cell = DeviceInfo::from_raw(&raw(0b1111_1100), Timestamp::default()).battery.internal;
    assert!(!cell.charging && !cell.discharging && cell.discharge_depth && cell.undervoltage);
    assert!(bit(0b1000_0000, 7));
    assert!(!bit(0b1000_0000, 6));
}

#[test]
fn missing_field_names_first_missing_key() {
    let err = decode_status(b"p2=1,w1=1".to_vec()).unwrap_err();
    assert!(matches!(err, InvalidStatus::MissingField("p1")));
    let without_w1_and_l0 = "p1=1,p2=1,w2=23,pe=99,o1=1,o2=1,do=80,lv=200,cj=2,kn=2217,g1=1,g2=0,tl=27,th=27";
    let err = decode_status(without_w1_and_l0.as_bytes().to_vec()).unwrap_err();
    assert!(matches!(err, InvalidStatus::MissingField("w1")));
    let without_l0 = "p1=1,p2=1,w1=23,w2=23,pe=99,o1=1,o2=1,do=80,lv=200,cj=2,kn=2217,g1=1,g2=0,tl=27,th=27";
    let err = decode_status(without_l0.as_bytes().to_vec()).unwrap_err();
    assert!(matches!(err, InvalidStatus::MissingField("l0")));
}

#[test]
fn unparsable_field_is_invalid_field() {
    let text = "p1=1,p2=1,w1=x,w2=23,pe=99,o1=1,o2=1,do=80,lv=200,cj=2,kn=2217,g1=1,g2=0,tl=27,th=27,l0=1";
    let err = decode_status(text.as_bytes().to_vec()).unwrap_err();
    assert!(matches!(
        err,
        InvalidStatus::InvalidField("w1", FieldError::Int(ParseIntError { kind: IntErrorKind::InvalidDigit }))
    ));
    let text = "p1=1,p2=1,w1=1,w2=23,pe=101x,o1=1";
    let err = decode_status(text.as_bytes().to_vec()).unwrap_err();
    assert!(matches!(err, InvalidStatus::InvalidField("pe", _)));
}

#[test]
fn unknown_scene_code_is_rejected() {
    assert_eq!(Scene::from_code("3"), Err(InvalidSceneError));
    assert_eq!(Scene::from_code("00"), Err(InvalidSceneError));
    assert_eq!(Scene::from_code(""), Err(InvalidSceneError));
    assert_eq!(Scene::from_code("0"), Ok(Scene::Day));
    assert_eq!(Scene::from_code("1"), Ok(Scene::Night));
    assert_eq!(Scene::from_code("2"), Ok(Scene::Dusk));
    assert_eq!(Scene::parse_text("3"), Err(FieldError::Scene(InvalidSceneError)));
    let text = "p1=1,p2=1,w1=23,w2=23,pe=99,o1=1,o2=1,do=80,lv=200,cj=3,kn=2217,g1=1,g2=0,tl=27,th=27,l0=1";
    let err = decode_status(text.as_bytes().to_vec()).unwrap_err();
    assert!(matches!(err, InvalidStatus::InvalidField("cj", FieldError::Scene(InvalidSceneError))));
}

#[test]
fn scene_names() {
    assert_eq!(Scene::Day.as_str(), "day");
    assert_eq!(Scene::Night.as_str(), "night");
    assert_eq!(Scene::Dusk.as_str(), "dusk");
}

#[test]
fn topics_follow_device_identity() {
    let options = DeviceOptions { ty: "HMA-1".to_owned(), mac: "9523ccae1a9b".to_owned() };
    assert_eq!(options.data_topic(), "hame_energy/HMA-1/device/9523ccae1a9b/ctrl");
    assert_eq!(options.control_topic(), "hame_energy/HMA-1/App/9523ccae1a9b/ctrl");
}
