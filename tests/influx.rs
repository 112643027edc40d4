use hmtk::device::{decode_status, DeviceInfo, DeviceOptions, Timestamp};
use hmtk::influx::{push_decimal, to_influx, InfluxValue, Measurement};

fn text<T: InfluxValue>(v: T) -> String {
    let mut s = String::new();
    v.write_to(&mut s);
    s
}

#[test]
fn values_are_written_with_suffixes() {
    assert_eq!(text(true), "true");
    assert_eq!(text(false), "false");
    assert_eq!(text(0u8), "0u");
    assert_eq!(text(2217u32), "2217u");
    assert_eq!(text(u64::MAX), "18446744073709551615u");
    assert_eq!(text(-27i32), "-27i");
    assert_eq!(text(i64::MIN), "-9223372036854775808i");
    assert_eq!(text(5i8), "5i");
    assert_eq!(text("dusk"), "\"dusk\"");
    assert_eq!(text("a\"b"), "\"a\\\"b\"");
}

#[test]
fn decimal_digits() {
    let mut s = String::from("x");
    push_decimal(&mut s, 1_700_000_000_000_000_000);
    assert_eq!(s, "x1700000000000000000");
}

#[test]
fn measurement_line() {
    let mut m = Measurement::new("m");
    m.tag("a", "1").tag("empty", "").tag("b", "2");
    m.field("f", 3u8).field("g", true);
    assert_eq!(m.to_line(), "m,a=1,b=2 f=3u,g=true");
    m.timestamp(Timestamp { nanos: 42 });
    let mut out = String::new();
    m.write_to(&mut out);
    assert_eq!(out, "m,a=1,b=2 f=3u,g=true 42\n");
    let mut bare = Measurement::new("n");
    bare.tag("t", "");
    bare.field("x", -1i32);
    assert_eq!(bare.to_line(), "n x=-1i");
}

#[test]
fn snapshot_export() {
    let raw = decode_status(
        b"p1=1,p2=2,w1=23,w2=24,pe=99,o1=1,o2=0,do=80,lv=200,cj=2,kn=2217,g1=1,g2=0,tl=-3,th=27,l0=5".to_vec(),
    )
    .unwrap();
    let info = DeviceInfo::from_raw(&raw, Timestamp { nanos: 1_700_000_000_000_000_000 });
    let options = DeviceOptions { ty: "HMA-1".to_owned(), mac: "9523ccae1a9b".to_owned() };
    let expected = "\
hmtk,device_type=HMA-1,device_mac=9523ccae1a9b,solar=1 solar_charging=true,solar_pass_through=false,solar_power=23u 1700000000000000000
hmtk,device_type=HMA-1,device_mac=9523ccae1a9b,solar=2 solar_charging=false,solar_pass_through=true,solar_power=24u 1700000000000000000
hmtk,device_type=HMA-1,device_mac=9523ccae1a9b,output=1 output_active=true,output_power=1u 1700000000000000000
hmtk,device_type=HMA-1,device_mac=9523ccae1a9b,output=2 output_active=false,output_power=0u 1700000000000000000
hmtk,device_type=HMA-1,device_mac=9523ccae1a9b scene=\"dusk\",temperature_min=-3i,temperature_max=27i,battery_charge=99u,battery_capacity=2217u,battery_output_threshold=200u,battery_discharge_depth=80u 1700000000000000000
hmtk,device_type=HMA-1,device_mac=9523ccae1a9b,battery_cell=internal battery_cell_charging=true,battery_cell_discharging=false,battery_cell_discharge_depth=true,battery_cell_undervoltage=false 1700000000000000000
";
    assert_eq!(to_influx(&options, &info), expected);
}

#[test]
fn empty_device_tags_are_left_out() {
    let raw = decode_status(
        b"p1=0,p2=0,w1=0,w2=0,pe=0,o1=0,o2=0,do=0,lv=0,cj=0,kn=0,g1=0,g2=0,tl=0,th=0,l0=0".to_vec(),
    )
    .unwrap();
    let info = DeviceInfo::from_raw(&raw, Timestamp { nanos: 7 });
    let options = DeviceOptions { ty: String::new(), mac: "m".to_owned() };
    let out = to_influx(&options, &info);
    assert!(out.starts_with("hmtk,device_mac=m,solar=1 "));
    assert!(out.contains("hmtk,device_mac=m scene=\"day\","));
    assert_eq!(out.lines().count(), 6);
}
