use vstd::prelude::*;
use std::fmt::Write;
use crate::device::{BatteryCellInfo, DeviceInfo, DeviceOptions, OutputInfo, SolarInfo, Timestamp};
use crate::text::push_char;

verus! {

/// What the `Debug` format of a string writes: the text quoted, with escapes.
pub uninterp spec fn debug_str_of(s: Seq<char>) -> Seq<char>;

/// Relies on the `Debug` format of `str`: appends the quoted, escaped text.
#[verifier::external_body]
fn push_debug_str(sink: &mut String, s: &str)
    ensures
        final(sink)@ == old(sink)@ + debug_str_of(s@),
{
    let _ = write!(sink, "{s:?}");
}

/// The character of the decimal digit `d`.
pub open spec fn digit_char(d: int) -> char {
    ((d + 48) as u8) as char
}

/// The decimal digits of `n`, without leading zeros.
pub open spec fn decimal(n: nat) -> Seq<char>
    decreases n,
{
    if n < 10 {
        seq![digit_char(n as int)]
    } else {
        decimal(n / 10).push(digit_char((n % 10) as int))
    }
}

/// The decimal text of the integer `n`, with a leading `-` where it is negative.
pub open spec fn signed_decimal(n: int) -> Seq<char> {
    if n < 0 {
        seq!['-'] + decimal((-n) as nat)
    } else {
        decimal(n as nat)
    }
}

/// Appends the decimal digits of `n`.
pub fn push_decimal(sink: &mut String, n: u128)
    ensures
        final(sink)@ == old(sink)@ + decimal(n as nat),
    decreases n,
{
    if n >= 10 {
        push_decimal(sink, n / 10);
    }
    let d = (n % 10) as u8;
    push_char(sink, (d + 48) as char);
    assert(final(sink)@ =~= old(sink)@ + decimal(n as nat));
}

/// Appends the decimal text of `n`.
pub fn push_signed_decimal(sink: &mut String, n: i64)
    ensures
        final(sink)@ == old(sink)@ + signed_decimal(n as int),
{
    if n < 0 {
        push_char(sink, '-');
        let m: i128 = -(n as i128);
        push_decimal(sink, m as u128);
    } else {
        push_decimal(sink, n as u128);
    }
    assert(final(sink)@ =~= old(sink)@ + signed_decimal(n as int));
}

/// A value that can stand in a field of a line-protocol record.
pub trait InfluxValue {
    /// The text the value is written as.
    spec fn influx_text(&self) -> Seq<char>;

    /// Appends the value's text to `sink`.
    fn write_to(&self, sink: &mut String)
        ensures
            final(sink)@ == old(sink)@ + self.influx_text(),
    ;
}

impl<'s> InfluxValue for &'s str {
    open spec fn influx_text(&self) -> Seq<char> {
        debug_str_of((*self)@)
    }

    fn write_to(&self, sink: &mut String) {
        push_debug_str(sink, *self);
    }
}

impl InfluxValue for bool {
    open spec fn influx_text(&self) -> Seq<char> {
        if *self { "true"@ } else { "false"@ }
    }

    fn write_to(&self, sink: &mut String) {
        if *self {
            sink.append("true");
        } else {
            sink.append("false");
        }
    }
}

/// Appends an unsigned integer with its `u` suffix.
fn push_unsigned(sink: &mut String, n: u64)
    ensures
        final(sink)@ == old(sink)@ + decimal(n as nat).push('u'),
{
    push_decimal(sink, n as u128);
    push_char(sink, 'u');
    assert(final(sink)@ =~= old(sink)@ + decimal(n as nat).push('u'));
}

/// Appends a signed integer with its `i` suffix.
fn push_signed(sink: &mut String, n: i64)
    ensures
        final(sink)@ == old(sink)@ + signed_decimal(n as int).push('i'),
{
    push_signed_decimal(sink, n);
    push_char(sink, 'i');
    assert(final(sink)@ =~= old(sink)@ + signed_decimal(n as int).push('i'));
}

impl InfluxValue for u8 {
    open spec fn influx_text(&self) -> Seq<char> {
        decimal(*self as nat).push('u')
    }

    fn write_to(&self, sink: &mut String) {
        push_unsigned(sink, *self as u64);
    }
}

impl InfluxValue for u16 {
    open spec fn influx_text(&self) -> Seq<char> {
        decimal(*self as nat).push('u')
    }

    fn write_to(&self, sink: &mut String) {
        push_unsigned(sink, *self as u64);
    }
}

impl InfluxValue for u32 {
    open spec fn influx_text(&self) -> Seq<char> {
        decimal(*self as nat).push('u')
    }

    fn write_to(&self, sink: &mut String) {
        push_unsigned(sink, *self as u64);
    }
}

impl InfluxValue for u64 {
    open spec fn influx_text(&self) -> Seq<char> {
        decimal(*self as nat).push('u')
    }

    fn write_to(&self, sink: &mut String) {
        push_unsigned(sink, *self);
    }
}

impl InfluxValue for i8 {
    open spec fn influx_text(&self) -> Seq<char> {
        signed_decimal(*self as int).push('i')
    }

    fn write_to(&self, sink: &mut String) {
        push_signed(sink, *self as i64);
    }
}

impl InfluxValue for i16 {
    open spec fn influx_text(&self) -> Seq<char> {
        signed_decimal(*self as int).push('i')
    }

    fn write_to(&self, sink: &mut String) {
        push_signed(sink, *self as i64);
    }
}

impl InfluxValue for i32 {
    open spec fn influx_text(&self) -> Seq<char> {
        signed_decimal(*self as int).push('i')
    }

    fn write_to(&self, sink: &mut String) {
        push_signed(sink, *self as i64);
    }
}

impl InfluxValue for i64 {
    open spec fn influx_text(&self) -> Seq<char> {
        signed_decimal(*self as int).push('i')
    }

    fn write_to(&self, sink: &mut String) {
        push_signed(sink, *self);
    }
}

/// The tag list after adding `key=value`: a tag with an empty value is left out.
pub open spec fn add_tag(tags: Seq<char>, key: Seq<char>, value: Seq<char>) -> Seq<char> {
    if value.len() == 0 {
        tags
    } else if tags.len() == 0 {
        key + seq!['='] + value
    } else {
        tags + seq![','] + key + seq!['='] + value
    }
}

/// The field list after adding `key=` and a value written as `text`.
pub open spec fn add_field(fields: Seq<char>, key: Seq<char>, text: Seq<char>) -> Seq<char> {
    if fields.len() == 0 {
        key + seq!['='] + text
    } else {
        fields + seq![','] + key + seq!['='] + text
    }
}

/// One line-protocol record: name, tags, fields and an optional time in nanoseconds.
pub open spec fn line_text(name: Seq<char>, tags: Seq<char>, fields: Seq<char>, ts: Option<Timestamp>) -> Seq<char> {
    name + (if tags.len() == 0 { Seq::empty() } else { seq![','] + tags }) + seq![' '] + fields
        + match ts {
        Some(t) => seq![' '] + decimal(t.nanos as nat),
        None => Seq::empty(),
    }
}

/// A record of the line protocol, built up tag by tag and field by field.
pub struct Measurement<'a> {
    name: &'a str,
    tags: String,
    fields: String,
    timestamp: Option<Timestamp>,
}

impl<'a> Measurement<'a> {
    pub closed spec fn spec_name(&self) -> Seq<char> {
        self.name@
    }

    pub closed spec fn spec_tags(&self) -> Seq<char> {
        self.tags@
    }

    pub closed spec fn spec_fields(&self) -> Seq<char> {
        self.fields@
    }

    pub closed spec fn spec_timestamp(&self) -> Option<Timestamp> {
        self.timestamp
    }

    /// The record's text, without a line end.
    pub open spec fn spec_line(&self) -> Seq<char> {
        line_text(self.spec_name(), self.spec_tags(), self.spec_fields(), self.spec_timestamp())
    }

    /// Creates a new measurement named `name`.
    pub fn new(name: &'a str) -> (r: Self)
        ensures
            r.spec_name() == name@,
            r.spec_tags().len() == 0,
            r.spec_fields().len() == 0,
            r.spec_timestamp() is None,
    {
        Measurement { name, tags: String::new(), fields: String::new(), timestamp: None }
    }

    /// Appends a tag; one with an empty value is left out.
    pub fn tag(&mut self, key: &str, value: &str) -> (r: &mut Self)
        ensures
            r.spec_name() == old(self).spec_name(),
            r.spec_tags() == add_tag(old(self).spec_tags(), key@, value@),
            r.spec_fields() == old(self).spec_fields(),
            r.spec_timestamp() == old(self).spec_timestamp(),
            *final(self) == *final(r),
    {
        if value.unicode_len() != 0 {
            if self.tags.unicode_len() != 0 {
                push_char(&mut self.tags, ',');
            }
            self.tags.append(key);
            push_char(&mut self.tags, '=');
            self.tags.append(value);
            assert(self.tags@ =~= add_tag(old(self).spec_tags(), key@, value@));
        }
        self
    }

    /// Appends a field.
    pub fn field<T: InfluxValue>(&mut self, key: &str, value: T) -> (r: &mut Self)
        ensures
            r.spec_name() == old(self).spec_name(),
            r.spec_tags() == old(self).spec_tags(),
            r.spec_fields() == add_field(old(self).spec_fields(), key@, value.influx_text()),
            r.spec_timestamp() == old(self).spec_timestamp(),
            *final(self) == *final(r),
    {
        if self.fields.unicode_len() != 0 {
            push_char(&mut self.fields, ',');
        }
        self.fields.append(key);
        push_char(&mut self.fields, '=');
        value.write_to(&mut self.fields);
        assert(self.fields@ =~= add_field(old(self).spec_fields(), key@, value.influx_text()));
        self
    }

    /// Sets the time of the record.
    pub fn timestamp(&mut self, timestamp: Timestamp) -> (r: &mut Self)
        ensures
            r.spec_name() == old(self).spec_name(),
            r.spec_tags() == old(self).spec_tags(),
            r.spec_fields() == old(self).spec_fields(),
            r.spec_timestamp() == Some(timestamp),
            *final(self) == *final(r),
    {
        self.timestamp = Some(timestamp);
        self
    }

    /// Appends the record's text to `sink`.
    pub fn write_line(&self, sink: &mut String)
        ensures
            final(sink)@ == old(sink)@ + self.spec_line(),
    {
        sink.append(self.name);
        if self.tags.unicode_len() != 0 {
            push_char(sink, ',');
            sink.append(self.tags.as_str());
        }
        push_char(sink, ' ');
        sink.append(self.fields.as_str());
        match self.timestamp {
            Some(t) => {
                push_char(sink, ' ');
                push_decimal(sink, t.nanos);
            },
            None => {},
        }
        assert(final(sink)@ =~= old(sink)@ + self.spec_line());
    }

    /// The record's text, without a line end.
    pub fn to_line(&self) -> (r: String)
        ensures
            r@ == self.spec_line(),
    {
        let mut s = String::new();
        self.write_line(&mut s);
        assert(s@ =~= self.spec_line());
        s
    }

    /// Appends the record to `sink`, ended by a line feed.
    pub fn write_to(&self, sink: &mut String)
        ensures
            final(sink)@ == old(sink)@ + self.spec_line().push('\n'),
    {
        self.write_line(sink);
        push_char(sink, '\n');
        assert(final(sink)@ =~= old(sink)@ + self.spec_line().push('\n'));
    }
}

/// The tags every record of a device carries.
pub open spec fn device_tags(d: &DeviceOptions) -> Seq<char> {
    add_tag(add_tag(Seq::empty(), "device_type"@, d.ty@), "device_mac"@, d.mac@)
}

/// A record of the device, as a line of its own.
pub open spec fn record_line(tags: Seq<char>, fields: Seq<char>, ts: Timestamp) -> Seq<char> {
    line_text("hmtk"@, tags, fields, Some(ts)).push('\n')
}

pub open spec fn solar_line(d: &DeviceOptions, ts: Timestamp, index: Seq<char>, s: SolarInfo) -> Seq<char> {
    let fields = add_field(Seq::empty(), "solar_charging"@, s.charging.influx_text());
    let fields = add_field(fields, "solar_pass_through"@, s.pass_through.influx_text());
    let fields = add_field(fields, "solar_power"@, s.power.0.influx_text());
    record_line(add_tag(device_tags(d), "solar"@, index), fields, ts)
}

pub open spec fn output_line(d: &DeviceOptions, ts: Timestamp, index: Seq<char>, o: OutputInfo) -> Seq<char> {
    let fields = add_field(Seq::empty(), "output_active"@, o.active.influx_text());
    let fields = add_field(fields, "output_power"@, o.power.0.influx_text());
    record_line(add_tag(device_tags(d), "output"@, index), fields, ts)
}

pub open spec fn summary_line(d: &DeviceOptions, info: DeviceInfo) -> Seq<char> {
    let fields = add_field(Seq::empty(), "scene"@, debug_str_of(info.scene.name()));
    let fields = add_field(fields, "temperature_min"@, info.temperature.min.0.influx_text());
    let fields = add_field(fields, "temperature_max"@, info.temperature.max.0.influx_text());
    let fields = add_field(fields, "battery_charge"@, info.battery.charge.0.influx_text());
    let fields = add_field(fields, "battery_capacity"@, info.battery.capacity.0.influx_text());
    let fields = add_field(fields, "battery_output_threshold"@, info.battery.output_threshold.0.influx_text());
    let fields = add_field(fields, "battery_discharge_depth"@, info.battery.discharge_depth.0.influx_text());
    record_line(device_tags(d), fields, info.timestamp)
}

pub open spec fn cell_line(d: &DeviceOptions, ts: Timestamp, c: BatteryCellInfo) -> Seq<char> {
    let fields = add_field(Seq::empty(), "battery_cell_charging"@, c.charging.influx_text());
    let fields = add_field(fields, "battery_cell_discharging"@, c.discharging.influx_text());
    let fields = add_field(fields, "battery_cell_discharge_depth"@, c.discharge_depth.influx_text());
    let fields = add_field(fields, "battery_cell_undervoltage"@, c.undervoltage.influx_text());
    record_line(add_tag(device_tags(d), "battery_cell"@, "internal"@), fields, ts)
}

/// The line-protocol export of a snapshot: one record per solar input, one per
/// output, one for the device and one for the internal battery cell.
pub open spec fn influx_text_of(d: &DeviceOptions, info: DeviceInfo) -> Seq<char> {
    solar_line(d, info.timestamp, "1"@, info.solar1) + solar_line(d, info.timestamp, "2"@, info.solar2)
        + output_line(d, info.timestamp, "1"@, info.output1) + output_line(d, info.timestamp, "2"@, info.output2)
        + summary_line(d, info) + cell_line(d, info.timestamp, info.battery.internal)
}

/// A record named after the tool and tagged with the device.
fn device_record<'d>(d: &'d DeviceOptions, ts: Timestamp) -> (r: Measurement<'static>)
    ensures
        r.spec_name() == "hmtk"@,
        r.spec_tags() == device_tags(d),
        r.spec_fields().len() == 0,
        r.spec_timestamp() == Some(ts),
{
    let mut m = Measurement::new("hmtk");
    m.tag("device_type", d.ty.as_str());
    m.tag("device_mac", d.mac.as_str());
    m.timestamp(ts);
    m
}

fn write_solar(sink: &mut String, d: &DeviceOptions, ts: Timestamp, index: &str, s: &SolarInfo)
    ensures
        final(sink)@ == old(sink)@ + solar_line(d, ts, index@, *s),
{
    let mut m = device_record(d, ts);
    m.tag("solar", index);
    m.field("solar_charging", s.charging);
    m.field("solar_pass_through", s.pass_through);
    m.field("solar_power", s.power.0);
    m.write_to(sink);
}

fn write_output(sink: &mut String, d: &DeviceOptions, ts: Timestamp, index: &str, o: &OutputInfo)
    ensures
        final(sink)@ == old(sink)@ + output_line(d, ts, index@, *o),
{
    let mut m = device_record(d, ts);
    m.tag("output", index);
    m.field("output_active", o.active);
    m.field("output_power", o.power.0);
    m.write_to(sink);
}

fn write_summary(sink: &mut String, d: &DeviceOptions, info: &DeviceInfo)
    ensures
        final(sink)@ == old(sink)@ + summary_line(d, *info),
{
    let mut m = device_record(d, info.timestamp);
    m.field("scene", info.scene.as_str());
    m.field("temperature_min", info.temperature.min.0);
    m.field("temperature_max", info.temperature.max.0);
    m.field("battery_charge", info.battery.charge.0);
    m.field("battery_capacity", info.battery.capacity.0);
    m.field("battery_output_threshold", info.battery.output_threshold.0);
    m.field("battery_discharge_depth", info.battery.discharge_depth.0);
    m.write_to(sink);
}

fn write_cell(sink: &mut String, d: &DeviceOptions, ts: Timestamp, c: &BatteryCellInfo)
    ensures
        final(sink)@ == old(sink)@ + cell_line(d, ts, *c),
{
    let mut m = device_record(d, ts);
    m.tag("battery_cell", "internal");
    m.field("battery_cell_charging", c.charging);
    m.field("battery_cell_discharging", c.discharging);
    m.field("battery_cell_discharge_depth", c.discharge_depth);
    m.field("battery_cell_undervoltage", c.undervoltage);
    m.write_to(sink);
}

/// Writes a snapshot of the device in the line protocol.
pub fn to_influx(device: &DeviceOptions, device_info: &DeviceInfo) -> (r: String)
    ensures
        r@ == influx_text_of(device, *device_info),
{
    let mut result = String::new();
    let ts = device_info.timestamp;
    write_solar(&mut result, device, ts, "1", &device_info.solar1);
    write_solar(&mut result, device, ts, "2", &device_info.solar2);
    write_output(&mut result, device, ts, "1", &device_info.output1);
    write_output(&mut result, device, ts, "2", &device_info.output2);
    write_summary(&mut result, device, device_info);
    write_cell(&mut result, device, ts, &device_info.battery.internal);
    assert(result@ =~= influx_text_of(device, *device_info));
    result
}

} // verus!
