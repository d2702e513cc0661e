use sensor_drivers::bus::{RegRead, RegWrite};
use sensor_drivers::error::Error;
use sensor_drivers::l3gd20::config::Registers;
use sensor_drivers::l3gd20::convert::{gyro_rates, gyro_sample, temperature, RATE_DEN};
use sensor_drivers::l3gd20::gyro::{Axis, Bandwidth, DataRate, FIFOMode, OutputSelect, Range};
use sensor_drivers::l3gd20::{Config, L3gd20};
use sensor_drivers::quantity::Quantity;

fn as_f32(q: Quantity) -> f32 {
    (q.num as f64 / q.den as f64) as f32
}

#[test]
fn default_image_decodes_to_250_dps() {
    let cfg = Config::new();
    assert_eq!(cfg.params(), Range::Dps250);
    assert_eq!(
        cfg.registers(),
        Registers { ctrl1: 0x0F, ctrl2: 0x00, ctrl3: 0x00, ctrl4: 0x80, ctrl5: 0x40 }
    );
    assert_eq!(Config::default().registers(), cfg.registers());
}

#[test]
fn scale_round_trips_every_range() {
    for r in [Range::Dps250, Range::Dps500, Range::Dps2000] {
        assert_eq!(Config::new().scale(r).params(), r);
        assert_eq!(Config::new().scale(Range::Dps2000).scale(r).params(), r);
    }
    assert_eq!(Config::new().scale(Range::Dps2000).registers().ctrl4, 0xA0);
    assert_eq!(Config::new().scale(Range::Dps500).registers().ctrl4, 0x90);
}

#[test]
fn decode_aliases_both_high_codes() {
    assert_eq!(Range::from_bits(0b10), Range::Dps2000);
    assert_eq!(Range::from_bits(0b11), Range::Dps2000);
    assert_eq!(Range::from_bits(0b00), Range::Dps250);
    assert_eq!(Range::from_bits(0b01), Range::Dps500);
}

#[test]
fn axis_setting_replaces_previous_axes() {
    let xy = Axis::XAxis + Axis::YAxis;
    assert_eq!(xy, 0b011);
    assert_eq!(Axis::ZAxis + 0b001u8, 0b101);
    assert_eq!(0b010u8 + Axis::ZAxis, 0b110);
    assert_eq!(Config::new().axis(xy).registers().ctrl1, 0x0B);
    let ab = Config::new().axis(Axis::XAxis.bits()).axis(Axis::YAxis.bits());
    let ba = Config::new().axis(Axis::YAxis.bits()).axis(Axis::XAxis.bits());
    assert_eq!(ab.registers().ctrl1 & 0x7, 0b010);
    assert_eq!(ba.registers().ctrl1 & 0x7, 0b001);
    let same1 = Config::new().axis(xy).axis(xy);
    assert_eq!(same1.registers(), Config::new().axis(xy).registers());
}

#[test]
fn rate_and_bandwidth_fields() {
    assert_eq!(Config::new().datarate(DataRate::Hz760).registers().ctrl1, 0xCF);
    assert_eq!(Config::new().datarate(DataRate::Hz190).registers().ctrl1, 0x4F);
    assert_eq!(Config::new().bandwidth(Bandwidth::High).registers().ctrl1, 0x2F);
    let both = Config::new().datarate(DataRate::Hz380).bandwidth(Bandwidth::VeryHigh);
    assert_eq!(both.registers().ctrl1, 0xBF);
    assert_eq!(FIFOMode::BypassToStream.bits(), 0b100);
    assert_eq!(OutputSelect::LowPassFilter.bits(), 0b10);
}

#[test]
fn create_lists_control_writes_in_order() {
    let cfg = Config::new().scale(Range::Dps500).datarate(DataRate::Hz95);
    let (dev, writes) = L3gd20::create(7u32, 0x6B, cfg);
    assert_eq!(dev.addr(), 0x6B);
    assert_eq!(dev.range(), Range::Dps500);
    assert_eq!(
        writes,
        vec![
            RegWrite { addr: 0x6B, reg: 0x20, val: 0x0F },
            RegWrite { addr: 0x6B, reg: 0x21, val: 0x00 },
            RegWrite { addr: 0x6B, reg: 0x22, val: 0x00 },
            RegWrite { addr: 0x6B, reg: 0x23, val: 0x90 },
            RegWrite { addr: 0x6B, reg: 0x24, val: 0x40 },
        ]
    );
}

#[test]
fn sleep_and_read_requests() {
    let (mut dev, _) = L3gd20::create(7u32, 0x6A, Config::new());
    assert_eq!(dev.sleep(), vec![RegWrite { addr: 0x6A, reg: 0x20, val: 0x08 }]);
    assert_eq!(dev.gyro_request(), RegRead { addr: 0x6A, reg: 0xA8, len: 6 });
    assert_eq!(dev.temp_request(), RegRead { addr: 0x6A, reg: 0x26, len: 1 });
    *dev.interface() = 9;
    assert_eq!(*dev.interface(), 9);
}

#[test]
fn sample_bytes_are_low_first() {
    let raw = gyro_sample([0x00, 0x40, 0x00, 0xE0, 0x00, 0x00]);
    assert_eq!(raw, [16384, -8192, 0]);
    assert_eq!(gyro_sample([0xFF, 0x7F, 0x00, 0x80, 0x34, 0x12]), [32767, -32768, 0x1234]);
}

#[test]
fn end_to_end_2000_dps() {
    let cfg = Config::new().scale(Range::Dps2000);
    let raw = gyro_sample([0x00, 0x40, 0x00, 0xE0, 0x00, 0x00]);
    let r = gyro_rates::<()>(raw, cfg.params()).unwrap();
    assert_eq!(r[0], Quantity { num: 2001683267584000, den: RATE_DEN });
    assert_eq!(r[1], Quantity { num: -1000841633792000, den: RATE_DEN });
    assert_eq!(r[2].num, 0);
    let expected = 16384.0f32 * 0.070 * 0.017453293;
    assert!((as_f32(r[0]) - expected).abs() < 1e-4);
    assert!((as_f32(r[1]) + expected / 2.0).abs() < 1e-4);
}

#[test]
fn rate_weights_per_range() {
    let r = gyro_rates::<()>([1, -1, 2], Range::Dps250).unwrap();
    assert_eq!(r[0].num, 875 * 17453293);
    assert_eq!(r[1].num, -875 * 17453293);
    assert_eq!(r[2].num, 2 * 875 * 17453293);
    let r = gyro_rates::<()>([1, 0, 0], Range::Dps500).unwrap();
    assert_eq!(r[0].num, 1750 * 17453293);
}

#[test]
fn saturated_x_is_reported_alone() {
    assert_eq!(gyro_rates::<()>([32760, 0, 0], Range::Dps250), Err(Error::RangeOverflowX));
    assert_eq!(gyro_rates::<()>([-32760, 0, 0], Range::Dps250), Err(Error::RangeOverflowX));
    assert_eq!(gyro_rates::<()>([32760, 32767, 32767], Range::Dps250), Err(Error::RangeOverflowX));
}

#[test]
fn saturated_y_is_reported() {
    assert_eq!(gyro_rates::<()>([0, 32760, 0], Range::Dps500), Err(Error::RangeOverflowY));
    assert_eq!(gyro_rates::<()>([0, -32768, 0], Range::Dps500), Err(Error::RangeOverflowY));
}

#[test]
fn z_axis_is_never_reported() {
    assert!(gyro_rates::<()>([0, 0, 32767], Range::Dps2000).is_ok());
    assert!(gyro_rates::<()>([0, 0, -32768], Range::Dps2000).is_ok());
}

#[test]
fn just_below_threshold_converts() {
    assert!(gyro_rates::<()>([32759, -32759, 32759], Range::Dps2000).is_ok());
}

#[test]
fn temperature_is_raw_degrees() {
    assert_eq!(temperature(-5), Quantity { num: -5, den: 1 });
    assert_eq!(temperature(25), Quantity { num: 25, den: 1 });
}

#[test]
fn setters_of_different_fields_commute() {
    let a = Config::new().datarate(DataRate::Hz380).bandwidth(Bandwidth::Medium).scale(Range::Dps500).axis(0b110);
    let b = Config::new().axis(0b110).scale(Range::Dps500).bandwidth(Bandwidth::Medium).datarate(DataRate::Hz380);
    assert_eq!(a.registers(), b.registers());
    assert_eq!(a.registers().ctrl1, 0x9E);
}
