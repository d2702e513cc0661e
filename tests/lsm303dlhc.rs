use sensor_drivers::bus::{RegRead, RegWrite};
use sensor_drivers::error::Error;
use sensor_drivers::lsm303dlhc::accel::{self, Axis, Mode};
use sensor_drivers::lsm303dlhc::config::Registers;
use sensor_drivers::lsm303dlhc::convert::{
    accel_sample, accelerations, fields, mag_sample, temp_sample, temperature, ACCEL_DEN,
};
use sensor_drivers::lsm303dlhc::{mag, Config, Lsm303dlhc};
use sensor_drivers::quantity::Quantity;

#[test]
fn default_image_decodes_to_power_on_modes() {
    let cfg = Config::new();
    assert_eq!(cfg.params(), ((Mode::HighResolution, accel::Range::G2), mag::Range::Gauss1_3));
    assert_eq!(
        cfg.registers(),
        Registers {
            ctrl1: 0x00,
            ctrl2: 0x00,
            ctrl3: 0x00,
            ctrl4: 0x88,
            ctrl5: 0x40,
            ctrl6: 0x00,
            cra: 0x80,
            crb: 0x20,
            mr: 0x03,
        }
    );
    assert_eq!(Config::default().registers(), cfg.registers());
}

#[test]
fn modes_decode_from_two_registers() {
    assert_eq!(Config::new().lowpower().params().0 .0, Mode::LowPower);
    assert_eq!(Config::new().normal().params().0 .0, Mode::Normal);
    assert_eq!(Config::new().lowpower().highres().params().0 .0, Mode::HighResolution);
    assert_eq!(Config::new().highres().lowpower().params().0 .0, Mode::LowPower);
    let n = Config::new().normal().registers();
    assert_eq!((n.ctrl1, n.ctrl4), (0x00, 0x80));
    assert_eq!(Config::new().lowpower().registers().ctrl1, 0x08);
}

#[test]
fn scales_round_trip() {
    for a in [accel::Range::G2, accel::Range::G4, accel::Range::G8, accel::Range::G16] {
        assert_eq!(Config::new().scale(Some(a), None).params().0 .1, a);
    }
    for m in [
        mag::Range::Gauss1_3,
        mag::Range::Gauss1_9,
        mag::Range::Gauss2_5,
        mag::Range::Gauss4_0,
        mag::Range::Gauss4_7,
        mag::Range::Gauss5_6,
        mag::Range::Gauss8_1,
    ] {
        assert_eq!(Config::new().scale(None, Some(m)).params().1, m);
    }
    let r = Config::new().scale(Some(accel::Range::G8), Some(mag::Range::Gauss4_0)).registers();
    assert_eq!((r.ctrl4, r.crb), (0xA8, 0x80));
    let unchanged = Config::new().scale(None, None).registers();
    assert_eq!(unchanged, Config::new().registers());
}

#[test]
fn axes_accumulate_in_any_order() {
    let ab = Config::new().axis(Axis::XAxis.bits()).axis(Axis::ZAxis.bits());
    let ba = Config::new().axis(Axis::ZAxis.bits()).axis(Axis::XAxis.bits());
    assert_eq!(ab.registers(), ba.registers());
    assert_eq!(ab.registers().ctrl1, 0b101);
    assert_eq!(Config::new().axis(Axis::XAxis + Axis::YAxis + Axis::ZAxis).registers().ctrl1, 0x07);
}

#[test]
fn datarate_and_temperature_fields() {
    let r = Config::new().datarate(Some(accel::DataRate::Hz100), Some(mag::DataRate::Hz15)).registers();
    assert_eq!((r.ctrl1, r.cra, r.mr), (0x50, 0x90, 0x00));
    let r = Config::new().datarate(None, None).registers();
    assert_eq!(r, Config::new().registers());
    assert_eq!(Config::new().temperature(false).registers().cra, 0x00);
    assert_eq!(Config::new().temperature(false).temperature(true).registers().cra, 0x80);
}

#[test]
fn create_lists_both_subsystems_writes() {
    let cfg = Config::new().normal().scale(Some(accel::Range::G4), Some(mag::Range::Gauss2_5));
    let (dev, writes) = Lsm303dlhc::create((), cfg);
    assert_eq!(dev.accel(), (Mode::Normal, accel::Range::G4));
    assert_eq!(dev.mag(), mag::Range::Gauss2_5);
    assert_eq!(
        writes,
        vec![
            RegWrite { addr: 0x19, reg: 0x20, val: 0x00 },
            RegWrite { addr: 0x19, reg: 0x21, val: 0x00 },
            RegWrite { addr: 0x19, reg: 0x22, val: 0x00 },
            RegWrite { addr: 0x19, reg: 0x23, val: 0x90 },
            RegWrite { addr: 0x19, reg: 0x24, val: 0x40 },
            RegWrite { addr: 0x19, reg: 0x25, val: 0x00 },
            RegWrite { addr: 0x1E, reg: 0x01, val: 0x00 },
            RegWrite { addr: 0x1E, reg: 0x01, val: 0x60 },
            RegWrite { addr: 0x1E, reg: 0x00, val: 0x80 },
            RegWrite { addr: 0x1E, reg: 0x02, val: 0x03 },
        ]
    );
}

#[test]
fn sleep_and_read_requests_lsm() {
    let (dev, _) = Lsm303dlhc::create((), Config::new());
    assert_eq!(
        dev.sleep(),
        vec![
            RegWrite { addr: 0x19, reg: 0x20, val: 0x08 },
            RegWrite { addr: 0x1E, reg: 0x02, val: 0x03 },
        ]
    );
    assert_eq!(dev.accel_request(), RegRead { addr: 0x19, reg: 0xA8, len: 6 });
    assert_eq!(dev.mag_request(), RegRead { addr: 0x1E, reg: 0x83, len: 6 });
    assert_eq!(
        dev.temp_requests(),
        [RegRead { addr: 0x1E, reg: 0x31, len: 1 }, RegRead { addr: 0x1E, reg: 0x32, len: 1 }]
    );
}

#[test]
fn end_to_end_highres_2g_zero() {
    let cfg = Config::new().highres().scale(Some(accel::Range::G2), None);
    let ((mode, range), _) = cfg.params();
    let raw = accel_sample([0; 6]);
    let r = accelerations(raw, mode, range);
    for q in r {
        assert_eq!(q.num, 0);
        assert_eq!((q.num as f32) / (q.den as f32), 0.0f32);
    }
}

#[test]
fn acceleration_drops_low_bits_then_weighs() {
    let raw = accel_sample([0x10, 0x00, 0xF0, 0xFF, 0xFF, 0x7F]);
    assert_eq!(raw, [16, -16, 32767]);
    let r = accelerations(raw, Mode::HighResolution, accel::Range::G2);
    assert_eq!(r[0], Quantity { num: 96105170, den: ACCEL_DEN });
    assert_eq!(r[1].num, -96105170);
    assert_eq!(r[2].num, 2047 * 98 * 980665);
    let r = accelerations([-1, 64, 256], Mode::Normal, accel::Range::G16);
    assert_eq!(r[0].num, -4690 * 980665);
    assert_eq!(r[1].num, 4690 * 980665);
    let r = accelerations([256, -257, 255], Mode::LowPower, accel::Range::G16);
    assert_eq!(r[0].num, 18758 * 980665);
    assert_eq!(r[1].num, -2 * 18758 * 980665);
    assert_eq!(r[2].num, 0);
    let g = r[0].num as f64 / r[0].den as f64;
    assert!((g - 0.18758 * 9.80665).abs() < 1e-9);
}

#[test]
fn mag_bytes_are_high_first_xzy() {
    assert_eq!(mag_sample([0x01, 0x00, 0x00, 0x10, 0xFF, 0xFF]), [256, -1, 16]);
}

#[test]
fn field_gains_per_axis() {
    let r = fields::<()>([1100, -855, 980], mag::Range::Gauss1_3).unwrap();
    assert_eq!(r[0], Quantity { num: 110000, den: 1100 });
    assert_eq!(r[1], Quantity { num: -85500, den: 1100 });
    assert_eq!(r[2], Quantity { num: 98000, den: 980 });
    let r = fields::<()>([230, 0, 205], mag::Range::Gauss8_1).unwrap();
    assert_eq!((r[0].num, r[0].den, r[2].den), (23000, 230, 205));
}

#[test]
fn mag_saturation_reports_x_then_y() {
    assert_eq!(fields::<()>([2048, 0, 0], mag::Range::Gauss1_3), Err(Error::RangeOverflowX));
    assert_eq!(fields::<()>([-2049, 2048, 0], mag::Range::Gauss1_3), Err(Error::RangeOverflowX));
    assert_eq!(fields::<()>([0, 2048, 0], mag::Range::Gauss1_3), Err(Error::RangeOverflowY));
    assert_eq!(fields::<()>([0, -2049, 0], mag::Range::Gauss1_3), Err(Error::RangeOverflowY));
    assert!(fields::<()>([-2048, 2047, 4000], mag::Range::Gauss1_3).is_ok());
}

#[test]
fn temperature_word_and_degrees() {
    assert_eq!(temp_sample(0x01, 0x80), 24);
    assert_eq!(temp_sample(0xFF, 0xF0), -1);
    assert_eq!(temp_sample(0x80, 0x00), -2048);
    assert_eq!(temperature(24), Quantity { num: 184, den: 8 });
    assert_eq!(temperature(-160), Quantity { num: 0, den: 8 });
}

#[test]
fn mode_table() {
    assert_eq!(Mode::HighResolution.params(accel::Range::G16), (4, 1172));
    assert_eq!(Mode::Normal.params(accel::Range::G8), (6, 1563));
    assert_eq!(Mode::LowPower.params(accel::Range::G4), (8, 3126));
    assert_eq!(mag::Range::Gauss4_7.params(), (400, 355));
    assert_eq!(mag::Range::from_bits(0b110), mag::Range::Gauss5_6);
}

#[test]
fn lsm_setters_of_different_fields_commute() {
    let a = Config::new()
        .datarate(Some(accel::DataRate::Hz400), Some(mag::DataRate::Hz220))
        .scale(Some(accel::Range::G16), Some(mag::Range::Gauss8_1))
        .temperature(false)
        .axis(0b011);
    let b = Config::new()
        .axis(0b011)
        .temperature(false)
        .scale(Some(accel::Range::G16), Some(mag::Range::Gauss8_1))
        .datarate(Some(accel::DataRate::Hz400), Some(mag::DataRate::Hz220));
    assert_eq!(a.registers(), b.registers());
    let r = a.registers();
    assert_eq!((r.ctrl1, r.ctrl4, r.cra, r.crb, r.mr), (0x73, 0xB8, 0x1C, 0xE0, 0x00));
}
