use rupamix::codec::APPROX_ONE_PCT;
use rupamix::adjustment::{Adjustment, VolumeStep};
use rupamix::device::{Device, PulseSourceInfo};

// A stand-in for the sound server's client library: the native scale, its
// rendering, and its steps.
const NORM: u64 = 65536;
const NATIVE_MAX: u32 = u32::MAX / 2;

fn volume_from_db(db: f64) -> u32 {
    if db <= -200.0 {
        return 0;
    }
    let linear = 10f64.powf(db / 20.0);
    (linear.cbrt() * NORM as f64).round() as u32
}

fn render(native: u32) -> String {
    format!("{:3}%", (native as u64 * 100 + NORM / 2) / NORM)
}

fn scaled(values: &[u32], to: u32) -> Vec<u32> {
    let top = values.iter().copied().max().unwrap_or(0);
    values
        .iter()
        .map(|v| if top == 0 { to } else { (*v as u64 * to as u64 / top as u64) as u32 })
        .collect()
}

fn raised(values: &[u32], by: u32) -> Vec<u32> {
    let top = values.iter().copied().max().unwrap_or(0);
    scaled(values, if top >= NATIVE_MAX - by { NATIVE_MAX } else { top + by })
}

fn lowered(values: &[u32], by: u32) -> Vec<u32> {
    let top = values.iter().copied().max().unwrap_or(0);
    scaled(values, if top <= by { 0 } else { top - by })
}

fn step_size() -> u32 {
    volume_from_db(APPROX_ONE_PCT as f64)
}

fn settle(device: &mut Device, plan: Adjustment) {
    loop {
        let next = match device.next_step(&plan) {
            VolumeStep::Raise => raised(device.volume(), step_size()),
            VolumeStep::Lower => lowered(device.volume(), step_size()),
            VolumeStep::Hold => break,
        };
        let rendering = render(next[0]);
        assert!(device.update_volume(next, rendering));
    }
}

fn increase_volume(device: &mut Device, inc: &u8, boost: bool) {
    let plan = device.increase_volume(inc, boost);
    settle(device, plan);
}

fn decrease_volume(device: &mut Device, inc: &u8) {
    let plan = device.decrease_volume(inc);
    settle(device, plan);
}

fn set_volume(device: &mut Device, vol: u8, boost: bool) {
    if let Some(plan) = device.set_volume(vol, boost) {
        settle(device, plan);
    }
}

const APPRROX_54_PCT: f64 = -16.01;

fn setup() -> PulseSourceInfo {
    let name = String::from("test");
    let index = 150;
    let description = String::from("this is a desc");
    let base_volume = volume_from_db(-16.1);
    let native = volume_from_db(APPRROX_54_PCT);
    PulseSourceInfo::new(name, index, description, vec![native, native], render(native), base_volume)
}

#[test]
fn source_info_test_get_vol_as_pct() {
    let source = setup();
    let result = source.get_volume_as_pct();

    assert_eq!(54_u8, result);
}

#[test]
fn source_info_test_increase_vol_by_5() {
    let mut source = setup();
    increase_volume(&mut source, &5, false);

    assert_eq!(59, source.get_volume_as_pct());
}

#[test]
fn source_info_test_increase_vol_by_10() {
    let mut source = setup();
    increase_volume(&mut source, &10, false);

    assert_eq!(64, source.get_volume_as_pct());
}

#[test]
fn source_info_test_increase_vol_by_15() {
    let mut source = setup();
    increase_volume(&mut source, &15, false);

    assert_eq!(69, source.get_volume_as_pct());
}

#[test]
fn source_info_test_increase_vol_by_20() {
    let mut source = setup();
    increase_volume(&mut source, &20, false);

    assert_eq!(74, source.get_volume_as_pct());
}

#[test]
fn source_info_test_decrease_vol_by_5() {
    let mut source = setup();
    decrease_volume(&mut source, &5);

    assert_eq!(49, source.get_volume_as_pct());
}

#[test]
fn source_info_test_decrease_vol_by_10() {
    let mut source = setup();
    decrease_volume(&mut source, &10);

    assert_eq!(44, source.get_volume_as_pct());
}

#[test]
fn source_info_test_decrease_vol_by_15() {
    let mut source = setup();
    decrease_volume(&mut source, &15);

    assert_eq!(39, source.get_volume_as_pct());
}

#[test]
fn source_info_test_decrease_vol_by_20() {
    let mut source = setup();
    decrease_volume(&mut source, &20);

    assert_eq!(34, source.get_volume_as_pct());
}

#[test]
fn source_info_test_increase_vol_by_46() {
    let mut source = setup();
    increase_volume(&mut source, &46, false);

    assert_eq!(100, source.get_volume_as_pct());
}

#[test]
fn source_info_test_decrease_vol_by_54() {
    let mut source = setup();
    decrease_volume(&mut source, &54);

    assert_eq!(0, source.get_volume_as_pct());
}

#[test]
fn source_info_test_increase_vol_by_56() {
    let mut source = setup();
    increase_volume(&mut source, &56, false);

    assert_eq!(100, source.get_volume_as_pct());
}

#[test]
fn source_info_test_decrease_vol_by_64() {
    let mut source = setup();
    decrease_volume(&mut source, &64);

    assert_eq!(0, source.get_volume_as_pct());
}

#[test]
fn source_info_test_increase_vol_by_50() {
    let mut source = setup();
    increase_volume(&mut source, &50, true);

    assert_eq!(104, source.get_volume_as_pct());
}

#[test]
fn source_info_test_increase_vol_by_66() {
    let mut source = setup();
    increase_volume(&mut source, &66, true);

    assert_eq!(120, source.get_volume_as_pct());
}

#[test]
fn source_info_test_increase_vol_by_255() {
    let mut source = setup();
    increase_volume(&mut source, &255, true);

    assert_eq!(120, source.get_volume_as_pct());
}
