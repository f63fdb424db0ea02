use rupamix::codec::read_volume_as_pct;
use rupamix::adjustment::{Adjustment, VolumeStep};
use rupamix::info_xtractor::{
    InfoXtractor, StepGrade, CANDIDATES_END, FIRST_CANDIDATE, JUDGED_UP_TO,
};

// A stand-in for the sound server's client library: the native scale and its
// rendering.
fn volume_from_db(db: f64) -> u32 {
    if db <= -200.0 {
        return 0;
    }
    let linear = 10f64.powf(db / 20.0);
    (linear.cbrt() * 65536.0).round() as u32
}

fn render(native: u32) -> String {
    format!("{:3}%", (native as u64 * 100 + 32768) / 65536)
}

fn candidate_renderings() -> Vec<String> {
    (FIRST_CANDIDATE..CANDIDATES_END).map(|db| render(volume_from_db(db as f64))).collect()
}

fn steps_to(target: u8, one: i32) -> (u8, u8, u16) {
    let step = volume_from_db(one as f64);
    let mut native = step;
    let starting_pct = read_volume_as_pct(&render(native));
    let climb = Adjustment { rising: true, target };
    let mut count: u16 = 0;
    while climb.next_step(read_volume_as_pct(&render(native))) == VolumeStep::Raise {
        native += step;
        count += 1;
    }
    (starting_pct, read_volume_as_pct(&render(native)), count)
}

#[test]
fn the_ones_are_the_candidates_that_show_one_percent() {
    let xtractor = InfoXtractor::new(&candidate_renderings());

    let expected: Vec<i32> = (-138..=-110).collect();
    assert_eq!(xtractor.ones(), &expected);
    assert_eq!(xtractor.one_pct_midpoint(), -124);
    assert_eq!(xtractor.one_pct_largest(), -110);
}

#[test]
fn the_search_ends_at_the_first_candidate_above_one_percent() {
    let renderings: Vec<String> =
        ["0%", "1%", "0%", "1%", "2%", "1%"].iter().map(|r| r.to_string()).collect();

    let xtractor = InfoXtractor::new(&renderings);

    assert_eq!(xtractor.ones(), &vec![-159, -157]);
}

#[test]
fn renderings_beyond_the_last_candidate_are_not_looked_at() {
    let renderings: Vec<String> = (0..80).map(|k| if k < 69 { "0%" } else { "1%" }.to_string()).collect();

    let xtractor = InfoXtractor::new(&renderings);

    assert_eq!(xtractor.ones(), &vec![-91]);
}

#[test]
fn a_second_search_adds_to_the_first() {
    let mut xtractor = InfoXtractor::default();
    assert!(xtractor.ones().is_empty());

    xtractor.find_ones(&vec!["1%".to_string()]);
    xtractor.find_ones(&vec!["0%".to_string(), "1%".to_string(), "(invalid)".to_string()]);

    assert_eq!(xtractor.ones(), &vec![-160, -159]);
}

#[test]
fn a_climb_is_reported_in_three_lines() {
    let (starting_pct, ending_pct, count) = steps_to(100, -124);

    let report = InfoXtractor::test_one_pct_midpoint(starting_pct, ending_pct, count as u8);

    assert_eq!(report, vec!["", "Went from 1% to 100%", "This process took 116 steps"]);
}

#[test]
fn a_step_is_graded_by_its_count() {
    assert_eq!(JUDGED_UP_TO, 200);
    let (output, grade) = InfoXtractor::test_one_pct_better(-120, 1, 200, 199);
    assert_eq!(
        output,
        "\nFor 'one': -120dB\nVolume went from 1% to 200%\nThis process took 199steps."
    );
    assert_eq!(grade, StepGrade::Exact);
    assert_eq!(InfoXtractor::test_one_pct_better(-110, 1, 200, 198).1, StepGrade::Coarse);
    assert_eq!(InfoXtractor::test_one_pct_better(-138, 1, 200, 200).1, StepGrade::Fine);
    assert_eq!(InfoXtractor::test_one_pct_better(0, 0, 0, 0).1, StepGrade::Coarse);
    assert_eq!(InfoXtractor::test_one_pct_better(0, 0, 0, u16::MAX).1, StepGrade::Fine);
}

#[test]
fn the_step_of_one_hundred_twenty_decibels_below_climbs_point_by_point() {
    let (starting_pct, ending_pct, count) = steps_to(JUDGED_UP_TO, -120);

    let (_, grade) = InfoXtractor::test_one_pct_better(-120, starting_pct, ending_pct, count);

    assert_eq!((starting_pct, ending_pct, count), (1, 200, 199));
    assert_eq!(grade, StepGrade::Exact);
}
