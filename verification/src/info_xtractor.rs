//! Calibration: which loudness, in whole decibels, shows as one percent, and
//! how well a step of that loudness climbs the scale.

use vstd::prelude::*;
use vstd::string::StringExecFns;
use crate::codec::{percent_of, read_volume_as_pct};
use crate::table::line_texts;
use crate::text::{decimal_digits, push_decimal, push_signed_decimal, signed_digits};

verus! {

/// The lowest loudness that is tried, in decibels.
pub const FIRST_CANDIDATE: i32 = -160;

/// The loudness at which trying stops, in decibels. It is not tried itself.
pub const CANDIDATES_END: i32 = -90;

/// The percentage up to which a step is judged.
pub const JUDGED_UP_TO: u8 = 200;

/// How a step did on the way from one percent to `JUDGED_UP_TO`.
#[derive(Clone, Copy, PartialEq, Eq, Debug, Structural)]
pub enum StepGrade {
    /// Fewer steps than percentage points: some step skipped a point.
    Coarse,
    /// One step for each percentage point.
    Exact,
    /// More steps than percentage points: some step moved nothing.
    Fine,
}

/// The grade of a step that took `count` steps to climb to `JUDGED_UP_TO`.
pub open spec fn grade_of(count: u16) -> StepGrade {
    if count < JUDGED_UP_TO - 1 {
        StepGrade::Coarse
    } else if count == JUDGED_UP_TO - 1 {
        StepGrade::Exact
    } else {
        StepGrade::Fine
    }
}

/// The candidates that show as one percent. `percents[0]` is what the
/// candidate `from` shows, `percents[1]` what the next one shows, and so on.
/// The search ends at the first candidate that shows more than one percent.
pub open spec fn ones_among(percents: Seq<u8>, from: int) -> Seq<i32>
    decreases percents.len(),
{
    if percents.len() == 0 {
        Seq::empty()
    } else if percents[0] == 1 {
        seq![from as i32] + ones_among(percents.drop_first(), from + 1)
    } else if percents[0] > 1 {
        Seq::empty()
    } else {
        ones_among(percents.drop_first(), from + 1)
    }
}

/// The percentages that `renderings` show, up to as many as there are
/// candidates.
pub open spec fn candidate_percents(renderings: Seq<String>) -> Seq<u8> {
    Seq::new(
        if renderings.len() <= CANDIDATES_END - FIRST_CANDIDATE {
            renderings.len()
        } else {
            (CANDIDATES_END - FIRST_CANDIDATE) as nat
        },
        |k: int| percent_of(renderings[k]@),
    )
}

/// What the report on a climb says.
pub open spec fn climb_report(starting_pct: u8, ending_pct: u8, count: nat) -> Seq<Seq<char>> {
    seq![
        Seq::<char>::empty(),
        "Went from "@ + decimal_digits(starting_pct as nat) + "% to "@ + decimal_digits(
            ending_pct as nat,
        ) + "%"@,
        "This process took "@ + decimal_digits(count) + " steps"@,
    ]
}

/// What the report on the climb of the candidate `one` says.
pub open spec fn better_report(one: i32, starting_pct: u8, ending_pct: u8, count: u16) -> Seq<
    char,
> {
    "\nFor 'one': "@ + signed_digits(one as int) + "dB\n"@ + "Volume went from "@ + decimal_digits(
        starting_pct as nat,
    ) + "% to "@ + decimal_digits(ending_pct as nat) + "%\n"@ + "This process took "@
        + decimal_digits(count as nat) + "steps."@
}

/// The loudnesses, in whole decibels, that were found to show as one percent.
pub struct InfoXtractor {
    ones: Vec<i32>,
}

impl View for InfoXtractor {
    type V = Seq<i32>;

    closed spec fn view(&self) -> Seq<i32> {
        self.ones@
    }
}

impl Default for InfoXtractor {
    fn default() -> (info: InfoXtractor)
        ensures
            info@ == Seq::<i32>::empty(),
    {
        InfoXtractor { ones: Vec::new() }
    }
}

impl InfoXtractor {
    /// Searches the candidates. `renderings[k]` is the rendering of the
    /// volume that is `FIRST_CANDIDATE + k` decibels loud.
    pub fn new(renderings: &Vec<String>) -> (info: InfoXtractor)
        ensures
            info@ == ones_among(candidate_percents(renderings@), FIRST_CANDIDATE as int),
    {
        let mut info = InfoXtractor::default();
        info.find_ones(renderings);
        assert(Seq::<i32>::empty() + ones_among(
            candidate_percents(renderings@),
            FIRST_CANDIDATE as int,
        ) == ones_among(candidate_percents(renderings@), FIRST_CANDIDATE as int));
        info
    }

    /// The loudnesses found, lowest first.
    pub fn ones(&self) -> (ones: &Vec<i32>)
        ensures
            ones@ == self@,
    {
        &self.ones
    }

    /// Searches the candidates and adds those that show as one percent to
    /// the ones found before. `renderings[k]` is the rendering of the volume
    /// that is `FIRST_CANDIDATE + k` decibels loud; renderings beyond the
    /// last candidate are not looked at.
    pub fn find_ones(&mut self, renderings: &Vec<String>)
        ensures
            final(self)@ == old(self)@ + ones_among(
                candidate_percents(renderings@),
                FIRST_CANDIDATE as int,
            ),
    {
        let span: usize = (CANDIDATES_END - FIRST_CANDIDATE) as usize;
        let n: usize = if renderings.len() <= span {
            renderings.len()
        } else {
            span
        };
        let ghost percents = candidate_percents(renderings@);
        let mut k: usize = 0;
        assert(percents.subrange(0, n as int) == percents);
        while k < n
            invariant
                n == percents.len(),
                n <= renderings.len(),
                n <= CANDIDATES_END - FIRST_CANDIDATE,
                k <= n,
                percents == candidate_percents(renderings@),
                old(self)@ + ones_among(percents, FIRST_CANDIDATE as int) == self@ + ones_among(
                    percents.subrange(k as int, n as int),
                    FIRST_CANDIDATE + k,
                ),
            decreases n - k,
        {
            let pct: u8 = read_volume_as_pct(renderings[k].as_str());
            let ghost rest = percents.subrange(k as int, n as int);
            let ghost found = self@;
            proof {
                assert(rest[0] == pct);
                assert(rest.drop_first() == percents.subrange(k + 1, n as int));
            }
            if pct == 1 {
                let one: i32 = FIRST_CANDIDATE + k as i32;
                self.ones.push(one);
                assert(self@ + ones_among(rest.drop_first(), FIRST_CANDIDATE + k + 1) == found
                    + ones_among(rest, FIRST_CANDIDATE + k));
            } else if pct > 1 {
                assert(self@ + Seq::<i32>::empty() == self@);
                return ;
            }
            k += 1;
        }
        assert(self@ + Seq::<i32>::empty() == self@);
    }

    /// The loudness in the middle of those found.
    pub fn one_pct_midpoint(&self) -> (midpoint: i32)
        requires
            self@.len() > 0,
        ensures
            midpoint == self@[self@.len() as int / 2],
    {
        self.ones[self.ones.len() / 2]
    }

    /// The highest loudness of those found.
    pub fn one_pct_largest(&self) -> (largest: i32)
        requires
            self@.len() > 0,
        ensures
            largest == self@.last(),
    {
        self.ones[self.ones.len() - 1]
    }

    /// The report on a climb that went from `starting_pct` to `ending_pct`
    /// in `count` steps, line by line.
    pub fn test_one_pct_midpoint(starting_pct: u8, ending_pct: u8, count: u8) -> (report: Vec<String>)
        ensures
            line_texts(report@) == climb_report(starting_pct, ending_pct, count as nat),
    {
        let mut went: String = String::from_str("Went from ");
        push_decimal(&mut went, starting_pct as u32);
        went.append("% to ");
        push_decimal(&mut went, ending_pct as u32);
        went.append("%");
        let mut took: String = String::from_str("This process took ");
        push_decimal(&mut took, count as u32);
        took.append(" steps");
        let mut report: Vec<String> = Vec::new();
        report.push(String::new());
        report.push(went);
        report.push(took);
        assert(line_texts(report@) == climb_report(starting_pct, ending_pct, count as nat));
        report
    }

    /// The report on the climb of the candidate `one`, which went from
    /// `starting_pct` to `ending_pct` in `count` steps, and the grade that
    /// the step count earns.
    pub fn test_one_pct_better(one: i32, starting_pct: u8, ending_pct: u8, count: u16) -> (report: (
        String,
        StepGrade,
    ))
        ensures
            report.0@ == better_report(one, starting_pct, ending_pct, count),
            report.1 == grade_of(count),
    {
        let mut output: String = String::new();
        output.append("\nFor 'one': ");
        push_signed_decimal(&mut output, one);
        output.append("dB\n");
        output.append("Volume went from ");
        push_decimal(&mut output, starting_pct as u32);
        output.append("% to ");
        push_decimal(&mut output, ending_pct as u32);
        output.append("%\n");
        output.append("This process took ");
        push_decimal(&mut output, count as u32);
        output.append("steps.");
        let grade: StepGrade = if count < (JUDGED_UP_TO - 1) as u16 {
            StepGrade::Coarse
        } else if count == (JUDGED_UP_TO - 1) as u16 {
            StepGrade::Exact
        } else {
            StepGrade::Fine
        };
        (output, grade)
    }
}

} // verus!
