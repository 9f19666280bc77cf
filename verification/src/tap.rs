//! The reporter: a plan of so many checks, and for each check one line that
//! says `ok` or `not ok`, its number and what it was, with a block of
//! diagnostics under a failed one.
//!
//! The reporter writes nothing itself: each call returns the lines to print.

use vstd::prelude::*;
use crate::text::{decimal, decimal_of, lemma_unstyled_of_joined, unstyled_of, Style, Text};

verus! {

/// The view of a line.
pub type Line = Seq<(Style, Seq<char>)>;

/// An error that can say what it is, in lines for the diagnostic block of a
/// failed check.
pub trait Diagnostic: Sized {
    /// The lines of the diagnostic block.
    spec fn block(self) -> Seq<Line>;

    /// Writes the lines of the diagnostic block.
    fn diagnostic(self) -> (lines: Vec<Text>)
        ensures
            lines.deep_view() == self.block(),
    ;
}

/// One entry of a diagnostic block: two spaces, the key in green, a colon and
/// a space, and the value.
pub open spec fn field_line_of(key: Seq<char>, value: Seq<char>) -> Line {
    seq![(Style::Plain, "  "@), (Style::Green, key), (Style::Plain, ": "@), (Style::Plain, value)]
}

/// Writes one entry of a diagnostic block.
pub fn field_line(key: &str, value: &str) -> (line: Text)
    ensures
        line@ == field_line_of(key@, value@),
{
    let mut line = Text::of("  ");
    line.push(Style::Green, key);
    line.push(Style::Plain, ": ");
    line.push(Style::Plain, value);
    assert(line@ =~= field_line_of(key@, value@));
    line
}

/// The plan line: `1..` and the number of checks, in bold.
pub open spec fn plan_line_of(plan: nat) -> Line {
    seq![(Style::Bold, "1.."@ + decimal_of(plan))]
}

/// The line of a check: the word for how it went, in its style, a space, the
/// number of the check in cyan, a dash between two spaces, and the
/// description.
pub open spec fn check_line_of(
    style: Style,
    word: Seq<char>,
    number: nat,
    description: Line,
) -> Line {
    seq![
        (style, word),
        (Style::Plain, " "@),
        (Style::Cyan, decimal_of(number)),
        (Style::Plain, " - "@),
    ] + description
}

/// The line of a check that passed: `ok` in bold, the number of the check in
/// cyan, a dash and the description.
pub open spec fn ok_line_of(number: nat, description: Line) -> Line {
    check_line_of(Style::Bold, "ok"@, number, description)
}

/// The line of a check that failed: `not ok` in red, the number of the check
/// in cyan, a dash and the description.
pub open spec fn not_ok_line_of(number: nat, description: Line) -> Line {
    check_line_of(Style::Red, "not ok"@, number, description)
}

/// The description of a check that was skipped: the description, a space and
/// the skip directive, dimmed.
pub open spec fn skip_description_of(description: Line) -> Line {
    description + seq![(Style::Plain, " "@), (Style::Dimmed, "# SKIP"@)]
}

/// The lines of a check that failed: its line, and the diagnostic block
/// between its opening and its closing mark.
pub open spec fn not_ok_lines_of(number: nat, description: Line, block: Seq<Line>) -> Seq<Line> {
    seq![not_ok_line_of(number, description), seq![(Style::Plain, "  ---"@)]] + block
        + seq![seq![(Style::Plain, "  ..."@)]]
}

/// A reporter: how many checks are planned, how many were reported, and
/// whether one of them failed.
#[derive(Debug, PartialEq, Eq)]
pub struct Tap {
    counter: usize,
    plan: usize,
    failed: bool,
}

impl Tap {
    /// The checks reported so far.
    pub closed spec fn spec_counter(&self) -> usize {
        self.counter
    }

    /// The checks planned.
    pub closed spec fn spec_plan(&self) -> usize {
        self.plan
    }

    /// Whether a check was reported as failed.
    pub closed spec fn spec_failed(&self) -> bool {
        self.failed
    }

    /// Whether the run went well: every planned check was reported, and none
    /// as failed.
    pub open spec fn spec_passed(&self) -> bool {
        self.spec_counter() == self.spec_plan() && !self.spec_failed()
    }

    /// Whether the reporter takes another check: it has reported fewer than
    /// it planned.
    pub open spec fn has_room(&self) -> bool {
        self.spec_counter() < self.spec_plan()
    }

    /// The checks reported so far.
    #[verifier::when_used_as_spec(spec_counter)]
    pub fn counter(&self) -> (counter: usize)
        ensures
            counter == self.spec_counter(),
    {
        self.counter
    }

    /// The checks planned.
    #[verifier::when_used_as_spec(spec_plan)]
    pub fn plan(&self) -> (plan: usize)
        ensures
            plan == self.spec_plan(),
    {
        self.plan
    }

    /// Whether a check was reported as failed.
    #[verifier::when_used_as_spec(spec_failed)]
    pub fn failed(&self) -> (failed: bool)
        ensures
            failed == self.spec_failed(),
    {
        self.failed
    }

    /// Whether the run went well: every planned check was reported, and none
    /// as failed.
    #[verifier::when_used_as_spec(spec_passed)]
    pub fn passed(&self) -> (passed: bool)
        ensures
            passed == self.spec_passed(),
    {
        self.counter == self.plan && !self.failed
    }

    /// A reporter for `plan` checks that has reported none, and its plan
    /// line.
    pub fn new(plan: usize) -> (start: (Tap, Text))
        ensures
            start.0.spec_counter() == 0,
            start.0.spec_plan() == plan,
            !start.0.spec_failed(),
            start.1@ == plan_line_of(plan as nat),
    {
        let mut range = String::from_str("1..");
        let digits = decimal(plan as u64);
        range.append(digits.as_str());
        let mut line = Text::new();
        line.push(Style::Bold, range.as_str());
        assert(line@ =~= plan_line_of(plan as nat));
        (Tap { counter: 0, plan, failed: false }, line)
    }

    /// Reports a check that passed.
    ///
    /// While fewer checks were reported than planned, the check takes the next
    /// number and gets its line. After that nothing is counted or returned.
    fn ok(&mut self, description: Text) -> (lines: Vec<Text>)
        ensures
            final(self).spec_plan() == old(self).spec_plan(),
            final(self).spec_failed() == old(self).spec_failed(),
            old(self).has_room() ==> final(self).spec_counter() == old(self).spec_counter() + 1
                && lines.deep_view() == seq![
                ok_line_of((old(self).spec_counter() + 1) as nat, description@),
            ],
            !old(self).has_room() ==> final(self).spec_counter() == old(self).spec_counter()
                && lines.deep_view() == Seq::<Line>::empty(),
    {
        let mut lines: Vec<Text> = Vec::new();
        if self.counter < self.plan {
            self.counter = self.counter + 1;
            let digits = decimal(self.counter as u64);
            let mut line = Text::new();
            line.push(Style::Bold, "ok");
            line.push(Style::Plain, " ");
            line.push(Style::Cyan, digits.as_str());
            line.push(Style::Plain, " - ");
            line.append(description);
            assert(line@ =~= ok_line_of((old(self).spec_counter() + 1) as nat, description@));
            lines.push(line);
            assert(lines.deep_view() =~= seq![
                ok_line_of((old(self).spec_counter() + 1) as nat, description@),
            ]);
        } else {
            assert(lines.deep_view() =~= Seq::<Line>::empty());
        }
        lines
    }

    /// Reports a check that was not made, as passed with the skip directive
    /// behind its description.
    ///
    /// While fewer checks were reported than planned, the check takes the next
    /// number and gets its line. After that nothing is counted or returned.
    pub fn skip(&mut self, description: Text) -> (lines: Vec<Text>)
        ensures
            final(self).spec_plan() == old(self).spec_plan(),
            final(self).spec_failed() == old(self).spec_failed(),
            old(self).has_room() ==> final(self).spec_counter() == old(self).spec_counter() + 1
                && lines.deep_view() == seq![
                ok_line_of((old(self).spec_counter() + 1) as nat, skip_description_of(description@)),
            ],
            !old(self).has_room() ==> final(self).spec_counter() == old(self).spec_counter()
                && lines.deep_view() == Seq::<Line>::empty(),
    {
        let mut description = description;
        let ghost given = description@;
        description.push(Style::Plain, " ");
        description.push(Style::Dimmed, "# SKIP");
        assert(description@ =~= skip_description_of(given));
        self.ok(description)
    }

    /// Reports a check that failed, with the diagnostic block of its error.
    ///
    /// While fewer checks were reported than planned, the check takes the next
    /// number and gets its lines, and the run is marked as failed. After that
    /// nothing is counted or returned.
    fn not_ok<T: Diagnostic>(&mut self, description: Text, error: T) -> (lines: Vec<Text>)
        ensures
            final(self).spec_plan() == old(self).spec_plan(),
            final(self).spec_failed() == (old(self).spec_failed() || old(self).has_room()),
            old(self).has_room() ==> final(self).spec_counter() == old(self).spec_counter() + 1
                && lines.deep_view() == not_ok_lines_of(
                (old(self).spec_counter() + 1) as nat,
                description@,
                error.block(),
            ),
            !old(self).has_room() ==> final(self).spec_counter() == old(self).spec_counter()
                && lines.deep_view() == Seq::<Line>::empty(),
    {
        let mut lines: Vec<Text> = Vec::new();
        if self.counter < self.plan {
            self.counter = self.counter + 1;
            self.failed = true;
            let digits = decimal(self.counter as u64);
            let mut line = Text::new();
            line.push(Style::Red, "not ok");
            line.push(Style::Plain, " ");
            line.push(Style::Cyan, digits.as_str());
            line.push(Style::Plain, " - ");
            line.append(description);
            assert(line@ =~= not_ok_line_of((old(self).spec_counter() + 1) as nat, description@));
            lines.push(line);
            lines.push(Text::of("  ---"));
            let mut block = error.diagnostic();
            lines.append(&mut block);
            lines.push(Text::of("  ..."));
            assert(lines.deep_view() =~= not_ok_lines_of(
                (old(self).spec_counter() + 1) as nat,
                description@,
                error.block(),
            ));
        } else {
            assert(lines.deep_view() =~= Seq::<Line>::empty());
        }
        lines
    }

    /// Reports a check by its result: as failed, with the diagnostic block of
    /// the error, or as passed.
    ///
    /// While fewer checks were reported than planned, the check takes the next
    /// number and gets its lines. After that nothing is counted or returned.
    pub fn result<T, E: Diagnostic>(&mut self, description: Text, result: Result<T, E>) -> (lines:
        Vec<Text>)
        ensures
            final(self).spec_plan() == old(self).spec_plan(),
            final(self).spec_failed() == (old(self).spec_failed() || (result is Err && old(
                self,
            ).has_room())),
            old(self).has_room() ==> final(self).spec_counter() == old(self).spec_counter() + 1
                && lines.deep_view() == (match result {
                Ok(_) => seq![ok_line_of((old(self).spec_counter() + 1) as nat, description@)],
                Err(error) => not_ok_lines_of(
                    (old(self).spec_counter() + 1) as nat,
                    description@,
                    error.block(),
                ),
            }),
            !old(self).has_room() ==> final(self).spec_counter() == old(self).spec_counter()
                && lines.deep_view() == Seq::<Line>::empty(),
    {
        match result {
            Err(error) => self.not_ok(description, error),
            Ok(_) => self.ok(description),
        }
    }
}

/// The line of a check in plain text: the word, a space, the number of the
/// check, a dash between two spaces, and the description.
pub proof fn lemma_check_line_in_plain_text(
    style: Style,
    word: Seq<char>,
    number: nat,
    description: Line,
)
    ensures
        unstyled_of(check_line_of(style, word, number, description)) == word + " "@ + decimal_of(
            number,
        ) + " - "@ + unstyled_of(description),
{
    reveal_with_fuel(unstyled_of, 5);
    let head: Line = seq![
        (style, word),
        (Style::Plain, " "@),
        (Style::Cyan, decimal_of(number)),
        (Style::Plain, " - "@),
    ];
    lemma_unstyled_of_joined(head, description);
    assert(head.drop_last() =~= seq![
        (style, word),
        (Style::Plain, " "@),
        (Style::Cyan, decimal_of(number)),
    ]);
    assert(head.drop_last().drop_last() =~= seq![(style, word), (Style::Plain, " "@)]);
    assert(head.drop_last().drop_last().drop_last() =~= seq![(style, word)]);
    assert(head.drop_last().drop_last().drop_last().drop_last() =~= Seq::empty());
    assert(unstyled_of(head) =~= word + " "@ + decimal_of(number) + " - "@);
}

/// The report in plain text, as the protocol has it: the plan line is `1..`
/// and the number of checks; the line of a check is `ok` or `not ok`, a space,
/// the number of the check, a dash between two spaces, and the description;
/// the skip directive follows the description after a space.
pub proof fn lemma_report_in_plain_text(number: nat, description: Line)
    ensures
        unstyled_of(plan_line_of(number)) == "1.."@ + decimal_of(number),
        unstyled_of(ok_line_of(number, description)) == "ok"@ + " "@ + decimal_of(number) + " - "@
            + unstyled_of(description),
        unstyled_of(not_ok_line_of(number, description)) == "not ok"@ + " "@ + decimal_of(number)
            + " - "@ + unstyled_of(description),
        unstyled_of(skip_description_of(description)) == unstyled_of(description) + " "@
            + "# SKIP"@,
{
    reveal_with_fuel(unstyled_of, 3);
    let plan = plan_line_of(number);
    assert(plan.drop_last() =~= Seq::empty());
    assert(unstyled_of(plan) =~= "1.."@ + decimal_of(number));

    lemma_check_line_in_plain_text(Style::Bold, "ok"@, number, description);
    lemma_check_line_in_plain_text(Style::Red, "not ok"@, number, description);

    let directive: Line = seq![(Style::Plain, " "@), (Style::Dimmed, "# SKIP"@)];
    lemma_unstyled_of_joined(description, directive);
    assert(directive.drop_last() =~= seq![(Style::Plain, " "@)]);
    assert(directive.drop_last().drop_last() =~= Seq::empty());
    assert(unstyled_of(directive) =~= " "@ + "# SKIP"@);
    assert(unstyled_of(description) + (" "@ + "# SKIP"@) =~= unstyled_of(description) + " "@
        + "# SKIP"@);
}

} // verus!
