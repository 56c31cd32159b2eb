//! The daily summary of user feedback: when its window starts and what the
//! message says.
use vstd::prelude::*;

use crate::text::{decimal, i64_text, join, joined, texts};
use vstd::string::*;

verus! {

/// The kinds of feedback users send.
#[derive(Debug, Clone, Copy, PartialEq, Eq, Structural)]
pub enum FeedbackKind {
    WrongPrice,
    Other,
}

/// The German label of a feedback kind.
pub open spec fn kind_label(kind: FeedbackKind) -> Seq<char> {
    match kind {
        FeedbackKind::WrongPrice => "Falscher Preis"@,
        FeedbackKind::Other => "Sonstiges"@,
    }
}

/// The German label of a feedback kind.
pub fn kind_to_str(kind: FeedbackKind) -> (r: &'static str)
    ensures
        r@ == kind_label(kind),
{
    match kind {
        FeedbackKind::WrongPrice => "Falscher Preis",
        FeedbackKind::Other => "Sonstiges",
    }
}

/// How often one kind of feedback came in.
#[derive(Debug, Clone, Copy, PartialEq, Eq, Structural)]
pub struct KindCountRow {
    pub kind: FeedbackKind,
    pub cnt: i64,
}

/// How often a wrong price was reported for one operator or tariff.
#[derive(Debug, Clone)]
pub struct PriceOffenderRow {
    pub slug_name: String,
    pub cnt: i64,
}

/// The seconds of a day.
pub const SECONDS_PER_DAY: i64 = 86400;

/// The hour of the day, in UTC, at which the summary is sent.
pub const SUMMARY_HOUR: i64 = 18;

/// The start of the summary window for a run at `now` (seconds since the
/// epoch, UTC): 18:00:00 UTC of the day before the day of `now`.
pub open spec fn last_run_at(now: int) -> int {
    now - now % (SECONDS_PER_DAY as int) + SUMMARY_HOUR * 3600 - SECONDS_PER_DAY
}

/// The start of the summary window for a run at `now`, in seconds since the
/// epoch: the day of `now` set to 18:00:00 UTC, one day earlier.
pub fn last_run(now: i64) -> (r: i64)
    requires
        now >= i64::MIN + 2 * SECONDS_PER_DAY,
    ensures
        r == last_run_at(now as int),
        (r as int) % (SECONDS_PER_DAY as int) == SUMMARY_HOUR * 3600,
        now - 2 * SECONDS_PER_DAY < r + SECONDS_PER_DAY - SUMMARY_HOUR * 3600 <= now,
{
    let into_day: i64 = match now.checked_rem_euclid(SECONDS_PER_DAY) {
        Some(v) => v,
        None => 0,
    };
    assert(into_day == (now as int) % (SECONDS_PER_DAY as int));
    now - into_day - (SECONDS_PER_DAY - SUMMARY_HOUR * 3600)
}

/// One line of a top list: `- name: count`.
pub open spec fn count_line(name: Seq<char>, cnt: i64) -> Seq<char> {
    "- "@ + name + ": "@ + decimal(cnt as int)
}

/// One line of a top list.
pub fn count_line_text(name: &str, cnt: i64) -> (r: String)
    ensures
        r@ == count_line(name@, cnt),
{
    let mut r = String::from_str("- ");
    r.append(name);
    r.append(": ");
    let n = i64_text(cnt);
    r.append(n.as_str());
    r
}

/// The lines of the kinds of feedback, one per row.
pub open spec fn kind_lines(rows: Seq<KindCountRow>) -> Seq<Seq<char>> {
    rows.map_values(|row: KindCountRow| count_line(kind_label(row.kind), row.cnt))
}

/// The lines of the operators or tariffs with wrong prices, one per row.
pub open spec fn offender_lines(rows: Seq<PriceOffenderRow>) -> Seq<Seq<char>> {
    rows.map_values(|row: PriceOffenderRow| count_line(row.slug_name@, row.cnt))
}

/// The list of feedback kinds and their counts, one line each.
pub fn kinds_text(rows: &Vec<KindCountRow>) -> (r: String)
    ensures
        r@ == joined(kind_lines(rows@), "\n"@),
{
    let mut lines: Vec<String> = Vec::new();
    let n = rows.len();
    let mut i: usize = 0;
    while i < n
        invariant
            n == rows@.len(),
            i <= n,
            lines@.len() == i,
            texts(lines@) == kind_lines(rows@.take(i as int)),
        decreases n - i,
    {
        let row = rows[i];
        let line = count_line_text(kind_to_str(row.kind), row.cnt);
        let ghost before = lines@;
        lines.push(line);
        assert forall|k: int| 0 <= k < i + 1 implies #[trigger] texts(lines@)[k] == kind_lines(
            rows@.take(i + 1),
        )[k] by {
            if k < i {
                assert(lines@[k] == before[k]);
                assert(texts(before)[k] == kind_lines(rows@.take(i as int))[k]);
            } else {
                assert(lines@[k] == line);
            }
        }
        assert(texts(lines@) =~= kind_lines(rows@.take(i + 1)));
        i += 1;
    }
    assert(rows@.take(n as int) == rows@);
    join(&lines, "\n")
}

/// The list of operators or tariffs with wrong prices and their counts, one
/// line each.
pub fn offenders_text(rows: &Vec<PriceOffenderRow>) -> (r: String)
    ensures
        r@ == joined(offender_lines(rows@), "\n"@),
{
    let mut lines: Vec<String> = Vec::new();
    let n = rows.len();
    let mut i: usize = 0;
    while i < n
        invariant
            n == rows@.len(),
            i <= n,
            lines@.len() == i,
            texts(lines@) == offender_lines(rows@.take(i as int)),
        decreases n - i,
    {
        let row = &rows[i];
        let line = count_line_text(row.slug_name.as_str(), row.cnt);
        let ghost before = lines@;
        lines.push(line);
        assert forall|k: int| 0 <= k < i + 1 implies #[trigger] texts(lines@)[k] == offender_lines(
            rows@.take(i + 1),
        )[k] by {
            if k < i {
                assert(lines@[k] == before[k]);
                assert(texts(before)[k] == offender_lines(rows@.take(i as int))[k]);
            } else {
                assert(lines@[k] == line);
            }
        }
        assert(texts(lines@) =~= offender_lines(rows@.take(i + 1)));
        i += 1;
    }
    assert(rows@.take(n as int) == rows@);
    join(&lines, "\n")
}

/// The summary message: the local time of the window's start, the number of
/// feedbacks, and the three top lists.
pub open spec fn summary_text(
    local_time: Seq<char>,
    count: i64,
    operators: Seq<Seq<char>>,
    tariffs: Seq<Seq<char>>,
    kinds: Seq<Seq<char>>,
) -> Seq<char> {
    "\n# Feedback-Zusammenfassung seit dem letzten Lauf ("@ + local_time + ")\n\nAnzahl eingegangener Feedbacks: "@
        + decimal(count as int) + "\n\n## :moneybag: Top 5 Betreiber mit falschen Preisen:\n\n"@
        + joined(operators, "\n"@) + "\n\n## :fire: Top 5 Tarife mit falschen Preisen:\n\n"@
        + joined(tariffs, "\n"@) + "\n\n## :low_battery: Top 5 Feedback-Arten:\n\n"@ + joined(
        kinds,
        "\n"@,
    ) + "\n"@
}

/// The summary message sent for the feedback since `local_time`, the start of
/// the window written in local time.
pub fn summary_message(
    local_time: &str,
    count: i64,
    operators: &Vec<PriceOffenderRow>,
    tariffs: &Vec<PriceOffenderRow>,
    kinds: &Vec<KindCountRow>,
) -> (r: String)
    ensures
        r@ == summary_text(
            local_time@,
            count,
            offender_lines(operators@),
            offender_lines(tariffs@),
            kind_lines(kinds@),
        ),
{
    let mut r = String::from_str("\n# Feedback-Zusammenfassung seit dem letzten Lauf (");
    r.append(local_time);
    r.append(")\n\nAnzahl eingegangener Feedbacks: ");
    let c = i64_text(count);
    r.append(c.as_str());
    r.append("\n\n## :moneybag: Top 5 Betreiber mit falschen Preisen:\n\n");
    let o = offenders_text(operators);
    r.append(o.as_str());
    r.append("\n\n## :fire: Top 5 Tarife mit falschen Preisen:\n\n");
    let t = offenders_text(tariffs);
    r.append(t.as_str());
    r.append("\n\n## :low_battery: Top 5 Feedback-Arten:\n\n");
    let k = kinds_text(kinds);
    r.append(k.as_str());
    r.append("\n");
    r
}

/// Whether a summary is sent: only when feedback came in since the last run.
pub fn should_send_summary(count: i64) -> (r: bool)
    ensures
        r == (count != 0),
{
    count != 0
}

} // verus!
