//! The decisions of an import run: when it is rolled back, what is reported,
//! and how its duration is shown.
use vstd::prelude::*;

use crate::emoji::Emoji;
use crate::text::{decimal, join, joined, padded_text, texts, u64_text, zero_padded};
use vstd::string::*;

verus! {

/// How many prices an import must bring for it to be kept.
pub const MIN_IMPORTED_PRICES: usize = 200;

/// How many standard operators may lack prices before an import is rolled back.
pub const MAX_STANDARD_OPERATORS_WITHOUT_PRICES: usize = 2;

/// The way an import run goes on after one of its checks.
#[derive(Debug, Clone, Copy, PartialEq, Eq, Structural)]
pub enum ImportStep {
    /// Go on with the import.
    Proceed,
    /// Roll back: the price import brought too few prices.
    TooFewPrices,
    /// Roll back: too many standard operators are left without prices.
    OperatorsWithoutPrices,
}

/// How the import goes on once `price_count` prices were imported.
pub fn check_price_count(price_count: usize) -> (r: ImportStep)
    ensures
        price_count < MIN_IMPORTED_PRICES ==> r == ImportStep::TooFewPrices,
        price_count >= MIN_IMPORTED_PRICES ==> r == ImportStep::Proceed,
{
    if price_count < MIN_IMPORTED_PRICES {
        ImportStep::TooFewPrices
    } else {
        ImportStep::Proceed
    }
}

/// How the import goes on once `disabled_count` standard operators were found
/// without prices.
pub fn check_operators_without_prices(disabled_count: usize) -> (r: ImportStep)
    ensures
        disabled_count > MAX_STANDARD_OPERATORS_WITHOUT_PRICES ==> r
            == ImportStep::OperatorsWithoutPrices,
        disabled_count <= MAX_STANDARD_OPERATORS_WITHOUT_PRICES ==> r == ImportStep::Proceed,
{
    if disabled_count > MAX_STANDARD_OPERATORS_WITHOUT_PRICES {
        ImportStep::OperatorsWithoutPrices
    } else {
        ImportStep::Proceed
    }
}

/// The message sent when an import is rolled back for too few prices.
pub open spec fn no_prices_text() -> Seq<char> {
    "Beim importieren haben wir keine Preise bekommen von der Eco-Movement Api. Wir werden ganz klar unten gehalten!"@
}

/// The message sent when an import is rolled back for too few prices.
pub fn no_prices_message() -> (r: String)
    ensures
        r@ == no_prices_text(),
{
    String::from_str(
        "Beim importieren haben wir keine Preise bekommen von der Eco-Movement Api. Wir werden ganz klar unten gehalten!",
    )
}

/// The head of the report on standard operators without prices.
pub open spec fn disabled_report_head() -> Seq<char> {
    "Zu diesen Standard CPOs haben wir keine Preise erhalten:\n\n"@
}

/// The number of standard operators without prices, and the report to send
/// about them: none when there are none, else their names one per line.
pub fn disabled_operators_report(names: &Vec<String>) -> (r: (usize, Option<String>))
    ensures
        r.0 == names@.len(),
        names@.len() == 0 ==> r.1 is None,
        names@.len() > 0 ==> (r.1 matches Some(m) && m@ == disabled_report_head() + joined(
            texts(names@),
            "\n"@,
        )),
{
    if names.len() == 0 {
        return (0, None);
    }
    let listed = join(names, "\n");
    let mut message = String::new();
    message.append("Zu diesen Standard CPOs haben wir keine Preise erhalten:\n\n");
    message.append(listed.as_str());
    (names.len(), Some(message))
}

/// The warning sent when an import is rolled back for operators without prices.
pub open spec fn aborted_import_warning() -> Seq<char> {
    "Der Preisimport wurde abgebrochen, weil mehr als "@ + decimal(
        MAX_STANDARD_OPERATORS_WITHOUT_PRICES as int,
    ) + " Standard-Operatoren keine Preise haben. Bestimmt irgendwas mit unte halten"@
}

/// The warning sent when an import is rolled back for operators without prices.
pub fn aborted_import_message() -> (r: String)
    ensures
        r@ == aborted_import_warning(),
{
    let mut r = String::new();
    r.append("Der Preisimport wurde abgebrochen, weil mehr als ");
    let count = u64_text(MAX_STANDARD_OPERATORS_WITHOUT_PRICES as u64);
    r.append(count.as_str());
    r.append(" Standard-Operatoren keine Preise haben. Bestimmt irgendwas mit unte halten");
    r
}

/// The message sent when an import failed with the error `error_text`.
pub open spec fn import_failure_text(error_text: Seq<char>) -> Seq<char> {
    "Beim Importieren der Daten aus der Eco-Movement-API ist ein Fehler aufgetreten. Deshalb wurde der Import abgebrochen und wird beim nächsten Mal erneut versucht."@
        + "\nFür Dominic -> ["@ + error_text + "]"@
}

/// The message sent when an import failed with the error `error_text`.
pub fn import_failure_message(error_text: &str) -> (r: String)
    ensures
        r@ == import_failure_text(error_text@),
{
    let mut r = String::new();
    r.append(
        "Beim Importieren der Daten aus der Eco-Movement-API ist ein Fehler aufgetreten. Deshalb wurde der Import abgebrochen und wird beim nächsten Mal erneut versucht.",
    );
    r.append("\nFür Dominic -> [");
    r.append(error_text);
    r.append("]");
    r
}

/// Whether stale dynamic prices are swept after an import: only when the feed
/// brought locations and prices, so that an empty feed keeps what is stored.
pub fn should_sweep_dynamic_prices(location_count: usize, price_count: usize) -> (r: bool)
    ensures
        r == (location_count > 0 && price_count > 0),
{
    location_count > 0 && price_count > 0
}

/// The warning sent when the dynamic-price feed came empty and the stored
/// dynamic prices are kept.
pub open spec fn empty_feed_text() -> Seq<char> {
    "Dynamic-Preisimport: leerer Feed von Eco-Movement, Sweep übersprungen und Bestand behalten."@
}

/// The warning sent when the dynamic-price feed came empty.
pub fn empty_feed_warning() -> (r: String)
    ensures
        r@ == empty_feed_text(),
{
    String::from_str(
        "Dynamic-Preisimport: leerer Feed von Eco-Movement, Sweep übersprungen und Bestand behalten.",
    )
}

/// The log line of a finished import that took `seconds` seconds: minutes and
/// seconds, each with at least two digits.
pub open spec fn duration_line(seconds: u64) -> Seq<char> {
    "Data import completed successfully: duration="@ + zero_padded(decimal((seconds / 60) as int), 2)
        + ":"@ + zero_padded(decimal((seconds % 60) as int), 2)
}

/// The log line of a finished import that took `seconds` seconds.
pub fn log_duration(seconds: u64) -> (r: String)
    ensures
        r@ == duration_line(seconds),
{
    let minutes = seconds / 60;
    let rest = seconds % 60;
    let mut r = String::new();
    r.append("Data import completed successfully: duration=");
    let m = padded_text(minutes, 2);
    r.append(m.as_str());
    r.append(":");
    let s = padded_text(rest, 2);
    r.append(s.as_str());
    r
}

/// A step of an import run, in the order the run takes them.
#[derive(Debug, Clone, Copy, PartialEq, Eq, Structural)]
pub enum ImportAction {
    /// Another import holds the lock: this run does nothing.
    Skip,
    /// Fetch the locations into the staging tables.
    ImportLocations,
    /// Fetch the prices into the staging tables.
    ImportPrices,
    /// Fetch the links between connectors and prices.
    ImportConnectorPrices,
    /// In one transaction from here on: take over the operators,
    ImportOperators,
    /// then the tariffs,
    ImportTariffs,
    /// then the prices, which are counted.
    ImportPriceData,
    /// Report the standard operators without prices, which are counted.
    ReportDisabledOperators,
    /// Take over the dynamic prices.
    ImportDynamicPrices,
    /// Commit the transaction.
    Commit,
    /// Roll the transaction back, for the given reason.
    RollBack(ImportStep),
    /// The run is over.
    Done,
}

/// The first step of a run, given whether it got the import lock.
pub fn start_import(lock_taken: bool) -> (r: ImportAction)
    ensures
        r == (if lock_taken {
            ImportAction::ImportLocations
        } else {
            ImportAction::Skip
        }),
{
    if lock_taken {
        ImportAction::ImportLocations
    } else {
        ImportAction::Skip
    }
}

/// The step after `done`, where `counted` is what a counting step counted
/// (prices after `ImportPriceData`, operators after
/// `ReportDisabledOperators`; ignored after other steps).
pub open spec fn import_successor(done: ImportAction, counted: usize) -> ImportAction {
    match done {
        ImportAction::ImportLocations => ImportAction::ImportPrices,
        ImportAction::ImportPrices => ImportAction::ImportConnectorPrices,
        ImportAction::ImportConnectorPrices => ImportAction::ImportOperators,
        ImportAction::ImportOperators => ImportAction::ImportTariffs,
        ImportAction::ImportTariffs => ImportAction::ImportPriceData,
        ImportAction::ImportPriceData => if counted < MIN_IMPORTED_PRICES {
            ImportAction::RollBack(ImportStep::TooFewPrices)
        } else {
            ImportAction::ReportDisabledOperators
        },
        ImportAction::ReportDisabledOperators => if counted > MAX_STANDARD_OPERATORS_WITHOUT_PRICES {
            ImportAction::RollBack(ImportStep::OperatorsWithoutPrices)
        } else {
            ImportAction::ImportDynamicPrices
        },
        ImportAction::ImportDynamicPrices => ImportAction::Commit,
        _ => ImportAction::Done,
    }
}

/// The step that follows `done` in an import run.
pub fn next_import_action(done: ImportAction, counted: usize) -> (r: ImportAction)
    ensures
        r == import_successor(done, counted),
{
    match done {
        ImportAction::ImportLocations => ImportAction::ImportPrices,
        ImportAction::ImportPrices => ImportAction::ImportConnectorPrices,
        ImportAction::ImportConnectorPrices => ImportAction::ImportOperators,
        ImportAction::ImportOperators => ImportAction::ImportTariffs,
        ImportAction::ImportTariffs => ImportAction::ImportPriceData,
        ImportAction::ImportPriceData => match check_price_count(counted) {
            ImportStep::Proceed => ImportAction::ReportDisabledOperators,
            step => ImportAction::RollBack(step),
        },
        ImportAction::ReportDisabledOperators => match check_operators_without_prices(counted) {
            ImportStep::Proceed => ImportAction::ImportDynamicPrices,
            step => ImportAction::RollBack(step),
        },
        ImportAction::ImportDynamicPrices => ImportAction::Commit,
        _ => ImportAction::Done,
    }
}

/// How many steps a run has left at most after `a`.
pub open spec fn steps_left(a: ImportAction) -> nat {
    match a {
        ImportAction::Skip => 1,
        ImportAction::ImportLocations => 10,
        ImportAction::ImportPrices => 9,
        ImportAction::ImportConnectorPrices => 8,
        ImportAction::ImportOperators => 7,
        ImportAction::ImportTariffs => 6,
        ImportAction::ImportPriceData => 5,
        ImportAction::ReportDisabledOperators => 4,
        ImportAction::ImportDynamicPrices => 3,
        ImportAction::Commit => 1,
        ImportAction::RollBack(_) => 1,
        ImportAction::Done => 0,
    }
}

/// Every import run ends: each step brings the run closer to `Done`, and a
/// run commits only after enough prices came in and few enough standard
/// operators were left without prices.
pub proof fn import_runs_end(done: ImportAction, counted: usize)
    ensures
        done != ImportAction::Done ==> steps_left(import_successor(done, counted)) < steps_left(done),
        import_successor(done, counted) == ImportAction::ReportDisabledOperators ==> counted
            >= MIN_IMPORTED_PRICES,
        import_successor(done, counted) == ImportAction::ImportDynamicPrices ==> counted
            <= MAX_STANDARD_OPERATORS_WITHOUT_PRICES,
        import_successor(done, counted) == ImportAction::Commit ==> done
            == ImportAction::ImportDynamicPrices,
{
}

/// The notice sent when an import is rolled back: for too few prices the
/// "down" emoji and `no_prices_text`, for standard operators without prices
/// a warning with `aborted_import_warning`; none for `Proceed`.
pub open spec fn rollback_notice_for(step: ImportStep) -> Option<(Emoji, Seq<char>)> {
    match step {
        ImportStep::TooFewPrices => Some((Emoji::Down, no_prices_text())),
        ImportStep::OperatorsWithoutPrices => Some((Emoji::Warning, aborted_import_warning())),
        ImportStep::Proceed => None,
    }
}

/// The notice sent when an import is rolled back for `step`.
pub fn rollback_notice(step: ImportStep) -> (r: Option<(Emoji, String)>)
    ensures
        match rollback_notice_for(step) {
            Some((e, t)) => r matches Some((e2, m)) && e2 == e && m@ == t,
            None => r is None,
        },
{
    match step {
        ImportStep::TooFewPrices => Some((Emoji::Down, no_prices_message())),
        ImportStep::OperatorsWithoutPrices => Some((Emoji::Warning, aborted_import_message())),
        ImportStep::Proceed => None,
    }
}

} // verus!
