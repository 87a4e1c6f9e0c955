//! What the test command answers for one URL.

use crate::normalizer::{remove_si_parameter, remove_si_parameter_spec};
use vstd::prelude::*;

verus! {

/// The answer of the test command.
#[derive(Clone, PartialEq, Eq, Debug)]
pub enum TestReport {
    /// No URL was given.
    MissingUrl,
    /// The URL holds nothing to remove.
    NothingToRemove,
    /// The URL was cleaned to this.
    Removed(String),
}

/// A report, with its text as a sequence of characters.
pub enum TestReportView {
    MissingUrl,
    NothingToRemove,
    Removed(Seq<char>),
}

impl View for TestReport {
    type V = TestReportView;

    open spec fn view(&self) -> TestReportView {
        match self {
            TestReport::MissingUrl => TestReportView::MissingUrl,
            TestReport::NothingToRemove => TestReportView::NothingToRemove,
            TestReport::Removed(cleaned) => TestReportView::Removed(cleaned@),
        }
    }
}

/// The answer for `url`: a prompt where it is empty, else whether cleaning
/// changed it, and to what.
pub open spec fn test_report_spec(url: Seq<char>) -> TestReportView {
    if url.len() == 0 {
        TestReportView::MissingUrl
    } else if remove_si_parameter_spec(url) == url {
        TestReportView::NothingToRemove
    } else {
        TestReportView::Removed(remove_si_parameter_spec(url))
    }
}

/// Cleans the URL given to the test command and says what came of it.
pub fn test_report(url: &str) -> (report: TestReport)
    ensures
        report@ == test_report_spec(url@),
{
    if url.is_empty() {
        return TestReport::MissingUrl;
    }
    let cleaned = remove_si_parameter(url);
    let original = String::from_str(url);
    if original == cleaned {
        TestReport::NothingToRemove
    } else {
        TestReport::Removed(cleaned)
    }
}

} // verus!
