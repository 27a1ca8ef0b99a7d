use vstd::prelude::*;
use crate::text::{decimal, decimal_text_u64, join2, join3};

verus! {

/// The state of a backtest run as the backtesting tab shows it.
#[derive(Clone, Debug)]
pub struct BacktestRun {
    /// A backtest is under way.
    pub is_running: bool,
    /// How far the run has come, in percent.
    pub progress_percent: u64,
    /// The summary of the finished run's result, if there is one.
    pub result_summary: Option<String>,
    /// The error of the last run, if any.
    pub error: Option<String>,
}

impl BacktestRun {
    /// Run Backtest: runs the demonstration backtest to completion, which
    /// leaves a finished result and full progress.
    pub fn run_demo(&mut self)
        ensures
            !final(self).is_running,
            final(self).progress_percent == 100,
            final(self).error is None,
            final(self).result_summary matches Some(s) && s@ == "Backtest completed (demo)"@,
    {
        self.is_running = true;
        self.progress_percent = 0;
        self.result_summary = None;
        self.error = None;
        self.result_summary = Some(String::from_str("Backtest completed (demo)"));
        self.is_running = false;
        self.progress_percent = 100;
    }

    /// Reset: drops the result and the error and stops the run.
    pub fn reset(&mut self)
        ensures
            !final(self).is_running,
            final(self).progress_percent == 0,
            final(self).error is None,
            final(self).result_summary is None,
    {
        self.result_summary = None;
        self.progress_percent = 0;
        self.is_running = false;
        self.error = None;
    }

    /// The progress line, shown while a backtest runs.
    pub fn progress_label(&self) -> (r: Option<String>)
        ensures
            (r is Some) == self.is_running,
            r matches Some(t) ==> t@ == "Backtest running... "@ + decimal(
                self.progress_percent as nat,
            ) + "%"@,
    {
        if self.is_running {
            let n = decimal_text_u64(self.progress_percent);
            Some(join3("Backtest running... ", n.as_str(), "%"))
        } else {
            None
        }
    }

    /// The result line, shown when a result exists.
    pub fn result_label(&self) -> (r: Option<String>)
        ensures
            (r is Some) == (self.result_summary is Some),
            r matches Some(t) ==> t@ == "Backtest Result: "@ + self.result_summary->0@,
    {
        match &self.result_summary {
            Some(s) => Some(join2("Backtest Result: ", s.as_str())),
            None => None,
        }
    }
}

} // verus!
