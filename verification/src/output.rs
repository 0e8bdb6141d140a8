use vstd::prelude::*;

use crate::csv_text::spec_csv_text;
use crate::json_text::spec_json_report;
use crate::report::CensusReport;
use crate::report::OutputFormat;

verus! {

impl CensusReport {
    /// The text of this report in the asked-for format: one structured JSON
    /// object, one newline-terminated line of the same JSON, or the two-row
    /// CSV table.
    pub fn render(&self, format: OutputFormat) -> (r: String)
        requires
            self.wf(),
        ensures
            match format {
                OutputFormat::Json => r@ == spec_json_report(self@),
                OutputFormat::Jsonl => r@ == spec_json_report(self@) + "\n"@,
                OutputFormat::Csv => r@ == spec_csv_text(*self),
            },
    {
        match format {
            OutputFormat::Json => self.to_json(),
            OutputFormat::Jsonl => self.to_json_line(),
            OutputFormat::Csv => self.format_csv(),
        }
    }
}

} // verus!
