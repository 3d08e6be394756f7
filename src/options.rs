//! Printing options, built once per run from the command-line flags.

use crate::errors::{invalid_paper_format_message, HtopError};
use crate::paper::{dimensions_mm, paper_size_of, Paper, PaperSize};
use vstd::prelude::*;

verus! {

/// PDF printing options.
#[derive(Debug, Clone, Copy, PartialEq, Eq, Structural)]
pub struct PdfPrintingOptions {
    /// Paper mode, `true` = landscape, `false` = portrait.
    pub landscape: bool,
    /// Flag indicating if the background should be printed.
    pub print_background: bool,
    /// Paper width in millimetres, portrait.
    pub paper_width_mm: u32,
    /// Paper height in millimetres, portrait.
    pub paper_height_mm: u32,
    /// Flag indicating if the printing process should report its progress.
    pub verbose: bool,
    /// Flag indicating if the browser's crash reporter should be disabled.
    pub no_crash_reports: bool,
}

impl PdfPrintingOptions {
    /// Builds the options from the flags and the paper token; an unknown paper
    /// token is refused with an error that names it.
    pub fn from_flags(
        landscape: bool,
        print_background: bool,
        paper_format: &str,
        verbose: bool,
        no_crash_reports: bool,
    ) -> (r: Result<PdfPrintingOptions, HtopError>)
        ensures
            match paper_size_of(paper_format@) {
                Some(size) => r is Ok && {
                    let o = r->Ok_0;
                    &&& o.landscape == landscape
                    &&& o.print_background == print_background
                    &&& (o.paper_width_mm as nat, o.paper_height_mm as nat) == dimensions_mm(size)
                    &&& o.verbose == verbose
                    &&& o.no_crash_reports == no_crash_reports
                },
                None => r is Err && r->Err_0@ == invalid_paper_format_message(paper_format@),
            },
    {
        match PaperSize::from_token(paper_format) {
            Ok(size) => {
                let paper = Paper::new(size);
                Ok(PdfPrintingOptions {
                    landscape,
                    print_background,
                    paper_width_mm: paper.width(),
                    paper_height_mm: paper.height(),
                    verbose,
                    no_crash_reports,
                })
            },
            Err(e) => Err(e),
        }
    }
}

} // verus!
