//! The conversion session: one browser, one tab, and the jobs run through it in
//! order, stopping at the first failure.
//!
//! The session decides; its driver acts. Each step hands the driver an
//! [`Action`]; the driver performs it and hands back its outcome: the rendered
//! bytes for [`Action::Render`], nothing for the other steps, or the reason the
//! step failed.

use crate::errors::{
    err_headless_chrome, err_headless_chrome_file, err_write_file, headless_chrome_file_message,
    headless_chrome_message, write_file_message, HtopError,
};
use crate::jobs::Files;
use crate::options::PdfPrintingOptions;
use vstd::prelude::*;
use vstd::string::StringExecFns;

verus! {

/// Name used in progress lines.
pub const HTOP_NAME: &'static str = "htop";

/// Where a session stands; a job is named by its index.
#[derive(Debug, Clone, Copy, PartialEq, Eq, Structural)]
pub enum Phase {
    /// The browser is being launched.
    Launching,
    /// The tab is being opened.
    OpeningTab,
    /// The start of a job is being reported.
    Announcing(usize),
    /// The tab is navigating to a job's input.
    Navigating(usize),
    /// The tab is waiting for a job's input to load.
    Loading(usize),
    /// A job's input is being rendered.
    Rendering(usize),
    /// A job's output is being written.
    Writing(usize),
    /// The end of a job is being reported.
    Completing(usize),
    /// The session is over.
    Finished,
}

/// What the driver is asked to do next.
#[derive(Debug, PartialEq, Eq)]
pub enum Action {
    /// Launch the browser with these command-line arguments.
    Launch(Vec<String>),
    /// Open the tab that every job uses.
    OpenTab,
    /// Print a progress line.
    Announce(String),
    /// Navigate the tab to this URL.
    Navigate(String),
    /// Wait until the navigation has completed.
    AwaitLoad,
    /// Render the loaded page to PDF with these options.
    Render(PdfPrintingOptions),
    /// Write these bytes to this file, replacing what it held.
    Write(String, Vec<u8>),
    /// Every job is done.
    Done,
    /// The session stopped on this error.
    Abort(HtopError),
}

/// An action with its strings and bytes as sequences.
pub enum ActionView {
    Launch(Seq<Seq<char>>),
    OpenTab,
    Announce(Seq<char>),
    Navigate(Seq<char>),
    AwaitLoad,
    Render(PdfPrintingOptions),
    Write(Seq<char>, Seq<u8>),
    Done,
    Abort(Seq<char>),
}

impl View for Action {
    type V = ActionView;

    open spec fn view(&self) -> ActionView {
        match self {
            Action::Launch(args) => ActionView::Launch(args.deep_view()),
            Action::OpenTab => ActionView::OpenTab,
            Action::Announce(line) => ActionView::Announce(line@),
            Action::Navigate(url) => ActionView::Navigate(url@),
            Action::AwaitLoad => ActionView::AwaitLoad,
            Action::Render(options) => ActionView::Render(*options),
            Action::Write(path, bytes) => ActionView::Write(path@, bytes@),
            Action::Done => ActionView::Done,
            Action::Abort(e) => ActionView::Abort(e@),
        }
    }
}

/// The outcome of a step as sequences.
pub open spec fn outcome_view(outcome: Result<Vec<u8>, String>) -> Result<Seq<u8>, Seq<char>> {
    match outcome {
        Ok(bytes) => Ok(bytes@),
        Err(reason) => Err(reason@),
    }
}

/// The progress line printed before a job.
pub open spec fn start_message(url: Seq<char>) -> Seq<char> {
    "["@ + HTOP_NAME@ + "] Printing file "@ + url
}

/// The progress line printed after a job, followed by an empty line.
pub open spec fn done_message(output: Seq<char>) -> Seq<char> {
    "["@ + HTOP_NAME@ + "] Printing completed: "@ + output + "\n"@
}

/// The browser's command-line arguments.
pub open spec fn launch_args(options: PdfPrintingOptions) -> Seq<Seq<char>> {
    if options.no_crash_reports {
        seq!["--disable-crash-reporter"@]
    } else {
        seq![]
    }
}

/// A job phase names an existing job.
pub open spec fn phase_in_range(phase: Phase, n: nat) -> bool {
    match phase {
        Phase::Announcing(i) => i < n,
        Phase::Navigating(i) => i < n,
        Phase::Loading(i) => i < n,
        Phase::Rendering(i) => i < n,
        Phase::Writing(i) => i < n,
        Phase::Completing(i) => i < n,
        _ => true,
    }
}

/// Phase and action that take up job `k`: report it when verbose, else
/// navigate to its input; past the last job, the session is done.
pub open spec fn begin_job(jobs: Seq<(Seq<char>, Seq<char>)>, options: PdfPrintingOptions, k: int) -> (
    Phase,
    ActionView,
) {
    if k >= jobs.len() {
        (Phase::Finished, ActionView::Done)
    } else if options.verbose {
        (Phase::Announcing(k as usize), ActionView::Announce(start_message(jobs[k].0)))
    } else {
        (Phase::Navigating(k as usize), ActionView::Navigate(jobs[k].0))
    }
}

/// The step from `phase` on `outcome`: the next phase and what to do in it.
/// A failed launch or tab ends the session with the browser's reason; a
/// failed navigation, wait or render ends it naming the job's input; a failed
/// write ends it naming the output file.
pub open spec fn next_step(
    jobs: Seq<(Seq<char>, Seq<char>)>,
    options: PdfPrintingOptions,
    phase: Phase,
    outcome: Result<Seq<u8>, Seq<char>>,
) -> (Phase, ActionView) {
    match (phase, outcome) {
        (Phase::Finished, _) => (Phase::Finished, ActionView::Done),
        (Phase::Announcing(i), _) => (Phase::Navigating(i), ActionView::Navigate(jobs[i as int].0)),
        (Phase::Completing(i), _) => begin_job(jobs, options, i + 1),
        (Phase::Writing(i), Err(reason)) => (
            Phase::Finished,
            ActionView::Abort(write_file_message(jobs[i as int].1, reason)),
        ),
        (Phase::Navigating(i), Err(reason)) => (
            Phase::Finished,
            ActionView::Abort(headless_chrome_file_message(jobs[i as int].0, reason)),
        ),
        (Phase::Loading(i), Err(reason)) => (
            Phase::Finished,
            ActionView::Abort(headless_chrome_file_message(jobs[i as int].0, reason)),
        ),
        (Phase::Rendering(i), Err(reason)) => (
            Phase::Finished,
            ActionView::Abort(headless_chrome_file_message(jobs[i as int].0, reason)),
        ),
        (_, Err(reason)) => (Phase::Finished, ActionView::Abort(headless_chrome_message(reason))),
        (Phase::Launching, Ok(_)) => (Phase::OpeningTab, ActionView::OpenTab),
        (Phase::OpeningTab, Ok(_)) => begin_job(jobs, options, 0),
        (Phase::Navigating(i), Ok(_)) => (Phase::Loading(i), ActionView::AwaitLoad),
        (Phase::Loading(i), Ok(_)) => (Phase::Rendering(i), ActionView::Render(options)),
        (Phase::Rendering(i), Ok(bytes)) => (
            Phase::Writing(i),
            ActionView::Write(jobs[i as int].1, bytes),
        ),
        (Phase::Writing(i), Ok(_)) => if options.verbose {
            (Phase::Completing(i), ActionView::Announce(done_message(jobs[i as int].1)))
        } else {
            begin_job(jobs, options, i + 1)
        },
    }
}

/// Index of the job a phase is at; before the first job 0, after the last `n`.
pub open spec fn job_index(phase: Phase, n: nat) -> int {
    match phase {
        Phase::Launching => 0,
        Phase::OpeningTab => 0,
        Phase::Announcing(i) => i as int,
        Phase::Navigating(i) => i as int,
        Phase::Loading(i) => i as int,
        Phase::Rendering(i) => i as int,
        Phase::Writing(i) => i as int,
        Phase::Completing(i) => i as int,
        Phase::Finished => n as int,
    }
}

/// How far a phase is from the end of its job.
pub open spec fn phase_rank(phase: Phase) -> int {
    match phase {
        Phase::Launching => 8,
        Phase::OpeningTab => 7,
        Phase::Announcing(_) => 6,
        Phase::Navigating(_) => 5,
        Phase::Loading(_) => 4,
        Phase::Rendering(_) => 3,
        Phase::Writing(_) => 2,
        Phase::Completing(_) => 1,
        Phase::Finished => 0,
    }
}

/// The actions a session asks for from `phase` on, when every step succeeds
/// and every render yields `pdf`.
pub open spec fn successful_run(
    jobs: Seq<(Seq<char>, Seq<char>)>,
    options: PdfPrintingOptions,
    phase: Phase,
    pdf: Seq<u8>,
) -> Seq<ActionView>
    decreases jobs.len() - job_index(phase, jobs.len()), phase_rank(phase),
{
    if jobs.len() > usize::MAX || !phase_in_range(phase, jobs.len()) || phase is Finished {
        seq![]
    } else {
        let (next, action) = next_step(jobs, options, phase, Ok(pdf));
        seq![action] + successful_run(jobs, options, next, pdf)
    }
}

/// The actions of job `k` when every step succeeds and the render yields `pdf`.
pub open spec fn job_actions(
    jobs: Seq<(Seq<char>, Seq<char>)>,
    options: PdfPrintingOptions,
    k: int,
    pdf: Seq<u8>,
) -> Seq<ActionView> {
    let (url, output) = jobs[k];
    let work = seq![
        ActionView::Navigate(url),
        ActionView::AwaitLoad,
        ActionView::Render(options),
        ActionView::Write(output, pdf),
    ];
    if options.verbose {
        seq![ActionView::Announce(start_message(url))] + work + seq![
            ActionView::Announce(done_message(output)),
        ]
    } else {
        work
    }
}

/// The actions of the jobs from `k` on, one job after the other.
pub open spec fn jobs_actions(
    jobs: Seq<(Seq<char>, Seq<char>)>,
    options: PdfPrintingOptions,
    k: int,
    pdf: Seq<u8>,
) -> Seq<ActionView>
    decreases jobs.len() - k,
{
    if k < 0 || k >= jobs.len() {
        seq![]
    } else {
        job_actions(jobs, options, k, pdf) + jobs_actions(jobs, options, k + 1, pdf)
    }
}

/// The run from the start of job `k`: its first action and all that follow.
pub open spec fn run_from_job(
    jobs: Seq<(Seq<char>, Seq<char>)>,
    options: PdfPrintingOptions,
    k: int,
    pdf: Seq<u8>,
) -> Seq<ActionView> {
    let (phase, action) = begin_job(jobs, options, k);
    seq![action] + successful_run(jobs, options, phase, pdf)
}

/// The run from the navigation of job `i` up to the start of the next job.
proof fn lemma_run_through_job(
    jobs: Seq<(Seq<char>, Seq<char>)>,
    options: PdfPrintingOptions,
    i: usize,
    pdf: Seq<u8>,
)
    requires
        i < jobs.len() <= usize::MAX,
    ensures
        successful_run(jobs, options, Phase::Navigating(i), pdf) == seq![
            ActionView::AwaitLoad,
            ActionView::Render(options),
            ActionView::Write(jobs[i as int].1, pdf),
        ] + if options.verbose {
            seq![ActionView::Announce(done_message(jobs[i as int].1))] + run_from_job(
                jobs,
                options,
                i + 1,
                pdf,
            )
        } else {
            run_from_job(jobs, options, i + 1, pdf)
        },
{
    let output = jobs[i as int].1;
    let rest = run_from_job(jobs, options, i + 1, pdf);
    let after_write = if options.verbose {
        seq![ActionView::Announce(done_message(output))] + rest
    } else {
        rest
    };
    if options.verbose {
        assert(successful_run(jobs, options, Phase::Completing(i), pdf) =~= rest);
    }
    assert(successful_run(jobs, options, Phase::Writing(i), pdf) =~= after_write);
    let from_load = seq![ActionView::Render(options), ActionView::Write(output, pdf)] + after_write;
    assert(successful_run(jobs, options, Phase::Rendering(i), pdf) =~= from_load.drop_first());
    assert(successful_run(jobs, options, Phase::Loading(i), pdf) =~= from_load);
    assert(successful_run(jobs, options, Phase::Navigating(i), pdf) =~= seq![ActionView::AwaitLoad]
        + from_load);
}

/// The run from the start of job `k` is the jobs from `k` on, then done.
proof fn lemma_run_from_job(
    jobs: Seq<(Seq<char>, Seq<char>)>,
    options: PdfPrintingOptions,
    k: int,
    pdf: Seq<u8>,
)
    requires
        0 <= k <= jobs.len(),
        jobs.len() <= usize::MAX,
    ensures
        run_from_job(jobs, options, k, pdf) == jobs_actions(jobs, options, k, pdf) + seq![
            ActionView::Done,
        ],
    decreases jobs.len() - k,
{
    if k == jobs.len() {
        assert(jobs_actions(jobs, options, k, pdf) == Seq::<ActionView>::empty());
        assert(run_from_job(jobs, options, k, pdf) =~= seq![ActionView::Done]);
    } else {
        let i = k as usize;
        lemma_run_from_job(jobs, options, k + 1, pdf);
        lemma_run_through_job(jobs, options, i, pdf);
        let url = jobs[k].0;
        let from_nav = successful_run(jobs, options, Phase::Navigating(i), pdf);
        if options.verbose {
            assert(successful_run(jobs, options, Phase::Announcing(i), pdf) =~= seq![
                ActionView::Navigate(url),
            ] + from_nav);
        }
        assert(run_from_job(jobs, options, k, pdf) =~= jobs_actions(jobs, options, k, pdf) + seq![
            ActionView::Done,
        ]);
    }
}

/// When every step succeeds, a session that has launched its browser opens
/// one tab, runs each job once and in order (navigate, wait, render, write
/// its output, with progress lines around them when verbose), and is then
/// done: it asks for no second launch or tab.
pub proof fn lemma_successful_session(
    jobs: Seq<(Seq<char>, Seq<char>)>,
    options: PdfPrintingOptions,
    pdf: Seq<u8>,
)
    requires
        jobs.len() <= usize::MAX,
    ensures
        successful_run(jobs, options, Phase::Launching, pdf) == seq![ActionView::OpenTab]
            + jobs_actions(jobs, options, 0, pdf) + seq![ActionView::Done],
{
    lemma_run_from_job(jobs, options, 0, pdf);
    assert(successful_run(jobs, options, Phase::OpeningTab, pdf) == run_from_job(
        jobs,
        options,
        0,
        pdf,
    ));
    assert(successful_run(jobs, options, Phase::Launching, pdf) =~= seq![ActionView::OpenTab]
        + jobs_actions(jobs, options, 0, pdf) + seq![ActionView::Done]);
}

/// A conversion session over a list of jobs.
pub struct Converter {
    jobs: Files,
    options: PdfPrintingOptions,
    phase: Phase,
}

impl Converter {
    pub closed spec fn jobs(&self) -> Seq<(Seq<char>, Seq<char>)> {
        self.jobs.deep_view()
    }

    pub closed spec fn options(&self) -> PdfPrintingOptions {
        self.options
    }

    pub closed spec fn phase(&self) -> Phase {
        self.phase
    }

    pub open spec fn well_formed(&self) -> bool {
        phase_in_range(self.phase(), self.jobs().len())
    }

    /// Starts a session over `files`: its first action launches the browser,
    /// without its crash reporter when the options ask so.
    pub fn start(files: Files, options: PdfPrintingOptions) -> (r: (Converter, Action))
        ensures
            r.0.well_formed(),
            r.0.jobs() == files.deep_view(),
            r.0.options() == options,
            r.0.phase() == Phase::Launching,
            r.1@ == ActionView::Launch(launch_args(options)),
    {
        let mut args: Vec<String> = Vec::new();
        if options.no_crash_reports {
            args.push(String::from_str("--disable-crash-reporter"));
            assert(args.deep_view() =~= seq!["--disable-crash-reporter"@]);
        } else {
            assert(args.deep_view() =~= seq![]);
        }
        (Converter { jobs: files, options, phase: Phase::Launching }, Action::Launch(args))
    }

    /// Returns the phase the session is in.
    pub fn current_phase(&self) -> (r: Phase)
        ensures
            r == self.phase(),
    {
        self.phase
    }

    /// The progress line of the given kind for a job.
    fn progress_line(&self, k: usize, started: bool) -> (r: String)
        requires
            k < self.jobs().len(),
        ensures
            r@ == if started {
                start_message(self.jobs()[k as int].0)
            } else {
                done_message(self.jobs()[k as int].1)
            },
    {
        let mut line = String::from_str("[");
        line.append(HTOP_NAME);
        if started {
            line.append("] Printing file ");
            line.append(self.jobs[k].0.as_str());
        } else {
            line.append("] Printing completed: ");
            line.append(self.jobs[k].1.as_str());
            line.append("\n");
        }
        line
    }

    /// Takes up job `k`.
    fn begin(&mut self, k: usize) -> (r: Action)
        requires
            k <= old(self).jobs().len(),
        ensures
            final(self).jobs() == old(self).jobs(),
            final(self).options() == old(self).options(),
            final(self).well_formed(),
            (final(self).phase(), r@) == begin_job(old(self).jobs(), old(self).options(), k as int),
    {
        if k >= self.jobs.len() {
            self.phase = Phase::Finished;
            Action::Done
        } else if self.options.verbose {
            self.phase = Phase::Announcing(k);
            Action::Announce(self.progress_line(k, true))
        } else {
            self.phase = Phase::Navigating(k);
            Action::Navigate(self.jobs[k].0.clone())
        }
    }

    /// Takes the outcome of the last action and returns the next one.
    pub fn resume(&mut self, outcome: Result<Vec<u8>, String>) -> (r: Action)
        requires
            old(self).well_formed(),
        ensures
            final(self).well_formed(),
            final(self).jobs() == old(self).jobs(),
            final(self).options() == old(self).options(),
            (final(self).phase(), r@) == next_step(
                old(self).jobs(),
                old(self).options(),
                old(self).phase(),
                outcome_view(outcome),
            ),
    {
        let n = self.jobs.len();
        assert(n == self.jobs().len());
        match (self.phase, outcome) {
            (Phase::Finished, _) => Action::Done,
            (Phase::Announcing(i), _) => {
                self.phase = Phase::Navigating(i);
                Action::Navigate(self.jobs[i].0.clone())
            },
            (Phase::Completing(i), _) => self.begin(i + 1),
            (Phase::Writing(i), Err(reason)) => {
                self.phase = Phase::Finished;
                Action::Abort(err_write_file(self.jobs[i].1.as_str(), reason))
            },
            (Phase::Navigating(i), Err(reason)) | (Phase::Loading(i), Err(reason)) | (
                Phase::Rendering(i),
                Err(reason),
            ) => {
                self.phase = Phase::Finished;
                Action::Abort(err_headless_chrome_file(self.jobs[i].0.as_str(), reason))
            },
            (_, Err(reason)) => {
                self.phase = Phase::Finished;
                Action::Abort(err_headless_chrome(reason))
            },
            (Phase::Launching, Ok(_)) => {
                self.phase = Phase::OpeningTab;
                Action::OpenTab
            },
            (Phase::OpeningTab, Ok(_)) => self.begin(0),
            (Phase::Navigating(i), Ok(_)) => {
                self.phase = Phase::Loading(i);
                Action::AwaitLoad
            },
            (Phase::Loading(i), Ok(_)) => {
                self.phase = Phase::Rendering(i);
                Action::Render(self.options)
            },
            (Phase::Rendering(i), Ok(bytes)) => {
                self.phase = Phase::Writing(i);
                Action::Write(self.jobs[i].1.clone(), bytes)
            },
            (Phase::Writing(i), Ok(_)) => {
                if self.options.verbose {
                    self.phase = Phase::Completing(i);
                    Action::Announce(self.progress_line(i, false))
                } else {
                    self.begin(i + 1)
                }
            },
        }
    }
}

} // verus!
