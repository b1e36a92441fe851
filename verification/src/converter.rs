//! The converter: a usable configuration together with the directory that
//! paths are shown relative to.

use crate::config::{Args, ConfigError};
use crate::invoke::{
    after_process, begin_conversion, first_step, outcome_line, second_step, transcoder_call,
    Followup, Outcome, OutcomeView, ProcessResult, Step, StepView,
};
use crate::matcher::{built_for, ExtensionMatcher, MatcherBuildError};
use crate::paths::{
    display_choice, option_text, relative_display, relative_to, select_display_path,
    with_extension,
};
use crate::tally::Tally;
use crate::text::{banner, quoted_list, render_banner, render_quoted_list, texts};
use crate::walk::{
    decide, event_decision, Decision, DecisionView, EntryKind, WalkEntry, WalkEvent, WalkState,
};
use vstd::prelude::*;

verus! {

/// How the directory walk is to be set up.
#[derive(Debug)]
pub struct WalkPlan {
    /// The directory that the walk starts in.
    pub root: String,
    /// Whether the walk applies its standard filters: hidden files, ignore
    /// files and the like. It never does.
    pub standard_filters: bool,
    /// The deepest level that is searched; unlimited where absent.
    pub max_depth: Option<usize>,
    /// Whether symbolic links are followed.
    pub follow_links: bool,
    /// Whether the walk stays on the file system of the root.
    pub same_file_system: bool,
    /// The number of worker threads.
    pub threads: usize,
    /// The filter that the walk applies to files.
    pub matcher: ExtensionMatcher,
}

/// What is to be done about an event of the walk, with the first step of the
/// conversion where a file is to be converted.
#[derive(Debug)]
pub enum EntryAction {
    /// Nothing: the entry is no file to convert.
    Skip,
    /// Count an error, report the message and end the walk.
    Abort(String),
    /// Convert the file at `path`, beginning with `step`.
    Convert { path: String, step: Step },
}

/// An `EntryAction` as text.
pub enum EntryActionView {
    Skip,
    Abort(Seq<char>),
    Convert { path: Seq<char>, step: StepView },
}

impl View for EntryAction {
    type V = EntryActionView;

    open spec fn view(&self) -> EntryActionView {
        match *self {
            EntryAction::Skip => EntryActionView::Skip,
            EntryAction::Abort(message) => EntryActionView::Abort(message@),
            EntryAction::Convert { path, step } => EntryActionView::Convert {
                path: path@,
                step: step@,
            },
        }
    }
}

/// What the walk does once the action was carried out: it ends after an
/// abort and goes on otherwise.
pub open spec fn state_after(action: EntryActionView) -> WalkState {
    match action {
        EntryActionView::Abort(_) => WalkState::Quit,
        _ => WalkState::Continue,
    }
}

impl EntryAction {
    /// What the walk is to do once the action was carried out.
    pub fn walk_state(&self) -> (state: WalkState)
        ensures
            state == state_after(self@),
    {
        match self {
            EntryAction::Abort(_) => WalkState::Quit,
            _ => WalkState::Continue,
        }
    }
}

/// The first step of the conversion of the file at `path` under the settings.
pub open spec fn planned_step(settings: Args, path: Seq<char>) -> StepView {
    first_step(
        settings.dry_run,
        settings.preserve_files,
        path,
        settings.output@,
        texts(settings.ffmpeg_args@),
    )
}

/// What is to be done about an event under the settings: whatever is decided
/// for the event, and for a file to convert the first step of its conversion.
pub open spec fn planned_action(settings: Args, matcher: ExtensionMatcher, event: WalkEvent)
    -> EntryActionView {
    match event_decision(matcher, event) {
        DecisionView::Skip => EntryActionView::Skip,
        DecisionView::Abort(message) => EntryActionView::Abort(message),
        DecisionView::Convert(path) => EntryActionView::Convert {
            path,
            step: planned_step(settings, path),
        },
    }
}

/// The number of worker threads: the configured number, or else any number
/// of at least one.
pub open spec fn threads_allowed(configured: Option<usize>, threads: usize) -> bool {
    match configured {
        Some(count) => threads == count,
        None => threads >= 1,
    }
}

/// The plan sets the walk up as the settings ask: from the target
/// directory, with its depth, link and file system options, without standard
/// filters, and with an allowed number of threads.
pub open spec fn plan_follows(settings: Args, plan: WalkPlan) -> bool {
    &&& plan.root@ == settings.target_dir@
    &&& !plan.standard_filters
    &&& plan.max_depth == settings.max_depth
    &&& plan.follow_links == settings.follow_links
    &&& plan.same_file_system == settings.same_fs
    &&& threads_allowed(settings.num_threads, plan.threads)
}

/// The lines that open the report of a run under the settings.
pub open spec fn opening(settings: Args) -> Seq<Seq<char>> {
    let line = banner(texts(settings.inputs@), settings.output@);
    if settings.dry_run {
        seq!["Dry-run enabled"@, line]
    } else {
        seq![line]
    }
}

/// Calls `num_cpus::get`. Trusted: the number of processors that the
/// machine offers to this process is at least one; nothing else is known of
/// it.
#[verifier::external_body]
fn available_processors() -> (count: usize)
    ensures
        count >= 1,
{
    num_cpus::get()
}

/// A configuration that was found usable, and the directory that paths are
/// shown relative to.
#[derive(Debug)]
pub struct Converter {
    args: Args,
    current_dir: Option<String>,
}

impl Converter {
    #[verifier::type_invariant]
    spec fn well_formed(self) -> bool {
        self.args.usable()
    }

    /// The settings of the run.
    pub closed spec fn settings(&self) -> Args {
        self.args
    }

    /// The directory that paths are shown relative to, if one is known.
    pub closed spec fn base(&self) -> Option<Seq<char>> {
        option_text(self.current_dir)
    }

    /// Makes a converter of the settings, if they are usable. `current_dir`
    /// is the working directory at the start of the run, where it is known.
    pub fn new(args: Args, current_dir: Option<String>) -> (made: Result<Converter, ConfigError>)
        ensures
            match made {
                Ok(converter) => {
                    &&& args.usable()
                    &&& converter.settings() == args
                    &&& converter.base() == option_text(current_dir)
                },
                Err(error) => args.defect() == Some(error),
            },
    {
        match args.check() {
            Ok(()) => Ok(Converter { args, current_dir }),
            Err(error) => Err(error),
        }
    }

    /// The settings of the run, which are usable.
    pub fn args(&self) -> (args: &Args)
        ensures
            *args == self.settings(),
            args.usable(),
    {
        proof {
            use_type_invariant(self);
        }
        &self.args
    }

    /// The source extensions as a list of quoted items.
    pub fn format_input_args(&self) -> (list: String)
        ensures
            list@ == quoted_list(texts(self.settings().inputs@)),
    {
        render_quoted_list(&self.args.inputs)
    }

    /// The lines that open the report of a run: a notice in a dry run, then
    /// the line that names the source extensions and the target extension.
    pub fn opening_lines(&self) -> (lines: Vec<String>)
        ensures
            texts(lines@) == opening(self.settings()),
    {
        let mut lines: Vec<String> = Vec::new();
        if self.args.dry_run {
            lines.push(String::from_str("Dry-run enabled"));
        }
        lines.push(render_banner(&self.args.inputs, self.args.output.as_str()));
        assert(texts(lines@) =~= opening(self.settings()));
        lines
    }

    /// The number of worker threads of the walk: the configured number, or
    /// else the number of processors available.
    pub fn worker_threads(&self) -> (threads: usize)
        ensures
            threads_allowed(self.settings().num_threads, threads),
    {
        match self.args.num_threads {
            Some(count) => count,
            None => available_processors(),
        }
    }

    /// Plans the directory walk and builds its matcher. Fails only where no
    /// matcher can be built for the source extensions: on the first
    /// extension that is not usable, or where the `ignore` crate builds none.
    pub fn build_walker(&self) -> (built: Result<WalkPlan, MatcherBuildError>)
        ensures
            match built {
                Ok(plan) => {
                    &&& plan_follows(self.settings(), plan)
                    &&& built_for(texts(self.settings().inputs@), Ok(plan.matcher))
                },
                Err(error) => built_for(texts(self.settings().inputs@), Err(error)),
            },
    {
        let threads = self.worker_threads();
        match ExtensionMatcher::build(&self.args.inputs) {
            Ok(matcher) => Ok(
                WalkPlan {
                    root: self.args.target_dir.clone(),
                    standard_filters: false,
                    max_depth: self.args.max_depth,
                    follow_links: self.args.follow_links,
                    same_file_system: self.args.same_fs,
                    threads,
                    matcher,
                },
            ),
            Err(error) => Err(error),
        }
    }

    /// The path expressed relative to the base directory, where that can be
    /// done.
    pub fn relative_display(&self, path: &str) -> (shown: Option<String>)
        ensures
            option_text(shown) == relative_to(path@, self.base()),
    {
        relative_display(path, &self.current_dir)
    }

    /// The form of `path` that report lines show: relative to the base
    /// directory where that can be done, else `canonical` where the caller
    /// could resolve the path, else the path as it is.
    pub fn get_display_path(&self, path: &str, canonical: Option<String>) -> (shown: String)
        ensures
            shown@ == display_choice(
                relative_to(path@, self.base()),
                option_text(canonical),
                path@,
            ),
    {
        let relative = relative_display(path, &self.current_dir);
        select_display_path(relative, canonical, path)
    }

    /// The line that reports an outcome: for a conversion the finish line
    /// with the output file in the form that report lines show, for a failure
    /// the reason. `canonical` is the resolved path of the output file, where
    /// the caller could resolve it.
    pub fn outcome_line(&self, outcome: &Outcome, canonical: Option<String>) -> (line: String)
        ensures
            line@ == match outcome@ {
                OutcomeView::Converted(output) => outcome_line(
                    outcome@,
                    display_choice(relative_to(output, self.base()), option_text(canonical), output),
                ),
                OutcomeView::Failed(reason) => reason,
            },
    {
        match outcome.output() {
            Some(output) => {
                let shown = self.get_display_path(output.as_str(), canonical);
                outcome.report_line(shown.as_str())
            },
            None => outcome.report_line(""),
        }
    }

    /// Decides what is to be done about an event of the walk, and begins the
    /// conversion of a file that is to be converted.
    pub fn try_convert_entry(&self, matcher: &ExtensionMatcher, event: WalkEvent) -> (action:
        EntryAction)
        ensures
            action@ == planned_action(self.settings(), *matcher, event),
    {
        match decide(matcher, event) {
            Decision::Skip => EntryAction::Skip,
            Decision::Abort(message) => EntryAction::Abort(message),
            Decision::Convert(path) => {
                let step = self.try_convert_path(path.as_str());
                EntryAction::Convert { path, step }
            },
        }
    }

    /// Begins the conversion of the file at `path`: in a dry run the preview
    /// of what a live run would do, otherwise the command to execute.
    pub fn try_convert_path(&self, path: &str) -> (step: Step)
        ensures
            step@ == planned_step(self.settings(), path@),
    {
        proof {
            use_type_invariant(self);
        }
        begin_conversion(
            self.args.dry_run,
            self.args.preserve_files,
            path,
            self.args.output.as_str(),
            &self.args.ffmpeg_args,
        )
    }

    /// Decides what follows the end of the process that converted `source`
    /// to `output`.
    pub fn after_process(&self, source: &str, output: String, result: ProcessResult) -> (next:
        Followup)
        ensures
            next@ == second_step(self.settings().preserve_files, source@, output@, result),
    {
        after_process(self.args.preserve_files, source, output, result)
    }
}

/// A regular file without an error that the matcher accepts is converted,
/// the walk goes on after it, and whatever the outcome of its conversion,
/// recording it adds one to exactly one of the two counters.
pub proof fn law_accepted_file_is_counted_once(
    settings: Args,
    matcher: ExtensionMatcher,
    entry: WalkEntry,
    outcome: OutcomeView,
    tally: Tally,
)
    requires
        entry.error is None,
        entry.kind == Some(EntryKind::File),
        matcher.accepts(entry.path@),
        tally.converted < u64::MAX,
        tally.errors < u64::MAX,
    ensures
        planned_action(settings, matcher, WalkEvent::Found(entry)) == (EntryActionView::Convert {
            path: entry.path@,
            step: planned_step(settings, entry.path@),
        }),
        state_after(planned_action(settings, matcher, WalkEvent::Found(entry)))
            == WalkState::Continue,
        ({
            let counted = tally.recorded(outcome);
            ||| counted.converted == tally.converted + 1 && counted.errors == tally.errors
            ||| counted.converted == tally.converted && counted.errors == tally.errors + 1
        }),
        tally.recorded(outcome).converted + tally.recorded(outcome).errors == tally.converted
            + tally.errors + 1,
{
}

/// In a dry run a regular file without an error that the matcher accepts
/// is only previewed: no command is to be run and no file to be removed, its
/// outcome is a conversion to the output path, recording it adds one to the
/// converted counter and nothing to the error counter, and the walk goes on.
pub proof fn law_dry_run_counts_as_converted(
    settings: Args,
    matcher: ExtensionMatcher,
    entry: WalkEntry,
    tally: Tally,
)
    requires
        settings.dry_run,
        entry.error is None,
        entry.kind == Some(EntryKind::File),
        matcher.accepts(entry.path@),
        tally.converted < u64::MAX,
    ensures
        ({
            let output = with_extension(entry.path@, settings.output@);
            let outcome = OutcomeView::Converted(output);
            &&& planned_action(settings, matcher, WalkEvent::Found(entry))
                == (EntryActionView::Convert {
                path: entry.path@,
                step: StepView::Preview {
                    invocation: transcoder_call(
                        entry.path@,
                        texts(settings.ffmpeg_args@),
                        output,
                    ),
                    removes_source: !settings.preserve_files,
                    outcome,
                },
            })
            &&& tally.recorded(outcome).converted == tally.converted + 1
            &&& tally.recorded(outcome).errors == tally.errors
        }),
        state_after(planned_action(settings, matcher, WalkEvent::Found(entry)))
            == WalkState::Continue,
{
}

} // verus!
