//! The conversion of one file: the command line of the transcoder, and what
//! follows from each result that running it can have.
//!
//! Nothing here runs a process or touches a file. A conversion advances in up
//! to three steps, each of which tells the caller what to do next: run a
//! command, remove a file, or record an outcome.

use crate::paths::{replace_extension, separator_free, with_extension};
use crate::text::{finish_line, render_finish_line, texts};
use vstd::prelude::*;

verus! {

/// A program and the arguments it is started with.
#[derive(Debug)]
pub struct Invocation {
    pub program: String,
    pub args: Vec<String>,
}

/// An `Invocation` as text.
pub struct InvocationView {
    pub program: Seq<char>,
    pub args: Seq<Seq<char>>,
}

impl View for Invocation {
    type V = InvocationView;

    open spec fn view(&self) -> InvocationView {
        InvocationView { program: self.program@, args: texts(self.args@) }
    }
}

/// How the conversion of one file ended.
#[derive(Debug)]
pub enum Outcome {
    /// The file was converted, or would have been in a dry run; the path of
    /// the output file.
    Converted(String),
    /// The file was not converted, or its source could not be removed; the
    /// reason.
    Failed(String),
}

/// An `Outcome` as text.
pub enum OutcomeView {
    Converted(Seq<char>),
    Failed(Seq<char>),
}

impl View for Outcome {
    type V = OutcomeView;

    open spec fn view(&self) -> OutcomeView {
        match *self {
            Outcome::Converted(path) => OutcomeView::Converted(path@),
            Outcome::Failed(reason) => OutcomeView::Failed(reason@),
        }
    }
}

/// The line that reports an outcome: for a conversion the finish line with
/// the output file as it is shown, for a failure the reason and nothing else.
pub open spec fn outcome_line(outcome: OutcomeView, shown: Seq<char>) -> Seq<char> {
    match outcome {
        OutcomeView::Converted(_) => finish_line(shown),
        OutcomeView::Failed(reason) => reason,
    }
}

impl Outcome {
    /// The path of the output file, where the file was converted.
    pub fn output(&self) -> (path: Option<&String>)
        ensures
            match path {
                Some(written) => self@ == OutcomeView::Converted(written@),
                None => self@ is Failed,
            },
    {
        match self {
            Outcome::Converted(written) => Some(written),
            Outcome::Failed(_) => None,
        }
    }

    /// Renders the line that reports the outcome; `shown` is the output file
    /// as it is to be shown.
    pub fn report_line(&self, shown: &str) -> (line: String)
        ensures
            line@ == outcome_line(self@, shown@),
    {
        match self {
            Outcome::Converted(_) => render_finish_line(shown),
            Outcome::Failed(reason) => reason.clone(),
        }
    }
}

/// What became of the transcoder process.
#[derive(Debug)]
pub enum ProcessResult {
    /// It ran and exited; whether its exit status was zero, and what it wrote
    /// to standard error.
    Exited { success: bool, stderr: Vec<u8> },
    /// It could not be started; the reason.
    NotStarted(String),
}

/// The first step of a conversion.
#[derive(Debug)]
pub enum Step {
    /// Dry run: nothing is to be done. The command that a live run would
    /// execute, whether it would then remove the source, and the outcome to
    /// record.
    Preview { invocation: Invocation, removes_source: bool, outcome: Outcome },
    /// Live run: the command to execute, and the path of the file it writes.
    Execute { invocation: Invocation, output: String },
}

/// A `Step` as text.
pub enum StepView {
    Preview { invocation: InvocationView, removes_source: bool, outcome: OutcomeView },
    Execute { invocation: InvocationView, output: Seq<char> },
}

impl View for Step {
    type V = StepView;

    open spec fn view(&self) -> StepView {
        match *self {
            Step::Preview { invocation, removes_source, outcome } => StepView::Preview {
                invocation: invocation@,
                removes_source,
                outcome: outcome@,
            },
            Step::Execute { invocation, output } => StepView::Execute {
                invocation: invocation@,
                output: output@,
            },
        }
    }
}

/// The step that follows the end of the transcoder process.
#[derive(Debug)]
pub enum Followup {
    /// Remove the source file, then report how that went.
    Remove { source: String, output: String },
    /// Nothing is left to do: the outcome to record.
    Finish(Outcome),
}

/// A `Followup` as text.
pub enum FollowupView {
    Remove { source: Seq<char>, output: Seq<char> },
    Finish(OutcomeView),
}

impl View for Followup {
    type V = FollowupView;

    open spec fn view(&self) -> FollowupView {
        match *self {
            Followup::Remove { source, output } => FollowupView::Remove {
                source: source@,
                output: output@,
            },
            Followup::Finish(outcome) => FollowupView::Finish(outcome@),
        }
    }
}

/// What `String::from_utf8_lossy` makes of a sequence of bytes.
pub uninterp spec fn utf8_lossy(bytes: Seq<u8>) -> Seq<char>;

/// The arguments of the transcoder: the input flag and the input path, the
/// arguments handed through, and the output path last.
pub open spec fn transcoder_args(input: Seq<char>, extra: Seq<Seq<char>>, output: Seq<char>) -> Seq<
    Seq<char>,
> {
    seq!["-i"@, input] + extra + seq![output]
}

/// The command that converts `input` to `output`.
pub open spec fn transcoder_call(input: Seq<char>, extra: Seq<Seq<char>>, output: Seq<char>)
    -> InvocationView {
    InvocationView { program: "ffmpeg"@, args: transcoder_args(input, extra, output) }
}

/// The first step of the conversion of `input`.
pub open spec fn first_step(
    dry_run: bool,
    preserve: bool,
    input: Seq<char>,
    extension: Seq<char>,
    extra: Seq<Seq<char>>,
) -> StepView {
    let output = with_extension(input, extension);
    let invocation = transcoder_call(input, extra, output);
    if dry_run {
        StepView::Preview {
            invocation,
            removes_source: !preserve,
            outcome: OutcomeView::Converted(output),
        }
    } else {
        StepView::Execute { invocation, output }
    }
}

/// The step that follows the end of the process that converted `source` to
/// `output`.
pub open spec fn second_step(
    preserve: bool,
    source: Seq<char>,
    output: Seq<char>,
    result: ProcessResult,
) -> FollowupView {
    match result {
        ProcessResult::NotStarted(reason) => FollowupView::Finish(OutcomeView::Failed(reason@)),
        ProcessResult::Exited { success, stderr } => if !success {
            FollowupView::Finish(OutcomeView::Failed(utf8_lossy(stderr@)))
        } else if preserve {
            FollowupView::Finish(OutcomeView::Converted(output))
        } else {
            FollowupView::Remove { source, output }
        },
    }
}

/// The outcome of a conversion to `output` whose source was then to be
/// removed: a failure with the reason where the removal failed.
pub open spec fn last_step(output: Seq<char>, removal: Result<(), String>) -> OutcomeView {
    match removal {
        Ok(()) => OutcomeView::Converted(output),
        Err(reason) => OutcomeView::Failed(reason@),
    }
}

/// Calls `String::from_utf8_lossy`. Trusted: the text is a function of the
/// bytes alone, named `utf8_lossy`.
#[verifier::external_body]
fn decode_lossy(bytes: &Vec<u8>) -> (text: String)
    ensures
        text@ == utf8_lossy(bytes@),
{
    String::from_utf8_lossy(bytes).into_owned()
}

/// Builds the command that converts `input` to `output`.
pub fn transcoder_invocation(input: &str, extra: &Vec<String>, output: &str) -> (invocation:
    Invocation)
    ensures
        invocation@ == transcoder_call(input@, texts(extra@), output@),
{
    let mut args: Vec<String> = Vec::new();
    args.push(String::from_str("-i"));
    args.push(String::from_str(input));
    let mut i: usize = 0;
    while i < extra.len()
        invariant
            i <= extra.len(),
            texts(args@) == seq!["-i"@, input@] + texts(extra@).take(i as int),
        decreases extra.len() - i,
    {
        let ghost before = texts(args@);
        args.push(extra[i].clone());
        assert(texts(args@) =~= before.push(extra@[i as int]@));
        assert(texts(extra@).take(i + 1) =~= texts(extra@).take(i as int).push(extra@[i as int]@));
        assert(texts(args@) =~= seq!["-i"@, input@] + texts(extra@).take(i + 1));
        i += 1;
    }
    assert(texts(extra@).take(i as int) =~= texts(extra@));
    let ghost before = texts(args@);
    args.push(String::from_str(output));
    assert(texts(args@) =~= before.push(output@));
    assert(texts(args@) =~= transcoder_args(input@, texts(extra@), output@));
    Invocation { program: String::from_str("ffmpeg"), args }
}

/// Plans the conversion of `input`. In a dry run nothing is left to do but to
/// record success; otherwise the transcoder is to be run.
pub fn begin_conversion(
    dry_run: bool,
    preserve: bool,
    input: &str,
    extension: &str,
    extra: &Vec<String>,
) -> (step: Step)
    requires
        separator_free(extension@),
    ensures
        step@ == first_step(dry_run, preserve, input@, extension@, texts(extra@)),
{
    let output = replace_extension(input, extension);
    let invocation = transcoder_invocation(input, extra, output.as_str());
    if dry_run {
        Step::Preview { invocation, removes_source: !preserve, outcome: Outcome::Converted(output) }
    } else {
        Step::Execute { invocation, output }
    }
}

/// Decides what follows the end of the transcoder process. A process that
/// failed or could not be started leaves the source in place; one that
/// succeeded has the source removed unless sources are preserved.
pub fn after_process(preserve: bool, source: &str, output: String, result: ProcessResult) -> (next:
    Followup)
    ensures
        next@ == second_step(preserve, source@, output@, result),
{
    match result {
        ProcessResult::NotStarted(reason) => Followup::Finish(Outcome::Failed(reason)),
        ProcessResult::Exited { success, stderr } => {
            if !success {
                Followup::Finish(Outcome::Failed(decode_lossy(&stderr)))
            } else if preserve {
                Followup::Finish(Outcome::Converted(output))
            } else {
                Followup::Remove { source: String::from_str(source), output }
            }
        },
    }
}

/// The outcome once the removal of the source was attempted.
pub fn after_removal(output: String, removal: Result<(), String>) -> (outcome: Outcome)
    ensures
        outcome@ == last_step(output@, removal),
{
    match removal {
        Ok(()) => Outcome::Converted(output),
        Err(reason) => Outcome::Failed(reason),
    }
}

/// A dry run runs no process and removes no file: the first step of every
/// conversion is a preview, which already holds the outcome, and that outcome
/// is a conversion to the output path.
pub proof fn law_dry_run_only_previews(
    preserve: bool,
    input: Seq<char>,
    extension: Seq<char>,
    extra: Seq<Seq<char>>,
)
    ensures
        first_step(true, preserve, input, extension, extra) == (StepView::Preview {
            invocation: transcoder_call(input, extra, with_extension(input, extension)),
            removes_source: !preserve,
            outcome: OutcomeView::Converted(with_extension(input, extension)),
        }),
{
}

/// A live conversion begins with the command that reads the input and
/// writes the input's path with the target extension in place of its own.
/// Once that command succeeded, the source is to be removed, or, where
/// sources are preserved, the conversion is finished with both files in
/// place.
pub proof fn law_live_conversion_replaces_extension(
    preserve: bool,
    input: Seq<char>,
    extension: Seq<char>,
    extra: Seq<Seq<char>>,
    stderr: Vec<u8>,
)
    ensures
        ({
            let output = with_extension(input, extension);
            let done = ProcessResult::Exited { success: true, stderr };
            &&& first_step(false, preserve, input, extension, extra) == (StepView::Execute {
                invocation: transcoder_call(input, extra, output),
                output,
            })
            &&& preserve ==> second_step(preserve, input, output, done) == FollowupView::Finish(
                OutcomeView::Converted(output),
            )
            &&& !preserve ==> second_step(preserve, input, output, done) == (FollowupView::Remove {
                source: input,
                output,
            })
        }),
{
}

/// A source file is removed only where sources are not preserved and the
/// transcoder ran and succeeded, and then it is the source of that very
/// conversion that is removed.
pub proof fn law_source_removed_only_after_success(
    preserve: bool,
    source: Seq<char>,
    output: Seq<char>,
    result: ProcessResult,
)
    ensures
        second_step(preserve, source, output, result) is Remove <==> !preserve && (
        result matches ProcessResult::Exited { success, .. } && success),
        second_step(preserve, source, output, result) is Remove ==> second_step(
            preserve,
            source,
            output,
            result,
        ) == (FollowupView::Remove { source, output }),
{
}

/// Once the source was removed the conversion ends as converted; where the
/// removal failed it ends as a failure with the reason of the removal,
/// though the transcoder succeeded.
pub proof fn law_removal_decides_outcome(output: Seq<char>, removal: Result<(), String>)
    ensures
        removal is Ok ==> last_step(output, removal) == OutcomeView::Converted(output),
        removal matches Err(reason) ==> last_step(output, removal) == OutcomeView::Failed(reason@),
{
}

/// A conversion whose process exited with a failure is reported by what the
/// process wrote to standard error, decoded as text, and by no finish line.
pub proof fn law_failed_process_reports_its_error(
    preserve: bool,
    source: Seq<char>,
    output: Seq<char>,
    stderr: Vec<u8>,
    shown: Seq<char>,
)
    ensures
        second_step(preserve, source, output, ProcessResult::Exited { success: false, stderr })
            == FollowupView::Finish(OutcomeView::Failed(utf8_lossy(stderr@))),
        outcome_line(OutcomeView::Failed(utf8_lossy(stderr@)), shown) == utf8_lossy(stderr@),
{
}

} // verus!
