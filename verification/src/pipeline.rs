//! The print pipeline's decisions, step by step.
//!
//! A job runs through three stages: write the renderer's data file, run the
//! renderer, hand the document to the spooler. The caller performs each
//! outside action and reports its outcome; the step functions here decide
//! what follows, and every decision is pinned by its contract. A failing
//! stage ends the job with a `500` answer carrying a stage-specific
//! diagnostic; only a successful render yields the ticket that lets the
//! spooler be invoked at all.

use vstd::prelude::*;

use crate::config::printer_of;
use crate::config::printer_target;
use crate::request::PrintRequest;
use crate::request::RequestView;
use crate::request::normalize;
use crate::request::spec_normalize;
use crate::yaml::render_yaml;
use crate::yaml::yaml_doc;

verus! {

/// What came of attempting to write the renderer's data file.
pub enum WriteOutcome {
    /// The file was fully written.
    Written,
    /// The write failed, with the diagnostic text.
    Failed { message: String },
}

/// Mathematical model of a write outcome.
pub enum WriteOutcomeView {
    Written,
    Failed { message: Seq<char> },
}

impl View for WriteOutcome {
    type V = WriteOutcomeView;

    open spec fn view(&self) -> WriteOutcomeView {
        match self {
            WriteOutcome::Written => WriteOutcomeView::Written,
            WriteOutcome::Failed { message } => WriteOutcomeView::Failed {
                message: message@,
            },
        }
    }
}

/// What came of launching an external command and waiting for it.
pub enum RunOutcome {
    /// The command ran to completion: whether it succeeded, and its exit
    /// status as text.
    Exited { success: bool, status_text: String },
    /// The command could not be launched, with the diagnostic text.
    LaunchFailed { message: String },
}

/// Mathematical model of a run outcome.
pub enum RunOutcomeView {
    Exited { success: bool, status_text: Seq<char> },
    LaunchFailed { message: Seq<char> },
}

impl View for RunOutcome {
    type V = RunOutcomeView;

    open spec fn view(&self) -> RunOutcomeView {
        match self {
            RunOutcome::Exited { success, status_text } => RunOutcomeView::Exited {
                success: *success,
                status_text: status_text@,
            },
            RunOutcome::LaunchFailed { message } => RunOutcomeView::LaunchFailed {
                message: message@,
            },
        }
    }
}

/// Whether the command ran and succeeded.
pub open spec fn run_succeeded(o: RunOutcomeView) -> bool {
    o matches RunOutcomeView::Exited { success: true, .. }
}

/// The HTTP answer a job ends with: a status code and a body.
pub struct HttpReply {
    pub status: u16,
    pub body: String,
}

/// Mathematical model of an HTTP answer.
pub struct ReplyView {
    pub status: int,
    pub body: Seq<char>,
}

impl View for HttpReply {
    type V = ReplyView;

    open spec fn view(&self) -> ReplyView {
        ReplyView { status: self.status as int, body: self.body@ }
    }
}

/// The answer to a fully successful job.
pub open spec fn queued_reply() -> ReplyView {
    ReplyView { status: 200, body: "queued"@ }
}

/// A failure answer with the given body.
pub open spec fn error_reply(body: Seq<char>) -> ReplyView {
    ReplyView { status: 500, body }
}

/// The body answering a failed data-file write.
pub open spec fn data_write_failure_body(e: Seq<char>) -> Seq<char> {
    "Failed to write YAML: "@ + e
}

/// The body answering a renderer that exited unsuccessfully.
pub open spec fn render_exit_body(status_text: Seq<char>) -> Seq<char> {
    "typst exited with status: "@ + status_text
}

/// The body answering a renderer that could not be launched.
pub open spec fn render_launch_body(e: Seq<char>) -> Seq<char> {
    "Failed to run typst: "@ + e
}

/// The body answering a spooler that exited unsuccessfully.
pub open spec fn dispatch_exit_body(status_text: Seq<char>) -> Seq<char> {
    "lp exited with status: "@ + status_text
}

/// The body answering a spooler that could not be launched.
pub open spec fn dispatch_launch_body(e: Seq<char>) -> Seq<char> {
    "Failed to run lp: "@ + e
}

/// A job whose data file is yet to be written.
pub struct PendingWrite {
    yaml: String,
    printer: String,
}

/// Mathematical model of a job awaiting its data-file write.
pub struct PendingWriteView {
    pub yaml: Seq<char>,
    pub printer: Seq<char>,
}

impl View for PendingWrite {
    type V = PendingWriteView;

    closed spec fn view(&self) -> PendingWriteView {
        PendingWriteView { yaml: self.yaml@, printer: self.printer@ }
    }
}

/// A job whose renderer run is yet to happen.
pub struct PendingRender {
    printer: String,
}

/// Mathematical model of a job awaiting its renderer run.
pub struct PendingRenderView {
    pub printer: Seq<char>,
}

impl View for PendingRender {
    type V = PendingRenderView;

    closed spec fn view(&self) -> PendingRenderView {
        PendingRenderView { printer: self.printer@ }
    }
}

/// A job whose rendered document is yet to be handed to the spooler. Only a
/// successful render step produces one.
pub struct PendingDispatch {
    printer: String,
}

/// Mathematical model of a job awaiting its spooler run.
pub struct PendingDispatchView {
    pub printer: Seq<char>,
}

impl View for PendingDispatch {
    type V = PendingDispatchView;

    closed spec fn view(&self) -> PendingDispatchView {
        PendingDispatchView { printer: self.printer@ }
    }
}

/// After the data-file write: go on to render, or answer with a failure.
pub enum WriteStep {
    Render(PendingRender),
    Fail(HttpReply),
}

/// Mathematical model of a write step's result.
pub enum WriteStepView {
    Render(PendingRenderView),
    Fail(ReplyView),
}

impl View for WriteStep {
    type V = WriteStepView;

    open spec fn view(&self) -> WriteStepView {
        match self {
            WriteStep::Render(j) => WriteStepView::Render(j@),
            WriteStep::Fail(r) => WriteStepView::Fail(r@),
        }
    }
}

/// After the renderer run: go on to the spooler, or answer with a failure.
pub enum RenderStep {
    Dispatch(PendingDispatch),
    Fail(HttpReply),
}

/// Mathematical model of a render step's result.
pub enum RenderStepView {
    Dispatch(PendingDispatchView),
    Fail(ReplyView),
}

impl View for RenderStep {
    type V = RenderStepView;

    open spec fn view(&self) -> RenderStepView {
        match self {
            RenderStep::Dispatch(j) => RenderStepView::Dispatch(j@),
            RenderStep::Fail(r) => RenderStepView::Fail(r@),
        }
    }
}

/// What opening a job yields: the data file laid out from the normalized
/// request, and the resolved target printer.
pub open spec fn open_job_spec(req: RequestView, env: Option<Seq<char>>) -> PendingWriteView {
    PendingWriteView { yaml: yaml_doc(spec_normalize(req)), printer: printer_of(env) }
}

/// What the write step decides for each outcome.
pub open spec fn write_step_spec(j: PendingWriteView, o: WriteOutcomeView) -> WriteStepView {
    match o {
        WriteOutcomeView::Written => WriteStepView::Render(
            PendingRenderView { printer: j.printer },
        ),
        WriteOutcomeView::Failed { message } => WriteStepView::Fail(
            error_reply(data_write_failure_body(message)),
        ),
    }
}

/// What the render step decides for each outcome.
pub open spec fn render_step_spec(j: PendingRenderView, o: RunOutcomeView) -> RenderStepView {
    match o {
        RunOutcomeView::Exited { success: true, .. } => RenderStepView::Dispatch(
            PendingDispatchView { printer: j.printer },
        ),
        RunOutcomeView::Exited { success: false, status_text } => RenderStepView::Fail(
            error_reply(render_exit_body(status_text)),
        ),
        RunOutcomeView::LaunchFailed { message } => RenderStepView::Fail(
            error_reply(render_launch_body(message)),
        ),
    }
}

/// What the dispatch step answers for each outcome.
pub open spec fn dispatch_reply_spec(o: RunOutcomeView) -> ReplyView {
    match o {
        RunOutcomeView::Exited { success: true, .. } => queued_reply(),
        RunOutcomeView::Exited { success: false, status_text } => error_reply(
            dispatch_exit_body(status_text),
        ),
        RunOutcomeView::LaunchFailed { message } => error_reply(
            dispatch_launch_body(message),
        ),
    }
}

/// Start a job: normalize the request, lay out the renderer's data file, and
/// resolve the target printer from the optional `PRINTER_NAME` override.
pub fn open_job(req: &PrintRequest, printer_env: Option<String>) -> (j: PendingWrite)
    ensures
        j@ == open_job_spec(req@, printer_env.deep_view()),
{
    let data = normalize(req);
    let yaml = render_yaml(&data);
    let printer = printer_target(printer_env);
    PendingWrite { yaml, printer }
}

impl PendingWrite {
    /// The data file's content, for the caller to write.
    pub fn yaml(&self) -> (y: &String)
        ensures
            y@ == self@.yaml,
    {
        &self.yaml
    }

    /// Continue after the attempt to write the data file.
    pub fn proceed(self, outcome: WriteOutcome) -> (s: WriteStep)
        ensures
            s@ == write_step_spec(self@, outcome@),
    {
        match outcome {
            WriteOutcome::Written => WriteStep::Render(
                PendingRender { printer: self.printer },
            ),
            WriteOutcome::Failed { message } => WriteStep::Fail(
                HttpReply {
                    status: 500,
                    body: "Failed to write YAML: ".to_owned().concat(message.as_str()),
                },
            ),
        }
    }
}

impl PendingRender {
    /// Continue after the renderer run.
    pub fn proceed(self, outcome: RunOutcome) -> (s: RenderStep)
        ensures
            s@ == render_step_spec(self@, outcome@),
    {
        match outcome {
            RunOutcome::Exited { success, status_text } => {
                if success {
                    RenderStep::Dispatch(PendingDispatch { printer: self.printer })
                } else {
                    RenderStep::Fail(
                        HttpReply {
                            status: 500,
                            body: "typst exited with status: ".to_owned().concat(
                                status_text.as_str(),
                            ),
                        },
                    )
                }
            },
            RunOutcome::LaunchFailed { message } => RenderStep::Fail(
                HttpReply {
                    status: 500,
                    body: "Failed to run typst: ".to_owned().concat(message.as_str()),
                },
            ),
        }
    }
}

impl PendingDispatch {
    /// The printer the spooler is to be given.
    pub fn printer(&self) -> (p: &String)
        ensures
            p@ == self@.printer,
    {
        &self.printer
    }

    /// Answer the request after the spooler run.
    pub fn proceed(self, outcome: RunOutcome) -> (r: HttpReply)
        ensures
            r@ == dispatch_reply_spec(outcome@),
    {
        match outcome {
            RunOutcome::Exited { success, status_text } => {
                if success {
                    HttpReply { status: 200, body: "queued".to_owned() }
                } else {
                    HttpReply {
                        status: 500,
                        body: "lp exited with status: ".to_owned().concat(
                            status_text.as_str(),
                        ),
                    }
                }
            },
            RunOutcome::LaunchFailed { message } => HttpReply {
                status: 500,
                body: "Failed to run lp: ".to_owned().concat(message.as_str()),
            },
        }
    }
}

/// A job whose data write, render and dispatch all succeed is answered `200`
/// with body `queued`, whatever the request and the environment; the spooler
/// is handed the resolved target printer.
pub proof fn lemma_success_pipeline(
    req: RequestView,
    env: Option<Seq<char>>,
    w: WriteOutcomeView,
    r: RunOutcomeView,
    p: RunOutcomeView,
)
    requires
        w is Written,
        run_succeeded(r),
        run_succeeded(p),
    ensures
        write_step_spec(open_job_spec(req, env), w) matches WriteStepView::Render(j1)
            && render_step_spec(j1, r) matches RenderStepView::Dispatch(j2)
            && j2.printer == printer_of(env)
            && dispatch_reply_spec(p) == queued_reply(),
{
}

/// A failed render stops the pipeline: the step yields a `500` answer and no
/// dispatch ticket, so the spooler is never handed the job.
pub proof fn lemma_render_failure_stops(j: PendingRenderView, o: RunOutcomeView)
    requires
        !run_succeeded(o),
    ensures
        render_step_spec(j, o) matches RenderStepView::Fail(rep) && rep.status == 500,
{
}

/// Two sequences with a differing character inside both prefixes differ,
/// whatever follows either prefix.
proof fn lemma_prefix_differs(a: Seq<char>, x: Seq<char>, b: Seq<char>, y: Seq<char>, i: int)
    requires
        0 <= i < a.len(),
        i < b.len(),
        a[i] != b[i],
    ensures
        a + x != b + y,
{
    assert((a + x)[i] == a[i]);
    assert((b + y)[i] == b[i]);
}

/// A failed dispatch is answered `500`, and its body never reads like a
/// failed render's: whatever the two diagnostics, the bodies differ.
pub proof fn lemma_dispatch_failure_distinct(
    j: PendingRenderView,
    r: RunOutcomeView,
    p: RunOutcomeView,
)
    requires
        !run_succeeded(r),
        !run_succeeded(p),
    ensures
        dispatch_reply_spec(p).status == 500,
        render_step_spec(j, r) matches RenderStepView::Fail(rep)
            && rep.body != dispatch_reply_spec(p).body,
{
    reveal_strlit("typst exited with status: ");
    reveal_strlit("Failed to run typst: ");
    reveal_strlit("lp exited with status: ");
    reveal_strlit("Failed to run lp: ");
    match r {
        RunOutcomeView::Exited { success: _, status_text: rs } => {
            match p {
                RunOutcomeView::Exited { success: _, status_text: ps } => {
                    lemma_prefix_differs(
                        "typst exited with status: "@,
                        rs,
                        "lp exited with status: "@,
                        ps,
                        0,
                    );
                },
                RunOutcomeView::LaunchFailed { message: pm } => {
                    lemma_prefix_differs(
                        "typst exited with status: "@,
                        rs,
                        "Failed to run lp: "@,
                        pm,
                        0,
                    );
                },
            }
        },
        RunOutcomeView::LaunchFailed { message: rm } => {
            match p {
                RunOutcomeView::Exited { success: _, status_text: ps } => {
                    lemma_prefix_differs(
                        "Failed to run typst: "@,
                        rm,
                        "lp exited with status: "@,
                        ps,
                        0,
                    );
                },
                RunOutcomeView::LaunchFailed { message: pm } => {
                    lemma_prefix_differs(
                        "Failed to run typst: "@,
                        rm,
                        "Failed to run lp: "@,
                        pm,
                        14,
                    );
                },
            }
        },
    }
}

} // verus!
