//! Decisions of the display worker: the deadline of a dequeued request, what
//! a request shows, how failures are answered, and the eye-catch state.
use vstd::prelude::*;
use vstd::string::StringSliceAdditionalSpecFns;
use crate::display::{AnimFrame, DisplayError, DisplayLimit, DisplayMode};
use crate::config::Config;
use crate::error::Failure;
use crate::work::Stopped;
use crate::mime::{is_gif, is_gif_spec, resolve_display_mode, resolved_mode};
use crate::request::string_bytes;
pub use crate::request::DisplayRequest;

verus! {

/// A request may work until `now` plus the smaller of its duration and the
/// worker timeout; a cycle request has only the worker timeout. `None` when
/// that instant cannot be represented.
pub open spec fn request_deadline_for(now: u64, limit: DisplayLimit, worker_timeout_millis: u64) -> Option<u64> {
    let span = match limit {
        DisplayLimit::Duration { millis } => if millis <= worker_timeout_millis { millis } else { worker_timeout_millis },
        DisplayLimit::ScrollCycles { .. } => worker_timeout_millis,
    };
    if now + span > u64::MAX {
        None
    } else {
        Some((now + span) as u64)
    }
}

pub fn request_deadline(now: u64, limit: DisplayLimit, worker_timeout_millis: u64) -> (r: Option<u64>)
    ensures
        r == request_deadline_for(now, limit, worker_timeout_millis),
        limit is ScrollCycles ==> r == (if now + worker_timeout_millis <= u64::MAX {
            Some((now + worker_timeout_millis) as u64)
        } else {
            None::<u64>
        }),
        limit matches DisplayLimit::Duration { millis } ==> r == (if now + millis <= u64::MAX && millis
            <= worker_timeout_millis {
            Some((now + millis) as u64)
        } else if now + worker_timeout_millis <= u64::MAX && millis > worker_timeout_millis {
            Some((now + worker_timeout_millis) as u64)
        } else {
            None::<u64>
        }),
{
    let span = match limit {
        DisplayLimit::Duration { millis } => if millis <= worker_timeout_millis { millis } else { worker_timeout_millis },
        DisplayLimit::ScrollCycles { .. } => worker_timeout_millis,
    };
    now.checked_add(span)
}

/// The request deadline counts from dequeue: a request may work for the
/// smaller of its duration and the worker timeout; a cycle request for the
/// worker timeout, whatever its minimum display time (a lower bound on the
/// display, never the work deadline). `None` only when the instant does not
/// fit in 64 bits.
pub proof fn lemma_request_deadline(now: u64, limit: DisplayLimit, worker_timeout_millis: u64)
    ensures
        request_deadline_for(now, limit, worker_timeout_millis) matches Some(d) ==> now <= d <= now
            + worker_timeout_millis,
        limit is ScrollCycles && now + worker_timeout_millis <= u64::MAX ==> request_deadline_for(
            now,
            limit,
            worker_timeout_millis,
        ) == Some((now + worker_timeout_millis) as u64),
        limit matches DisplayLimit::Duration { millis } ==> (request_deadline_for(now, limit, worker_timeout_millis)
            matches Some(d) ==> d == now + millis || (d == now + worker_timeout_millis && millis
            > worker_timeout_millis)),
        limit matches DisplayLimit::Duration { millis } ==> (millis <= worker_timeout_millis && now + millis
            <= u64::MAX ==> request_deadline_for(now, limit, worker_timeout_millis) == Some((now + millis) as u64)),
        request_deadline_for(now, limit, worker_timeout_millis) is None ==> now + worker_timeout_millis > u64::MAX,
{
}

/// Two cycle requests with the same dequeue instant share their deadline,
/// whatever their cycle counts and minimum display times.
pub proof fn lemma_cycle_deadline_ignores_minimum(
    now: u64,
    cycles1: u32,
    min1: u64,
    cycles2: u32,
    min2: u64,
    worker_timeout_millis: u64,
)
    ensures
        request_deadline_for(
            now,
            DisplayLimit::ScrollCycles { cycles: cycles1, min_display_millis: min1 },
            worker_timeout_millis,
        ) == request_deadline_for(
            now,
            DisplayLimit::ScrollCycles { cycles: cycles2, min_display_millis: min2 },
            worker_timeout_millis,
        ),
{
}

/// What the main part of a request shows.
#[derive(Clone, Copy, Debug, PartialEq, Eq, Structural)]
pub enum MainPlan {
    /// A GIF, played as an animation for this long.
    Animation { display_millis: u64 },
    /// A still or scrolling image.
    Still { mode: DisplayMode },
}

/// GIFs animate for the requested duration (a cycle limit, which admission
/// refuses for GIFs, leaves only the request deadline); other images are
/// shown in the mode that the request and its MIME type resolve to.
pub open spec fn main_plan_for(req: DisplayRequest) -> MainPlan {
    if is_gif_spec(string_bytes(req.mime_type)) {
        MainPlan::Animation {
            display_millis: match req.limit {
                DisplayLimit::Duration { millis } => millis,
                DisplayLimit::ScrollCycles { .. } => u64::MAX,
            },
        }
    } else {
        MainPlan::Still { mode: resolved_mode(req.display_mode, string_bytes(req.mime_type)) }
    }
}

pub fn main_plan(req: &DisplayRequest) -> (r: MainPlan)
    ensures
        r == main_plan_for(*req),
{
    if is_gif(req.mime_type.as_str()) {
        let display_millis = match req.limit {
            DisplayLimit::Duration { millis } => millis,
            DisplayLimit::ScrollCycles { .. } => u64::MAX,
        };
        MainPlan::Animation { display_millis }
    } else {
        MainPlan::Still { mode: resolve_display_mode(req.display_mode, req.mime_type.as_str()) }
    }
}

/// How the worker answers the end of a request.
#[derive(Clone, Copy, Debug, PartialEq, Eq, Structural)]
pub enum Outcome {
    /// The display finished.
    Displayed,
    /// The worker stops: the window closed or shutdown was requested.
    StopWorker,
    /// The request ran out of time (or was stopped) and is dropped.
    DeadlineExceeded,
    /// The request failed and is dropped; the next one is served.
    Failed,
}

/// What kind of failure ended a request, as the worker tells them apart.
#[derive(Clone, Copy, Debug, PartialEq, Eq, Structural)]
pub enum FailureKind {
    WindowClosed,
    Stopped,
    Other,
}

pub open spec fn failure_kind_of(f: Failure) -> FailureKind {
    match f {
        Failure::Display(DisplayError::WindowClosed(_)) => FailureKind::WindowClosed,
        Failure::Stopped(_) => FailureKind::Stopped,
        _ => FailureKind::Other,
    }
}

pub fn failure_kind(f: &Failure) -> (r: FailureKind)
    ensures
        r == failure_kind_of(*f),
{
    match f {
        Failure::Display(DisplayError::WindowClosed(_)) => FailureKind::WindowClosed,
        Failure::Stopped(_) => FailureKind::Stopped,
        _ => FailureKind::Other,
    }
}

/// A closed window stops the worker, and so does any failure once shutdown
/// was requested; otherwise a stop or a failure at or past the deadline
/// counts as an exceeded deadline, and anything else as a failed request.
pub open spec fn outcome_for(result: Option<FailureKind>, cancelled: bool, now: u64, deadline: u64) -> Outcome {
    match result {
        None => Outcome::Displayed,
        Some(FailureKind::WindowClosed) => Outcome::StopWorker,
        Some(kind) => if cancelled {
            Outcome::StopWorker
        } else if kind == FailureKind::Stopped || now >= deadline {
            Outcome::DeadlineExceeded
        } else {
            Outcome::Failed
        },
    }
}

/// `result` is `None` for a successful display, else the kind of failure.
pub fn request_outcome(result: Option<FailureKind>, cancelled: bool, now: u64, deadline: u64) -> (r: Outcome)
    ensures
        r == outcome_for(result, cancelled, now, deadline),
{
    match result {
        None => Outcome::Displayed,
        Some(FailureKind::WindowClosed) => Outcome::StopWorker,
        Some(kind) => {
            if cancelled {
                Outcome::StopWorker
            } else if kind == FailureKind::Stopped || now >= deadline {
                Outcome::DeadlineExceeded
            } else {
                Outcome::Failed
            }
        },
    }
}

/// A closed window while idle stops the worker; other poll errors are failures.
pub fn idle_poll_stops(err: &DisplayError) -> (r: bool)
    ensures
        r <==> err is WindowClosed,
{
    match err {
        DisplayError::WindowClosed(_) => true,
        DisplayError::Backend(_) => false,
    }
}

/// How an eye-catch failure is treated.
#[derive(Clone, Copy, Debug, PartialEq, Eq, Structural)]
pub enum EyecatchFailure {
    /// A closed window ends the request.
    Propagate,
    /// Logged; the request continues.
    Warn,
    /// The eye-catch time ran out; the request continues silently.
    Ignore,
}

pub fn eyecatch_failure(f: &Failure) -> (r: EyecatchFailure)
    ensures
        failure_kind_of(*f) == FailureKind::WindowClosed ==> r == EyecatchFailure::Propagate,
        failure_kind_of(*f) == FailureKind::Stopped ==> r == EyecatchFailure::Ignore,
        failure_kind_of(*f) == FailureKind::Other ==> r == EyecatchFailure::Warn,
{
    match failure_kind(f) {
        FailureKind::WindowClosed => EyecatchFailure::Propagate,
        FailureKind::Stopped => EyecatchFailure::Ignore,
        FailureKind::Other => EyecatchFailure::Warn,
    }
}

/// A path setting counts when it is present and not empty.
pub open spec fn path_set(path: Option<String>) -> bool {
    path matches Some(p) && p@.len() > 0
}

pub fn configured(path: &Option<String>) -> (r: bool)
    ensures
        r == path_set(*path),
{
    match path {
        Some(p) => !p.as_str().is_empty(),
        None => false,
    }
}

/// The eye-catch GIF is loaded once, lazily, by the first request; its
/// decoding counts against that request's budget.
pub struct EyecatchState {
    pub loaded: bool,
    pub frames: Option<Vec<AnimFrame>>,
}

impl EyecatchState {
    pub fn new() -> (r: EyecatchState)
        ensures
            !r.loaded,
            r.frames is None,
    {
        EyecatchState { loaded: false, frames: None }
    }

}

/// Where a request is in its processing.
#[derive(Clone, Copy, Debug, PartialEq, Eq, Structural)]
pub enum RequestStage {
    /// Nothing done yet.
    Begin,
    /// The first work check.
    FirstCheck,
    /// The eye-catch GIF is being read and decoded.
    Loading,
    /// The work check after the eye-catch was read.
    LoadCheck,
    /// The work check before the jingle.
    JingleCheck,
    /// The jingle is being started.
    Jingle,
    /// The eye-catch is being shown.
    Eyecatch,
    /// The display is being cleared after the eye-catch.
    Clearing,
    /// The work check before the main image.
    MainCheck,
    /// The main image was handed over, or the request failed.
    Finished,
}

/// The progress of one request through its steps.
#[derive(Debug)]
pub struct RequestProgress {
    pub stage: RequestStage,
    /// The eye-catch frames that were read, kept until the work check after
    /// reading lets them be stored.
    pub pending: Option<Vec<AnimFrame>>,
}

/// How the step that was asked for went.
#[derive(Debug)]
pub enum StepEvent {
    /// It was carried out (and the first call of a request).
    Proceed,
    /// The answer of a work check.
    Checked(Result<(), Stopped>),
    /// The eye-catch frames, `None` when reading or decoding failed.
    EyecatchRead(Option<Vec<AnimFrame>>),
    /// How showing the eye-catch ended.
    EyecatchShown(Result<(), Failure>),
    /// How clearing the display ended.
    Cleared(Result<(), DisplayError>),
}

/// What the worker does next for a request.
#[derive(Debug)]
pub enum RequestStep {
    /// Check the request work for shutdown and its deadline.
    CheckWork,
    /// Read and decode the eye-catch GIF within the request work.
    LoadEyecatch,
    /// Start the jingle.
    PlayJingle,
    /// Show the stored eye-catch for `millis`, under the request work narrowed
    /// to that span.
    ShowEyecatch { millis: u64 },
    /// Clear the display.
    ClearDisplay,
    /// Decode and show the main image as planned, within the request work.
    ShowMain(MainPlan),
    /// The request ends with this failure.
    Fail(Failure),
    /// Nothing is left to do.
    Finished,
}

/// The stop that a failed work check reports.
pub open spec fn check_failed(event: StepEvent) -> Option<Stopped> {
    match event {
        StepEvent::Checked(Err(s)) => Some(s),
        _ => None,
    }
}

fn stop_of(event: &StepEvent) -> (r: Option<Stopped>)
    ensures
        r == check_failed(*event),
{
    match event {
        StepEvent::Checked(Err(s)) => Some(*s),
        _ => None,
    }
}

/// The request ends: with the failure when there is one, the eye-catch state
/// as it is.
pub open spec fn finish_with(eyecatch: EyecatchState, step: RequestStep) -> (RequestProgress, EyecatchState, RequestStep) {
    (RequestProgress { stage: RequestStage::Finished, pending: None }, eyecatch, step)
}

/// Go on to `stage` with `step`.
pub open spec fn go_on(stage: RequestStage, eyecatch: EyecatchState, step: RequestStep) -> (RequestProgress, EyecatchState, RequestStep) {
    (RequestProgress { stage, pending: None }, eyecatch, step)
}

/// After the jingle: a stored eye-catch with a positive duration is shown,
/// else the work is checked before the main image.
pub open spec fn eyecatch_or_main(eyecatch: EyecatchState, cfg: Config) -> (RequestProgress, EyecatchState, RequestStep) {
    if eyecatch.frames is Some && cfg.eyecatch_duration_millis > 0 {
        go_on(RequestStage::Eyecatch, eyecatch, RequestStep::ShowEyecatch { millis: cfg.eyecatch_duration_millis })
    } else {
        go_on(RequestStage::MainCheck, eyecatch, RequestStep::CheckWork)
    }
}

/// The steps of a request: a work check; the eye-catch is read once, by the
/// first request after start (a stop right after reading leaves it for the
/// next one), and a failure to read it only leaves it out; a work check; the
/// jingle when one is configured; the stored eye-catch when its duration is
/// positive, where only a closed window ends the request, and then a clear; a
/// work check; the main image. A failed work check ends the request with its
/// stop.
pub open spec fn request_step_for(
    p: RequestProgress,
    eyecatch: EyecatchState,
    cfg: Config,
    req: DisplayRequest,
    event: StepEvent,
) -> (RequestProgress, EyecatchState, RequestStep) {
    match p.stage {
        RequestStage::Begin => go_on(RequestStage::FirstCheck, eyecatch, RequestStep::CheckWork),
        RequestStage::FirstCheck => match check_failed(event) {
            Some(s) => finish_with(eyecatch, RequestStep::Fail(Failure::Stopped(s))),
            None => if eyecatch.loaded {
                go_on(RequestStage::JingleCheck, eyecatch, RequestStep::CheckWork)
            } else if path_set(cfg.eyecatch_path) {
                go_on(RequestStage::Loading, eyecatch, RequestStep::LoadEyecatch)
            } else {
                go_on(
                    RequestStage::JingleCheck,
                    EyecatchState { loaded: true, frames: eyecatch.frames },
                    RequestStep::CheckWork,
                )
            },
        },
        RequestStage::Loading => (
            RequestProgress {
                stage: RequestStage::LoadCheck,
                pending: match event {
                    StepEvent::EyecatchRead(frames) => frames,
                    _ => None,
                },
            },
            eyecatch,
            RequestStep::CheckWork,
        ),
        RequestStage::LoadCheck => match check_failed(event) {
            Some(s) => finish_with(eyecatch, RequestStep::Fail(Failure::Stopped(s))),
            None => go_on(
                RequestStage::JingleCheck,
                EyecatchState { loaded: true, frames: if p.pending is Some { p.pending } else { eyecatch.frames } },
                RequestStep::CheckWork,
            ),
        },
        RequestStage::JingleCheck => match check_failed(event) {
            Some(s) => finish_with(eyecatch, RequestStep::Fail(Failure::Stopped(s))),
            None => if path_set(cfg.jingle_path) {
                go_on(RequestStage::Jingle, eyecatch, RequestStep::PlayJingle)
            } else {
                eyecatch_or_main(eyecatch, cfg)
            },
        },
        RequestStage::Jingle => eyecatch_or_main(eyecatch, cfg),
        RequestStage::Eyecatch => match event {
            StepEvent::EyecatchShown(Err(f)) => if failure_kind_of(f) == FailureKind::WindowClosed {
                finish_with(eyecatch, RequestStep::Fail(f))
            } else {
                go_on(RequestStage::Clearing, eyecatch, RequestStep::ClearDisplay)
            },
            _ => go_on(RequestStage::Clearing, eyecatch, RequestStep::ClearDisplay),
        },
        RequestStage::Clearing => match event {
            StepEvent::Cleared(Err(e)) => finish_with(eyecatch, RequestStep::Fail(Failure::Display(e))),
            _ => go_on(RequestStage::MainCheck, eyecatch, RequestStep::CheckWork),
        },
        RequestStage::MainCheck => match check_failed(event) {
            Some(s) => finish_with(eyecatch, RequestStep::Fail(Failure::Stopped(s))),
            None => finish_with(eyecatch, RequestStep::ShowMain(main_plan_for(req))),
        },
        RequestStage::Finished => finish_with(eyecatch, RequestStep::Finished),
    }
}

impl RequestProgress {
    pub fn new() -> (r: RequestProgress)
        ensures
            r.stage == RequestStage::Begin,
            r.pending is None,
    {
        RequestProgress { stage: RequestStage::Begin, pending: None }
    }

    /// Take what the last step reported and say what comes next; the
    /// eye-catch state is updated on the way.
    pub fn next(
        &mut self,
        eyecatch: &mut EyecatchState,
        cfg: &Config,
        req: &DisplayRequest,
        event: StepEvent,
    ) -> (r: RequestStep)
        ensures
            (*final(self), *final(eyecatch), r) == request_step_for(*old(self), *old(eyecatch), *cfg, *req, event),
    {
        let stop = stop_of(&event);
        match self.stage {
            RequestStage::Begin => {
                self.stage = RequestStage::FirstCheck;
                self.pending = None;
                RequestStep::CheckWork
            },
            RequestStage::FirstCheck => {
                self.pending = None;
                if let Some(s) = stop {
                    self.stage = RequestStage::Finished;
                    return RequestStep::Fail(Failure::Stopped(s));
                }
                if eyecatch.loaded {
                    self.stage = RequestStage::JingleCheck;
                    RequestStep::CheckWork
                } else if configured(&cfg.eyecatch_path) {
                    self.stage = RequestStage::Loading;
                    RequestStep::LoadEyecatch
                } else {
                    eyecatch.loaded = true;
                    self.stage = RequestStage::JingleCheck;
                    RequestStep::CheckWork
                }
            },
            RequestStage::Loading => {
                self.stage = RequestStage::LoadCheck;
                self.pending = match event {
                    StepEvent::EyecatchRead(frames) => frames,
                    _ => None,
                };
                RequestStep::CheckWork
            },
            RequestStage::LoadCheck => {
                let mut pending: Option<Vec<AnimFrame>> = None;
                std::mem::swap(&mut pending, &mut self.pending);
                if let Some(s) = stop {
                    self.stage = RequestStage::Finished;
                    return RequestStep::Fail(Failure::Stopped(s));
                }
                if pending.is_some() {
                    eyecatch.frames = pending;
                }
                eyecatch.loaded = true;
                self.stage = RequestStage::JingleCheck;
                RequestStep::CheckWork
            },
            RequestStage::JingleCheck => {
                self.pending = None;
                if let Some(s) = stop {
                    self.stage = RequestStage::Finished;
                    return RequestStep::Fail(Failure::Stopped(s));
                }
                if configured(&cfg.jingle_path) {
                    self.stage = RequestStage::Jingle;
                    RequestStep::PlayJingle
                } else {
                    self.eyecatch_or_main(eyecatch, cfg)
                }
            },
            RequestStage::Jingle => {
                self.pending = None;
                self.eyecatch_or_main(eyecatch, cfg)
            },
            RequestStage::Eyecatch => {
                self.pending = None;
                match event {
                    StepEvent::EyecatchShown(Err(f)) => {
                        if eyecatch_failure(&f) == EyecatchFailure::Propagate {
                            self.stage = RequestStage::Finished;
                            return RequestStep::Fail(f);
                        }
                    },
                    _ => {},
                }
                self.stage = RequestStage::Clearing;
                RequestStep::ClearDisplay
            },
            RequestStage::Clearing => {
                self.pending = None;
                match event {
                    StepEvent::Cleared(Err(e)) => {
                        self.stage = RequestStage::Finished;
                        RequestStep::Fail(Failure::Display(e))
                    },
                    _ => {
                        self.stage = RequestStage::MainCheck;
                        RequestStep::CheckWork
                    },
                }
            },
            RequestStage::MainCheck => {
                self.pending = None;
                self.stage = RequestStage::Finished;
                match stop {
                    Some(s) => RequestStep::Fail(Failure::Stopped(s)),
                    None => RequestStep::ShowMain(main_plan(req)),
                }
            },
            RequestStage::Finished => {
                self.pending = None;
                RequestStep::Finished
            },
        }
    }

    fn eyecatch_or_main(&mut self, eyecatch: &EyecatchState, cfg: &Config) -> (r: RequestStep)
        ensures
            (*final(self), *eyecatch, r) == eyecatch_or_main(*eyecatch, *cfg),
    {
        self.pending = None;
        if eyecatch.frames.is_some() && cfg.eyecatch_duration_millis > 0 {
            self.stage = RequestStage::Eyecatch;
            RequestStep::ShowEyecatch { millis: cfg.eyecatch_duration_millis }
        } else {
            self.stage = RequestStage::MainCheck;
            RequestStep::CheckWork
        }
    }
}

/// The eye-catch file is read whole, and no larger than a request payload.
pub const MAX_EYECATCH_FILE_BYTES: u64 = 4_194_304;

/// Why an eye-catch file was not read.
#[derive(Clone, Copy, Debug, PartialEq, Eq, Structural)]
pub enum EyecatchFileError {
    /// The path does not name a regular file.
    NotAFile,
    /// The file exceeds `MAX_EYECATCH_FILE_BYTES`.
    TooLarge,
}

/// A regular file within the size limit may be read.
pub fn check_eyecatch_file(is_file: bool, len: u64) -> (r: Result<(), EyecatchFileError>)
    ensures
        !is_file ==> r == Err::<(), EyecatchFileError>(EyecatchFileError::NotAFile),
        is_file && len > MAX_EYECATCH_FILE_BYTES ==> r == Err::<(), EyecatchFileError>(EyecatchFileError::TooLarge),
        is_file && len <= MAX_EYECATCH_FILE_BYTES ==> r is Ok,
{
    if !is_file {
        Err(EyecatchFileError::NotAFile)
    } else if len > MAX_EYECATCH_FILE_BYTES {
        Err(EyecatchFileError::TooLarge)
    } else {
        Ok(())
    }
}

/// Append a chunk that was read, unless the data would exceed the limit;
/// the file may have grown since its size was checked.
pub fn append_chunk(data: &mut Vec<u8>, chunk: &[u8]) -> (r: Result<(), EyecatchFileError>)
    ensures
        old(data)@.len() + chunk@.len() <= MAX_EYECATCH_FILE_BYTES ==> r is Ok && final(data)@ == old(data)@ + chunk@,
        old(data)@.len() + chunk@.len() > MAX_EYECATCH_FILE_BYTES ==> r == Err::<(), EyecatchFileError>(
            EyecatchFileError::TooLarge,
        ) && final(data)@ == old(data)@,
{
    if chunk.len() > 4_194_304 || data.len() > 4_194_304 - chunk.len() {
        return Err(EyecatchFileError::TooLarge);
    }
    let ghost before = data@;
    data.extend_from_slice(chunk);
    assert(data@ =~= before + chunk@);
    Ok(())
}


/// A failed work check ends the request with its stop, whichever check it was.
pub proof fn lemma_failed_check_ends_request(
    p: RequestProgress,
    eyecatch: EyecatchState,
    cfg: Config,
    req: DisplayRequest,
    s: Stopped,
)
    requires
        p.stage == RequestStage::FirstCheck || p.stage == RequestStage::LoadCheck || p.stage
            == RequestStage::JingleCheck || p.stage == RequestStage::MainCheck,
    ensures
        request_step_for(p, eyecatch, cfg, req, StepEvent::Checked(Err(s))) == finish_with(
            eyecatch,
            RequestStep::Fail(Failure::Stopped(s)),
        ),
{
}

/// The main image is shown only right after a passing work check, and as
/// `main_plan` plans it.
pub proof fn lemma_main_image_follows_plan(
    p: RequestProgress,
    eyecatch: EyecatchState,
    cfg: Config,
    req: DisplayRequest,
    event: StepEvent,
)
    ensures
        request_step_for(p, eyecatch, cfg, req, event).2 matches RequestStep::ShowMain(plan) ==> {
            &&& plan == main_plan_for(req)
            &&& p.stage == RequestStage::MainCheck
            &&& check_failed(event) is None
        },
{
}

/// The eye-catch is shown only when it is stored and its duration is
/// positive, for that duration; the eye-catch GIF is read only when it was
/// never loaded and a path is configured. Once loaded, the eye-catch state
/// stays loaded, and stored frames stay stored.
pub proof fn lemma_eyecatch_conditions(
    p: RequestProgress,
    eyecatch: EyecatchState,
    cfg: Config,
    req: DisplayRequest,
    event: StepEvent,
)
    ensures
        ({
            let (q, e, step) = request_step_for(p, eyecatch, cfg, req, event);
            &&& step matches RequestStep::ShowEyecatch { millis } ==> {
                &&& millis == cfg.eyecatch_duration_millis
                &&& millis > 0
                &&& eyecatch.frames is Some
                &&& q.stage == RequestStage::Eyecatch
            }
            &&& step is LoadEyecatch ==> !eyecatch.loaded && path_set(cfg.eyecatch_path)
            &&& eyecatch.loaded ==> e.loaded
            &&& eyecatch.frames is Some ==> e.frames is Some
        }),
{
}

/// While the eye-catch is shown, only a closed window ends the request; any
/// other ending, a stop at the eye-catch deadline or shutdown among them,
/// goes on to clear the display.
pub proof fn lemma_eyecatch_ending(
    p: RequestProgress,
    eyecatch: EyecatchState,
    cfg: Config,
    req: DisplayRequest,
    event: StepEvent,
)
    requires
        p.stage == RequestStage::Eyecatch,
    ensures
        ({
            let (q, e, step) = request_step_for(p, eyecatch, cfg, req, event);
            match event {
                StepEvent::EyecatchShown(Err(f)) if failure_kind_of(f) == FailureKind::WindowClosed =>
                    step == RequestStep::Fail(f) && q.stage == RequestStage::Finished,
                _ => step == RequestStep::ClearDisplay && q.stage == RequestStage::Clearing,
            }
        }),
{
}

/// The steps of a request for the events reported in turn, each with the
/// eye-catch state after it.
pub open spec fn run_steps(
    p: RequestProgress,
    eyecatch: EyecatchState,
    cfg: Config,
    req: DisplayRequest,
    events: Seq<StepEvent>,
) -> Seq<(RequestStep, EyecatchState)>
    decreases events.len(),
{
    if events.len() == 0 {
        Seq::empty()
    } else {
        let (q, e, step) = request_step_for(p, eyecatch, cfg, req, events[0]);
        seq![(step, e)] + run_steps(q, e, cfg, req, events.drop_first())
    }
}

/// The stages before the eye-catch decision.
pub open spec fn before_eyecatch(stage: RequestStage) -> bool {
    stage == RequestStage::Begin || stage == RequestStage::FirstCheck || stage == RequestStage::Loading
        || stage == RequestStage::LoadCheck || stage == RequestStage::JingleCheck || stage == RequestStage::Jingle
}

proof fn lemma_run_len(p: RequestProgress, eyecatch: EyecatchState, cfg: Config, req: DisplayRequest, events: Seq<StepEvent>)
    ensures
        run_steps(p, eyecatch, cfg, req, events).len() == events.len(),
    decreases events.len(),
{
    if events.len() > 0 {
        let (q, e, step) = request_step_for(p, eyecatch, cfg, req, events[0]);
        lemma_run_len(q, e, cfg, req, events.drop_first());
    }
}

/// After the eye-catch decision, the eye-catch state no longer changes, and
/// a finished request only reports that it is finished.
proof fn lemma_after_decision(
    p: RequestProgress,
    eyecatch: EyecatchState,
    cfg: Config,
    req: DisplayRequest,
    events: Seq<StepEvent>,
    k: int,
)
    requires
        !before_eyecatch(p.stage),
        0 <= k < events.len(),
    ensures
        run_steps(p, eyecatch, cfg, req, events)[k].1 == eyecatch,
        p.stage == RequestStage::Finished ==> run_steps(p, eyecatch, cfg, req, events)[k].0 == RequestStep::Finished,
    decreases events.len(),
{
    let (q, e, step) = request_step_for(p, eyecatch, cfg, req, events[0]);
    lemma_run_len(q, e, cfg, req, events.drop_first());
    if k > 0 {
        lemma_after_decision(q, e, cfg, req, events.drop_first(), k - 1);
    }
}

/// From the start of the eye-catch, the main image comes only after the
/// display was cleared.
proof fn lemma_clear_before_main(
    p: RequestProgress,
    eyecatch: EyecatchState,
    cfg: Config,
    req: DisplayRequest,
    events: Seq<StepEvent>,
    k: int,
)
    requires
        p.stage == RequestStage::Eyecatch,
        0 <= k < events.len(),
        run_steps(p, eyecatch, cfg, req, events)[k].0 is ShowMain,
    ensures
        run_steps(p, eyecatch, cfg, req, events)[0].0 == RequestStep::ClearDisplay,
        k > 0,
{
    let (q, e, step) = request_step_for(p, eyecatch, cfg, req, events[0]);
    lemma_run_len(q, e, cfg, req, events.drop_first());
    if q.stage == RequestStage::Finished && k > 0 {
        lemma_after_decision(q, e, cfg, req, events.drop_first(), k - 1);
    }
}

/// Whenever a request reaches its main image with an eye-catch stored and a
/// positive eye-catch duration (the eye-catch may have been read by this very
/// request), the eye-catch was shown for that duration before it, and the
/// display was cleared between the two.
pub proof fn lemma_eyecatch_before_main(
    p: RequestProgress,
    eyecatch: EyecatchState,
    cfg: Config,
    req: DisplayRequest,
    events: Seq<StepEvent>,
    k: int,
)
    requires
        before_eyecatch(p.stage),
        0 <= k < events.len(),
        run_steps(p, eyecatch, cfg, req, events)[k].0 is ShowMain,
        run_steps(p, eyecatch, cfg, req, events)[k].1.frames is Some,
        cfg.eyecatch_duration_millis > 0,
    ensures
        exists|j: int, i: int|
            0 <= j < i < k && run_steps(p, eyecatch, cfg, req, events)[j].0 == (RequestStep::ShowEyecatch {
                millis: cfg.eyecatch_duration_millis,
            }) && run_steps(p, eyecatch, cfg, req, events)[i].0 == RequestStep::ClearDisplay,
    decreases events.len(),
{
    let run = run_steps(p, eyecatch, cfg, req, events);
    let rest = events.drop_first();
    let (q, e, step) = request_step_for(p, eyecatch, cfg, req, events[0]);
    lemma_run_len(q, e, cfg, req, rest);
    assert(run[0].0 == step);
    assert(forall|n: int| 0 <= n < rest.len() ==> run[n + 1] == run_steps(q, e, cfg, req, rest)[n]);
    if before_eyecatch(q.stage) {
        lemma_eyecatch_before_main(q, e, cfg, req, rest, k - 1);
        let (j, i) = choose|j: int, i: int|
            0 <= j < i < k - 1 && run_steps(q, e, cfg, req, rest)[j].0 == (RequestStep::ShowEyecatch {
                millis: cfg.eyecatch_duration_millis,
            }) && run_steps(q, e, cfg, req, rest)[i].0 == RequestStep::ClearDisplay;
        assert(run[j + 1].0 == RequestStep::ShowEyecatch { millis: cfg.eyecatch_duration_millis });
        assert(run[i + 1].0 == RequestStep::ClearDisplay);
    } else if q.stage == RequestStage::Eyecatch {
        lemma_clear_before_main(q, e, cfg, req, rest, k - 1);
        assert(run[1].0 == RequestStep::ClearDisplay);
    } else {
        // The decision left the eye-catch out, or the request failed; the
        // eye-catch state stays as it was decided.
        lemma_after_decision(q, e, cfg, req, rest, k - 1);
    }
}

} // verus!
