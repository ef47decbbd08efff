//! The vocabulary between an operation and whoever carries it out: the
//! requests that an operation makes of the outside world, one at a time, and
//! the events that answer them.
//!
//! An operation never touches the outside world itself. Each of its steps
//! takes the event that answered its last request and gives back what to tell
//! the user, the next request, and the stage it has reached.

use crate::notice::{Notice, NoticeView};
use crate::text::{join, lemma_mentions_between, mentions};
use vstd::prelude::*;

verus! {

/// What a path was found to be.
#[derive(Clone, Copy, Debug, PartialEq, Eq, Structural)]
pub enum Presence {
    /// Nothing is there.
    Absent,
    /// A directory is there.
    Directory,
    /// Something other than a directory is there.
    File,
}

/// An external program and the arguments it is started with.
#[derive(Clone, Debug, PartialEq, Eq)]
pub struct Invocation {
    pub program: String,
    pub args: Vec<String>,
}

/// An invocation as contracts see it.
pub struct InvocationView {
    pub program: Seq<char>,
    pub args: Seq<Seq<char>>,
}

impl View for Invocation {
    type V = InvocationView;

    open spec fn view(&self) -> InvocationView {
        InvocationView { program: self.program@, args: self.args.deep_view() }
    }
}

impl DeepView for Invocation {
    type V = InvocationView;

    open spec fn deep_view(&self) -> InvocationView {
        self@
    }
}

/// The invocation of `program` with `args`.
pub open spec fn call(program: Seq<char>, args: Seq<Seq<char>>) -> InvocationView {
    InvocationView { program, args }
}

impl Invocation {
    /// The invocation of `program` with `args`.
    pub fn new(program: &str, args: Vec<&str>) -> (invocation: Invocation)
        ensures
            invocation@ == call(program@, args.deep_view()),
    {
        let mut owned: Vec<String> = Vec::new();
        let mut at: usize = 0;
        while at < args.len()
            invariant
                at <= args.len(),
                owned.len() == at,
                forall|k: int| 0 <= k < at ==> owned[k]@ == args[k]@,
            decreases args.len() - at,
        {
            owned.push(args[at].to_owned());
            at = at + 1;
        }
        assert(owned.deep_view() =~= args.deep_view());
        Invocation { program: program.to_owned(), args: owned }
    }
}

/// What an operation asks of the outside world.
#[derive(Clone, Debug, PartialEq, Eq)]
pub enum Request {
    /// Report what is at `path`. Answered by `Event::Probed`.
    Probe { path: String },
    /// Report whether `program` is on the search path. Answered by
    /// `Event::Located`.
    Locate { program: String },
    /// Create the directory `path`. Answered by `Event::Created`.
    CreateDir { path: String },
    /// Start the program and wait until it exits. Answered by `Event::Exited`,
    /// or by `Event::NotStarted`.
    Run(Invocation),
    /// Start the program, wait until it exits and keep what it wrote to its
    /// standard output. Answered by `Event::Captured`, or by
    /// `Event::NotStarted`.
    Capture(Invocation),
    /// Start the program and do not wait for it. Answered by `Event::Spawned`,
    /// or by `Event::NotStarted`.
    Spawn(Invocation),
    /// The operation is over; the process is to exit with `code`.
    Finish { code: i32 },
    /// The operation cannot go on; the process is to abort with `diagnostic`.
    Abort { diagnostic: String },
}

/// A request as contracts see it.
pub enum RequestView {
    Probe { path: Seq<char> },
    Locate { program: Seq<char> },
    CreateDir { path: Seq<char> },
    Run(InvocationView),
    Capture(InvocationView),
    Spawn(InvocationView),
    Finish { code: int },
    Abort { diagnostic: Seq<char> },
}

impl View for Request {
    type V = RequestView;

    open spec fn view(&self) -> RequestView {
        match self {
            Request::Probe { path } => RequestView::Probe { path: path@ },
            Request::Locate { program } => RequestView::Locate { program: program@ },
            Request::CreateDir { path } => RequestView::CreateDir { path: path@ },
            Request::Run(invocation) => RequestView::Run(invocation@),
            Request::Capture(invocation) => RequestView::Capture(invocation@),
            Request::Spawn(invocation) => RequestView::Spawn(invocation@),
            Request::Finish { code } => RequestView::Finish { code: *code as int },
            Request::Abort { diagnostic } => RequestView::Abort { diagnostic: diagnostic@ },
        }
    }
}

impl RequestView {
    /// Whether the request ends the operation.
    pub open spec fn is_final(self) -> bool {
        self is Finish || self is Abort
    }

    /// Whether carrying the request out may change what is on disk.
    pub open spec fn may_change_disk(self) -> bool {
        self is CreateDir || self is Run || self is Spawn
    }

    /// The invocation that the request starts, if it starts one.
    pub open spec fn invocation(self) -> Option<InvocationView> {
        match self {
            RequestView::Run(invocation) => Some(invocation),
            RequestView::Capture(invocation) => Some(invocation),
            RequestView::Spawn(invocation) => Some(invocation),
            _ => None,
        }
    }
}

/// What came of a request.
#[derive(Clone, Debug, PartialEq, Eq)]
pub enum Event {
    /// The operation was asked for; nothing has been requested yet.
    Begin,
    /// What was found at the probed path.
    Probed(Presence),
    /// Whether the program is on the search path.
    Located(bool),
    /// Whether the directory was created.
    Created(bool),
    /// The program ran and exited, successfully or not.
    Exited(bool),
    /// The program ran and exited, and this is what it wrote.
    Captured(String),
    /// The program was started.
    Spawned,
    /// The program could not be started.
    NotStarted,
}

/// An event as contracts see it.
pub enum EventView {
    Begin,
    Probed(Presence),
    Located(bool),
    Created(bool),
    Exited(bool),
    Captured(Seq<char>),
    Spawned,
    NotStarted,
}

impl View for Event {
    type V = EventView;

    open spec fn view(&self) -> EventView {
        match self {
            Event::Begin => EventView::Begin,
            Event::Probed(presence) => EventView::Probed(*presence),
            Event::Located(found) => EventView::Located(*found),
            Event::Created(done) => EventView::Created(*done),
            Event::Exited(success) => EventView::Exited(*success),
            Event::Captured(output) => EventView::Captured(output@),
            Event::Spawned => EventView::Spawned,
            Event::NotStarted => EventView::NotStarted,
        }
    }
}

/// Whether `event` is an answer to `request`.
pub open spec fn answers(event: EventView, request: RequestView) -> bool {
    match request {
        RequestView::Probe { .. } => event is Probed,
        RequestView::Locate { .. } => event is Located,
        RequestView::CreateDir { .. } => event is Created,
        RequestView::Run(_) => event is Exited || event is NotStarted,
        RequestView::Capture(_) => event is Captured || event is NotStarted,
        RequestView::Spawn(_) => event is Spawned || event is NotStarted,
        RequestView::Finish { .. } => false,
        RequestView::Abort { .. } => false,
    }
}

/// Whether `event` is an answer to what an operation is waiting for, where
/// `pending` is the request it made last and `None` stands for an operation
/// that has not begun.
pub open spec fn expected(event: EventView, pending: Option<RequestView>) -> bool {
    match pending {
        Some(request) => answers(event, request),
        None => event is Begin,
    }
}

/// Why a step could not be taken.
#[derive(Clone, Copy, Debug, PartialEq, Eq, Structural)]
pub enum Misstep {
    /// The operation is over: it waits for no event.
    Finished,
    /// The event does not answer the request that the operation made last.
    Unexpected,
}

/// What a step of an operation gives back.
#[derive(Clone, Debug, PartialEq, Eq)]
pub struct Step<S> {
    /// What to tell the user, in order.
    pub notices: Vec<Notice>,
    /// What to do next.
    pub request: Request,
    /// The stage that the operation has reached.
    pub stage: S,
}

/// A step as contracts see it.
pub struct StepView<S> {
    pub notices: Seq<NoticeView>,
    pub request: RequestView,
    pub stage: S,
}

impl<S> View for Step<S> {
    type V = StepView<S>;

    open spec fn view(&self) -> StepView<S> {
        StepView { notices: self.notices.deep_view(), request: self.request@, stage: self.stage }
    }
}

/// A step that tells the user nothing.
pub open spec fn quiet<S>(request: RequestView, stage: S) -> StepView<S> {
    StepView { notices: Seq::empty(), request, stage }
}

/// A step that tells the user one thing.
pub open spec fn telling<S>(notice: NoticeView, request: RequestView, stage: S) -> StepView<S> {
    StepView { notices: seq![notice], request, stage }
}

impl<S> Step<S> {
    /// A step that tells the user nothing.
    pub fn quiet(request: Request, stage: S) -> (step: Step<S>)
        ensures
            step@ == quiet(request@, stage),
    {
        let step = Step { notices: Vec::new(), request, stage };
        assert(step.notices.deep_view() =~= Seq::empty());
        step
    }

    /// A step that tells the user one thing.
    pub fn telling(notice: Notice, request: Request, stage: S) -> (step: Step<S>)
        ensures
            step@ == telling(notice@, request@, stage),
    {
        let mut notices: Vec<Notice> = Vec::new();
        notices.push(notice);
        assert(notices.deep_view() =~= seq![notice@]);
        Step { notices, request, stage }
    }
}

/// The diagnostic for a program that could not be started.
pub open spec fn launch_failure(program: Seq<char>) -> Seq<char> {
    "Failed to start "@ + program
}

/// The diagnostic for a program that could not be started names the program.
pub proof fn lemma_launch_failure_names_program(program: Seq<char>)
    ensures
        mentions(launch_failure(program), program),
{
    lemma_mentions_between("Failed to start "@, program, Seq::empty());
    assert("Failed to start "@ + program + Seq::<char>::empty() =~= launch_failure(program));
}

/// The request that aborts an operation because `program` could not be
/// started.
pub open spec fn abort_launch(program: Seq<char>) -> RequestView {
    RequestView::Abort { diagnostic: launch_failure(program) }
}

impl Request {
    /// The request that aborts an operation because `program` could not be
    /// started.
    pub fn abort_launch(program: &str) -> (request: Request)
        ensures
            request@ == abort_launch(program@),
    {
        Request::Abort { diagnostic: join("Failed to start ", program) }
    }
}

/// What an operation does on `event`, where `over` tells whether it is over,
/// `pending` is the request it made last, `advance` is the step it takes on an
/// answer that lets it go on, and `done` is the stage at which it is over.
///
/// An operation that is over takes no step, and none takes a step on an event
/// that does not answer its request. A program that could not be started
/// aborts the operation with a diagnostic that names the program. Any other
/// event moves the operation on.
pub open spec fn take_step<S>(
    over: bool,
    pending: Option<RequestView>,
    event: EventView,
    advance: StepView<S>,
    done: S,
) -> Result<StepView<S>, Misstep> {
    if over {
        Err(Misstep::Finished)
    } else if !expected(event, pending) {
        Err(Misstep::Unexpected)
    } else if event is NotStarted {
        Ok(quiet(abort_launch(pending.unwrap().invocation().unwrap().program), done))
    } else {
        Ok(advance)
    }
}

/// A step is taken exactly by an operation that is not over, on an event that
/// answers its request; and where the event is a program that could not be
/// started, the step aborts the operation, tells the user nothing more, and
/// its diagnostic names that program.
pub proof fn lemma_take_step<S>(
    over: bool,
    pending: Option<RequestView>,
    event: EventView,
    advance: StepView<S>,
    done: S,
)
    ensures
        take_step(over, pending, event, advance, done) is Ok <==> !over && expected(event, pending),
        take_step(over, pending, event, advance, done) == Err::<StepView<S>, Misstep>(
            Misstep::Finished,
        ) <==> over,
        take_step(over, pending, event, advance, done) matches Ok(step) ==> if event is NotStarted {
            let program = pending.unwrap().invocation().unwrap().program;
            &&& pending is Some
            &&& pending.unwrap().invocation() is Some
            &&& step == quiet(abort_launch(program), done)
            &&& mentions(step.request->diagnostic, program)
        } else {
            step == advance
        },
{
    if !over && expected(event, pending) && event is NotStarted {
        lemma_launch_failure_names_program(pending.unwrap().invocation().unwrap().program);
    }
}

/// Whether `result` is `model` as contracts see it.
pub open spec fn matches_model<S>(
    result: Result<Step<S>, Misstep>,
    model: Result<StepView<S>, Misstep>,
) -> bool {
    match result {
        Ok(step) => model == Ok::<StepView<S>, Misstep>(step@),
        Err(misstep) => model == Err::<StepView<S>, Misstep>(misstep),
    }
}

/// Asks `which::which` for `program`, which looks through the directories of
/// the search path for an executable file of that name. Nothing is claimed of
/// the answer: it depends on the search path and on what is on disk.
#[verifier::external_body]
fn found_on_search_path(program: &str) -> (found: bool) {
    which::which(program).is_ok()
}

/// The answer to a request to locate `program`.
pub fn locate(program: &str) -> (event: Event)
    ensures
        event@ is Located,
        answers(event@, RequestView::Locate { program: program@ }),
{
    Event::located(found_on_search_path(program))
}

impl Event {
    /// The answer to a request to locate a program, for a search that found
    /// it or did not.
    pub fn located(found: bool) -> (event: Event)
        ensures
            event@ == EventView::Located(found),
    {
        Event::Located(found)
    }
}

} // verus!
