//! What a flow asks of its caller, and what the caller answers.
//!
//! Nothing here touches the disk, the console, the registry or a child
//! process. A flow hands out one [`Step`] at a time; the caller prints what
//! the step says, carries out its request and answers with a [`Reply`].

use vstd::prelude::*;

verus! {

/// One thing for the caller to do.
#[derive(Debug, Clone, PartialEq, Eq)]
pub enum Request {
    /// Read the file at `path` as text. Answer: [`Reply::Text`], with no
    /// text where the file cannot be read.
    ReadFile { path: String },
    /// Find out whether `path` exists on disk. Answer: [`Reply::Flag`].
    Exists { path: String },
    /// Find out, for each of `paths`, whether it exists on disk. Answer:
    /// [`Reply::Flags`], one flag for each path, in order.
    Probe { paths: Vec<String> },
    /// Read one line from standard input. Answer: [`Reply::Text`], with no
    /// text where reading fails.
    ReadLine,
    /// Replace the content of the file at `path` by `text`. Answer:
    /// [`Reply::Done`].
    WriteFile { path: String, text: String },
    /// Create the directory `path` and the missing ones above it. Answer:
    /// [`Reply::Done`].
    CreateDirs { path: String },
    /// Read the user's persistent `PATH`. Answer: [`Reply::Text`], with no
    /// text where the value is not set, or [`Reply::Failed`] where the
    /// user's environment cannot be opened.
    ReadUserPath,
    /// Store `value` as the user's persistent `PATH`. Answer:
    /// [`Reply::Done`].
    WriteUserPath { value: String },
    /// Run `program` with `args` and wait for it to end. Where `attached`
    /// holds the child takes over the console; else its output is
    /// collected. Answer: [`Reply::Exit`], or [`Reply::Failed`] where the
    /// program cannot be started.
    Run { program: String, args: Vec<String>, attached: bool },
    /// Nothing more: the flow is over and the process ends with `code`.
    Stop { code: u8 },
}

/// The mathematical content of a [`Request`].
pub enum RequestView {
    ReadFile { path: Seq<char> },
    Exists { path: Seq<char> },
    Probe { paths: Seq<Seq<char>> },
    ReadLine,
    WriteFile { path: Seq<char>, text: Seq<char> },
    CreateDirs { path: Seq<char> },
    ReadUserPath,
    WriteUserPath { value: Seq<char> },
    Run { program: Seq<char>, args: Seq<Seq<char>>, attached: bool },
    Stop { code: u8 },
}

impl View for Request {
    type V = RequestView;

    open spec fn view(&self) -> RequestView {
        match *self {
            Request::ReadFile { path } => RequestView::ReadFile { path: path@ },
            Request::Exists { path } => RequestView::Exists { path: path@ },
            Request::Probe { paths } => RequestView::Probe { paths: paths.deep_view() },
            Request::ReadLine => RequestView::ReadLine,
            Request::WriteFile { path, text } => RequestView::WriteFile {
                path: path@,
                text: text@,
            },
            Request::CreateDirs { path } => RequestView::CreateDirs { path: path@ },
            Request::ReadUserPath => RequestView::ReadUserPath,
            Request::WriteUserPath { value } => RequestView::WriteUserPath { value: value@ },
            Request::Run { program, args, attached } => RequestView::Run {
                program: program@,
                args: args.deep_view(),
                attached,
            },
            Request::Stop { code } => RequestView::Stop { code },
        }
    }
}

/// The caller's answer to a [`Request`].
#[derive(Debug, Clone, PartialEq, Eq)]
pub enum Reply {
    /// The text that was read, if any.
    Text(Option<String>),
    /// Whether the path exists.
    Flag(bool),
    /// Whether each path exists.
    Flags(Vec<bool>),
    /// Whether the write went through.
    Done(bool),
    /// How the program ended, and what it wrote to its standard output and
    /// standard error where these were collected.
    Exit { success: bool, out: String, err: String },
    /// The request could not be carried out at all.
    Failed,
}

/// The mathematical content of a [`Reply`].
pub enum ReplyView {
    Text(Option<Seq<char>>),
    Flag(bool),
    Flags(Seq<bool>),
    Done(bool),
    Exit { success: bool, out: Seq<char>, err: Seq<char> },
    Failed,
}

impl View for Reply {
    type V = ReplyView;

    open spec fn view(&self) -> ReplyView {
        match *self {
            Reply::Text(text) => ReplyView::Text(text.deep_view()),
            Reply::Flag(flag) => ReplyView::Flag(flag),
            Reply::Flags(flags) => ReplyView::Flags(flags@),
            Reply::Done(ok) => ReplyView::Done(ok),
            Reply::Exit { success, out, err } => ReplyView::Exit { success, out: out@, err: err@ },
            Reply::Failed => ReplyView::Failed,
        }
    }
}

/// What a flow hands its caller: text for standard output, text for
/// standard error, and then a request.
#[derive(Debug, Clone, PartialEq, Eq)]
pub struct Step {
    pub say: String,
    pub complain: String,
    pub request: Request,
}

/// The mathematical content of a [`Step`].
pub struct StepView {
    pub say: Seq<char>,
    pub complain: Seq<char>,
    pub request: RequestView,
}

impl View for Step {
    type V = StepView;

    open spec fn view(&self) -> StepView {
        StepView { say: self.say@, complain: self.complain@, request: self.request@ }
    }
}

impl StepView {
    /// The step that says nothing and asks for `request`.
    pub open spec fn ask(request: RequestView) -> StepView {
        StepView { say: Seq::empty(), complain: Seq::empty(), request }
    }

    /// The step that prints `say` and asks for `request`.
    pub open spec fn tell(say: Seq<char>, request: RequestView) -> StepView {
        StepView { say, complain: Seq::empty(), request }
    }

    /// The step that ends the flow with `code`, after `say` on standard
    /// output and `complain` on standard error.
    pub open spec fn stop(say: Seq<char>, complain: Seq<char>, code: u8) -> StepView {
        StepView { say, complain, request: RequestView::Stop { code } }
    }
}

impl Step {
    /// The step that says nothing and asks for `request`.
    pub fn ask(request: Request) -> (r: Step)
        ensures
            r@ == StepView::ask(request@),
    {
        Step { say: String::new(), complain: String::new(), request }
    }

    /// The step that prints `say` and asks for `request`.
    pub fn tell(say: String, request: Request) -> (r: Step)
        ensures
            r@ == StepView::tell(say@, request@),
    {
        Step { say, complain: String::new(), request }
    }

    /// The step that ends the flow with `code`, after `say` on standard
    /// output and `complain` on standard error.
    pub fn stop(say: String, complain: String, code: u8) -> (r: Step)
        ensures
            r@ == StepView::stop(say@, complain@, code),
    {
        Step { say, complain, request: Request::Stop { code } }
    }
}

} // verus!
