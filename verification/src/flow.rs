//! The flows: each command as a sequence of steps, one request at a time.
//!
//! A flow never acts. It starts with a [`Step`], and [`Flow::step`] takes
//! the caller's answer to the step's request and gives the next step, until
//! a step asks to stop. What is read from disk, typed by the operator or
//! reported by a child process reaches the flow only as a [`Reply`].

use vstd::prelude::*;
use crate::config::{candidate, loaded, manual_checks, manual_prompt, manual_verdict, saved_notice};
use crate::config::DevEnvManager;
use crate::path::{add_to_user_path, added_notice, added_text, addition, listed_notice, listed_text};
use crate::postgres::commands::{run_with_config, NOT_CONFIGURED};
use crate::postgres::{confirms, data_dir, drop_warning, is_confirmation, logs_dir};
use crate::postgres::{data_path, logs_path, Operation, OperationView};
use crate::postgres::{CANCELLED, NOT_INITIALIZED};
use crate::request::{Reply, ReplyView, Request, RequestView, Step, StepView};
use crate::script::{generate, script, SCRIPT_NAME};
use crate::text::{borrowed, cat, cat3, joined, owned, trimmed};
use crate::tools::{find, probed, Tool};
use crate::ui::{report, verify_tools};

verus! {

/// What a record is looked up for.
#[derive(Debug, Clone, PartialEq, Eq)]
pub enum Purpose {
    /// To set the tool up.
    Setup(Tool),
    /// To run an operation of PostgreSQL.
    Postgres(Operation),
    /// To write the setup script; the tool is the one whose record is
    /// looked up now.
    Generate(Tool),
    /// To report on the tools; the tool is the one whose record is looked
    /// up now.
    Verify(Tool),
}

/// The mathematical content of a [`Purpose`].
pub enum PurposeView {
    Setup(Tool),
    Postgres(OperationView),
    Generate(Tool),
    Verify(Tool),
}

impl View for Purpose {
    type V = PurposeView;

    open spec fn view(&self) -> PurposeView {
        match *self {
            Purpose::Setup(tool) => PurposeView::Setup(tool),
            Purpose::Postgres(operation) => PurposeView::Postgres(operation@),
            Purpose::Generate(tool) => PurposeView::Generate(tool),
            Purpose::Verify(tool) => PurposeView::Verify(tool),
        }
    }
}

impl PurposeView {
    /// The tool whose record is looked up.
    pub open spec fn tool(self) -> Tool {
        match self {
            PurposeView::Setup(tool) => tool,
            PurposeView::Postgres(_) => Tool::PostgreSQL,
            PurposeView::Generate(tool) => tool,
            PurposeView::Verify(tool) => tool,
        }
    }
}

impl Purpose {
    /// The tool whose record is looked up.
    pub fn tool(&self) -> (r: Tool)
        ensures
            r == self@.tool(),
    {
        match self {
            Purpose::Setup(tool) => *tool,
            Purpose::Postgres(_) => Tool::PostgreSQL,
            Purpose::Generate(tool) => *tool,
            Purpose::Verify(tool) => *tool,
        }
    }
}

/// Where a flow stands: what it asked for last, and what it keeps for the
/// answer.
#[derive(Debug, Clone, PartialEq, Eq)]
pub enum Stage {
    /// Asked for the text of a record.
    Record(Purpose),
    /// Asked whether the path that a record names exists; keeps the
    /// record's text.
    Target(Purpose, String),
    /// Asked which of the tool's marker executables exist.
    Probe(Tool),
    /// Asked the operator for the tool's location.
    Line(Tool),
    /// Asked whether the location typed in, which it keeps, holds the tool.
    Manual(Tool, String),
    /// Asked to write the record of the tool, found at the root it keeps.
    Save(Tool, String),
    /// Asked for the user's `PATH`.
    PathRead(Tool, String),
    /// Asked to store the user's `PATH`.
    PathWrite(Tool, String),
    /// Asked whether the cluster's data directory exists; keeps the root
    /// of PostgreSQL, as the next three do.
    Cluster(Operation, String),
    /// Asked to create the directory of the server's log.
    Logs(Operation, String),
    /// Asked the operator to confirm.
    Confirm(Operation, String),
    /// Asked to run the operation's utility.
    Run(Operation, String),
    /// Asked to write the setup script.
    Script,
    /// Asked to stop.
    Over,
}

/// The mathematical content of a [`Stage`].
pub enum StageView {
    Record(PurposeView),
    Target(PurposeView, Seq<char>),
    Probe(Tool),
    Line(Tool),
    Manual(Tool, Seq<char>),
    Save(Tool, Seq<char>),
    PathRead(Tool, Seq<char>),
    PathWrite(Tool, Seq<char>),
    Cluster(OperationView, Seq<char>),
    Logs(OperationView, Seq<char>),
    Confirm(OperationView, Seq<char>),
    Run(OperationView, Seq<char>),
    Script,
    Over,
}

impl View for Stage {
    type V = StageView;

    open spec fn view(&self) -> StageView {
        match *self {
            Stage::Record(purpose) => StageView::Record(purpose@),
            Stage::Target(purpose, text) => StageView::Target(purpose@, text@),
            Stage::Probe(tool) => StageView::Probe(tool),
            Stage::Line(tool) => StageView::Line(tool),
            Stage::Manual(tool, root) => StageView::Manual(tool, root@),
            Stage::Save(tool, root) => StageView::Save(tool, root@),
            Stage::PathRead(tool, root) => StageView::PathRead(tool, root@),
            Stage::PathWrite(tool, root) => StageView::PathWrite(tool, root@),
            Stage::Cluster(operation, root) => StageView::Cluster(operation@, root@),
            Stage::Logs(operation, root) => StageView::Logs(operation@, root@),
            Stage::Confirm(operation, root) => StageView::Confirm(operation@, root@),
            Stage::Run(operation, root) => StageView::Run(operation@, root@),
            Stage::Script => StageView::Script,
            Stage::Over => StageView::Over,
        }
    }
}

/// One command under way: the store it works on, where it stands, and the
/// locations of MinGW64 and PostgreSQL that it has looked up so far on a
/// walk over all the tools.
#[derive(Debug, Clone, PartialEq, Eq)]
pub struct Flow {
    pub manager: DevEnvManager,
    pub stage: Stage,
    pub mingw: Option<String>,
    pub postgres: Option<String>,
}

/// The mathematical content of a [`Flow`].
pub struct FlowView {
    pub dir: Seq<char>,
    pub stage: StageView,
    pub mingw: Option<Seq<char>>,
    pub postgres: Option<Seq<char>>,
}

impl View for Flow {
    type V = FlowView;

    open spec fn view(&self) -> FlowView {
        FlowView {
            dir: self.manager.config_dir@,
            stage: self.stage@,
            mingw: self.mingw.deep_view(),
            postgres: self.postgres.deep_view(),
        }
    }
}

/// What is said when the setup of `tool` begins.
pub open spec fn setup_banner(tool: Tool) -> Seq<char> {
    "Configurando "@ + tool.title() + "...\n"@
}

/// What is said where the tool's record names a location.
pub open spec fn existing_notice(root: Seq<char>) -> Seq<char> {
    "Configuración existente: "@ + root + "\n"@
}

/// What is said where no well-known location holds the tool.
pub const NOT_FOUND: &'static str = "No encontrado automáticamente\n";

/// What the setup of PostgreSQL recommends next.
pub const INIT_HINT: &'static str = "Ejecuta: devenv --init-postgres\n";

/// What the setup of MinGW64 and of Node.js recommends next.
pub const SCRIPT_HINT: &'static str = "Ejecuta: devenv --generate-script\n";

/// What is said where no tool is configured and no script is written.
pub const NO_CONFIGURATIONS: &'static str = "No hay configuraciones\n";

/// What is said once the setup script was written.
pub const SCRIPT_WRITTEN: &'static str = "Script generado: setup-env.bat\n";

/// The complaint where the setup script could not be written.
pub const SCRIPT_FAILURE: &'static str = "Error: no se pudo escribir setup-env.bat\n";

/// What is said where the setup of `tool` ends without a location.
pub open spec fn setup_failure(tool: Tool) -> Seq<char> {
    "No se pudo configurar "@ + tool.title() + "\n"@
}

/// The command that the setup of `tool` recommends next: the cluster's
/// initialization for PostgreSQL, the setup script for the others.
pub open spec fn setup_hint(tool: Tool) -> Seq<char> {
    match tool {
        Tool::PostgreSQL => INIT_HINT@,
        _ => SCRIPT_HINT@,
    }
}

impl FlowView {
    /// The flow on the store in `dir` that has nothing under way.
    pub open spec fn idle(dir: Seq<char>) -> FlowView {
        FlowView { dir, stage: StageView::Over, mingw: None, postgres: None }
    }

    /// The flow at another stage.
    pub open spec fn at(self, stage: StageView) -> FlowView {
        FlowView { dir: self.dir, stage, mingw: self.mingw, postgres: self.postgres }
    }

    /// The flow with `found` as the location of MinGW64.
    pub open spec fn with_mingw(self, found: Option<Seq<char>>) -> FlowView {
        FlowView { dir: self.dir, stage: self.stage, mingw: found, postgres: self.postgres }
    }

    /// The flow with `found` as the location of PostgreSQL.
    pub open spec fn with_postgres(self, found: Option<Seq<char>>) -> FlowView {
        FlowView { dir: self.dir, stage: self.stage, mingw: self.mingw, postgres: found }
    }

    /// The flow that stops after `say` and `complain`, and ends the
    /// process with `code`.
    pub open spec fn stop(self, say: Seq<char>, complain: Seq<char>, code: u8) -> (
        FlowView,
        StepView,
    ) {
        (self.at(StageView::Over), StepView::stop(say, complain, code))
    }

    /// The flow that says `say` and looks up the record of the tool of
    /// `purpose`.
    pub open spec fn lookup(self, purpose: PurposeView, say: Seq<char>) -> (FlowView, StepView) {
        (
            self.at(StageView::Record(purpose)),
            StepView::tell(
                say,
                RequestView::ReadFile { path: joined(self.dir, purpose.tool().record_name()) },
            ),
        )
    }

    /// The flow that says `say` and records that `tool` is at `root`.
    pub open spec fn persist(self, tool: Tool, root: Seq<char>, say: Seq<char>) -> (
        FlowView,
        StepView,
    ) {
        (
            self.at(StageView::Save(tool, root)),
            StepView::tell(
                say,
                RequestView::WriteFile { path: joined(self.dir, tool.record_name()), text: root },
            ),
        )
    }

    /// The flow that ends the setup of `tool` without a location, after
    /// `say`.
    pub open spec fn give_up(self, tool: Tool, say: Seq<char>) -> (FlowView, StepView) {
        self.stop(say + setup_failure(tool), Seq::empty(), 0)
    }

    /// The flow that runs the utility of `operation` for PostgreSQL at
    /// `root`.
    pub open spec fn launch(self, operation: OperationView, root: Seq<char>) -> (
        FlowView,
        StepView,
    ) {
        (
            self.at(StageView::Run(operation, root)),
            StepView::ask(operation.request(Tool::PostgreSQL.config_at(root))),
        )
    }

    /// The flow of `operation` once the cluster is known to be there, or
    /// not to be needed: the log's directory is made where the operation
    /// writes the log, the operator is asked where the operation needs a
    /// confirmation, and else the utility runs.
    pub open spec fn proceed(self, operation: OperationView, root: Seq<char>) -> (
        FlowView,
        StepView,
    ) {
        if operation.needs_logs() {
            (
                self.at(StageView::Logs(operation, root)),
                StepView::ask(RequestView::CreateDirs { path: logs_dir(root) }),
            )
        } else if operation.needs_confirmation() {
            (
                self.at(StageView::Confirm(operation, root)),
                StepView::tell(operation.warning(), RequestView::ReadLine),
            )
        } else {
            self.launch(operation, root)
        }
    }

    /// The flow of `operation` once PostgreSQL is known to be at `root`:
    /// an operation that needs the cluster first asks whether its data
    /// directory exists.
    pub open spec fn enter(self, operation: OperationView, root: Seq<char>) -> (
        FlowView,
        StepView,
    ) {
        if operation.needs_cluster() {
            (
                self.at(StageView::Cluster(operation, root)),
                StepView::ask(RequestView::Exists { path: data_dir(root) }),
            )
        } else {
            self.proceed(operation, root)
        }
    }

    /// The flow once the record looked up for `purpose` is known to hold
    /// `found`.
    pub open spec fn recorded(self, purpose: PurposeView, found: Option<Seq<char>>) -> (
        FlowView,
        StepView,
    ) {
        match purpose {
            PurposeView::Setup(tool) => match found {
                Some(root) => self.persist(tool, root, existing_notice(root)),
                None => (
                    self.at(StageView::Probe(tool)),
                    StepView::ask(RequestView::Probe { paths: tool.markers(self.dir) }),
                ),
            },
            PurposeView::Postgres(operation) => match found {
                Some(root) => self.enter(operation, root),
                None => self.stop(NOT_CONFIGURED@, Seq::empty(), 0),
            },
            PurposeView::Generate(tool) => match tool {
                Tool::MinGW64 => self.with_mingw(found).lookup(
                    PurposeView::Generate(Tool::PostgreSQL),
                    Seq::empty(),
                ),
                Tool::PostgreSQL => self.with_postgres(found).lookup(
                    PurposeView::Generate(Tool::NodeJs),
                    Seq::empty(),
                ),
                Tool::NodeJs => match script(self.mingw, self.postgres, found) {
                    Some(text) => (
                        self.at(StageView::Script),
                        StepView::ask(
                            RequestView::WriteFile { path: joined(self.dir, SCRIPT_NAME@), text },
                        ),
                    ),
                    None => self.stop(NO_CONFIGURATIONS@, Seq::empty(), 0),
                },
            },
            PurposeView::Verify(tool) => match tool {
                Tool::MinGW64 => self.with_mingw(found).lookup(
                    PurposeView::Verify(Tool::PostgreSQL),
                    Seq::empty(),
                ),
                Tool::PostgreSQL => self.with_postgres(found).lookup(
                    PurposeView::Verify(Tool::NodeJs),
                    Seq::empty(),
                ),
                Tool::NodeJs => self.stop(
                    report(self.mingw, self.postgres, found),
                    Seq::empty(),
                    0,
                ),
            },
        }
    }

    /// The flow of the setup of `tool` once the user's `PATH` is known to
    /// be `current`: where it lists the tool's executables already, the
    /// setup ends; else the new value is stored first.
    pub open spec fn register(self, tool: Tool, root: Seq<char>, current: Seq<char>) -> (
        FlowView,
        StepView,
    ) {
        match addition(current, tool.bin_of(root)) {
            Some(value) => (
                self.at(StageView::PathWrite(tool, root)),
                StepView::ask(RequestView::WriteUserPath { value }),
            ),
            None => self.stop(
                listed_notice(tool.bin_of(root)) + setup_hint(tool),
                Seq::empty(),
                0,
            ),
        }
    }

    /// The flow that a command starts with: the record of its first tool
    /// is looked up, and a setup says so.
    pub open spec fn begin(dir: Seq<char>, purpose: PurposeView) -> (FlowView, StepView) {
        let flow = FlowView::idle(dir);
        match purpose {
            PurposeView::Setup(tool) => flow.lookup(purpose, setup_banner(tool)),
            _ => flow.lookup(purpose, Seq::empty()),
        }
    }

    /// The flow after the caller's `reply` to its last request, and the
    /// next step.
    pub open spec fn next(self, reply: ReplyView) -> (FlowView, StepView) {
        match self.stage {
            StageView::Record(purpose) => match reply {
                ReplyView::Text(Some(text)) => (
                    self.at(StageView::Target(purpose, text)),
                    StepView::ask(RequestView::Exists { path: trimmed(text) }),
                ),
                _ => self.recorded(purpose, None),
            },
            StageView::Target(purpose, text) => match reply {
                ReplyView::Flag(exists) => self.recorded(purpose, loaded(Some(text), exists)),
                _ => self.recorded(purpose, None),
            },
            StageView::Probe(tool) => {
                let flags = match reply {
                    ReplyView::Flags(flags) => flags,
                    _ => Seq::empty(),
                };
                match probed(tool, self.dir, flags) {
                    Some(config) => self.persist(tool, config.path, Seq::empty()),
                    None => (
                        self.at(StageView::Line(tool)),
                        StepView::tell(
                            NOT_FOUND@ + manual_prompt(tool.title()),
                            RequestView::ReadLine,
                        ),
                    ),
                }
            },
            StageView::Line(tool) => match reply {
                ReplyView::Text(Some(line)) => (
                    self.at(StageView::Manual(tool, candidate(line))),
                    StepView::ask(
                        RequestView::Probe { paths: manual_checks(candidate(line), tool.marker()) },
                    ),
                ),
                _ => self.give_up(tool, Seq::empty()),
            },
            StageView::Manual(tool, root) => {
                let flags = match reply {
                    ReplyView::Flags(flags) => flags,
                    _ => Seq::empty(),
                };
                match manual_verdict(root, tool.marker(), flags) {
                    Ok(root) => self.persist(tool, root, Seq::empty()),
                    Err(why) => self.give_up(tool, why),
                }
            },
            StageView::Save(tool, root) => (
                self.at(StageView::PathRead(tool, root)),
                StepView::tell(
                    if reply == ReplyView::Done(true) {
                        saved_notice(tool.record_name())
                    } else {
                        Seq::empty()
                    },
                    RequestView::ReadUserPath,
                ),
            ),
            StageView::PathRead(tool, root) => match reply {
                ReplyView::Text(Some(current)) => self.register(tool, root, current),
                ReplyView::Text(None) => self.register(tool, root, Seq::empty()),
                _ => self.stop(setup_hint(tool), Seq::empty(), 0),
            },
            StageView::PathWrite(tool, root) => self.stop(
                if reply == ReplyView::Done(true) {
                    added_notice(tool.bin_of(root)) + setup_hint(tool)
                } else {
                    setup_hint(tool)
                },
                Seq::empty(),
                0,
            ),
            StageView::Cluster(operation, root) => if reply == ReplyView::Flag(true) {
                self.proceed(operation, root)
            } else {
                self.stop(NOT_INITIALIZED@, Seq::empty(), 0)
            },
            StageView::Logs(operation, root) => if reply == ReplyView::Done(true) {
                self.launch(operation, root)
            } else {
                self.stop(Seq::empty(), Seq::empty(), 0)
            },
            StageView::Confirm(operation, root) => match reply {
                ReplyView::Text(Some(answer)) => if confirms(answer) {
                    self.launch(operation, root)
                } else {
                    self.stop(CANCELLED@, Seq::empty(), 0)
                },
                _ => self.stop(CANCELLED@, Seq::empty(), 0),
            },
            StageView::Run(operation, root) => (
                self.at(StageView::Over),
                operation.report(root, reply),
            ),
            StageView::Script => if reply == ReplyView::Done(true) {
                self.stop(SCRIPT_WRITTEN@, Seq::empty(), 0)
            } else {
                self.stop(Seq::empty(), SCRIPT_FAILURE@, 1)
            },
            StageView::Over => self.stop(Seq::empty(), Seq::empty(), 0),
        }
    }
}

impl Flow {
    /// The flow at another stage.
    fn at(self, stage: Stage) -> (r: Flow)
        ensures
            r@ == self@.at(stage@),
    {
        Flow { manager: self.manager, stage, mingw: self.mingw, postgres: self.postgres }
    }

    /// The flow that stops after `say` and `complain`, and ends the
    /// process with `code`.
    fn stop(self, say: String, complain: String, code: u8) -> (r: (Flow, Step))
        ensures
            r@ == self@.stop(say@, complain@, code),
    {
        (self.at(Stage::Over), Step::stop(say, complain, code))
    }

    /// The flow that says `say` and looks up the record of the tool of
    /// `purpose`.
    fn lookup(self, purpose: Purpose, say: String) -> (r: (Flow, Step))
        ensures
            r@ == self@.lookup(purpose@, say@),
    {
        let request = self.manager.read_config(purpose.tool().config_file());
        (self.at(Stage::Record(purpose)), Step::tell(say, request))
    }

    /// The flow that says `say` and records that `tool` is at `root`.
    fn persist(self, tool: Tool, root: String, say: String) -> (r: (Flow, Step))
        ensures
            r@ == self@.persist(tool, root@, say@),
    {
        let request = self.manager.save_config(tool.config_file(), root.as_str());
        (self.at(Stage::Save(tool, root)), Step::tell(say, request))
    }

    /// The flow that ends the setup of `tool` without a location, after
    /// `say`.
    fn give_up(self, tool: Tool, say: String) -> (r: (Flow, Step))
        ensures
            r@ == self@.give_up(tool, say@),
    {
        let failure = cat3("No se pudo configurar ", tool.name(), "\n");
        self.stop(cat(say.as_str(), failure.as_str()), String::new(), 0)
    }

    /// The flow that runs the utility of `operation` for PostgreSQL at
    /// `root`.
    fn launch(self, operation: Operation, root: String) -> (r: (Flow, Step))
        ensures
            r@ == self@.launch(operation@, root@),
    {
        let config = Tool::PostgreSQL.configure(owned(root.as_str()));
        let request = operation.request(&config);
        (self.at(Stage::Run(operation, root)), Step::ask(request))
    }

    /// The flow of `operation` once the cluster is known to be there, or
    /// not to be needed.
    fn proceed(self, operation: Operation, root: String) -> (r: (Flow, Step))
        ensures
            r@ == self@.proceed(operation@, root@),
    {
        if operation.needs_logs() {
            let request = Request::CreateDirs { path: logs_path(root.as_str()) };
            (self.at(Stage::Logs(operation, root)), Step::ask(request))
        } else if operation.needs_confirmation() {
            let warning = operation.warning();
            (self.at(Stage::Confirm(operation, root)), Step::tell(warning, Request::ReadLine))
        } else {
            self.launch(operation, root)
        }
    }

    /// The flow of `operation` once PostgreSQL is known to be at `root`.
    fn enter(self, operation: Operation, root: String) -> (r: (Flow, Step))
        ensures
            r@ == self@.enter(operation@, root@),
    {
        if operation.needs_cluster() {
            let request = Request::Exists { path: data_path(root.as_str()) };
            (self.at(Stage::Cluster(operation, root)), Step::ask(request))
        } else {
            self.proceed(operation, root)
        }
    }

    /// The flow with `found` as the location of MinGW64.
    fn with_mingw(self, found: Option<String>) -> (r: Flow)
        ensures
            r@ == self@.with_mingw(found.deep_view()),
    {
        Flow { manager: self.manager, stage: self.stage, mingw: found, postgres: self.postgres }
    }

    /// The flow with `found` as the location of PostgreSQL.
    fn with_postgres(self, found: Option<String>) -> (r: Flow)
        ensures
            r@ == self@.with_postgres(found.deep_view()),
    {
        Flow { manager: self.manager, stage: self.stage, mingw: self.mingw, postgres: found }
    }

    /// The flow once the record looked up for `purpose` is known to hold
    /// `found`.
    fn recorded(self, purpose: Purpose, found: Option<String>) -> (r: (Flow, Step))
        ensures
            r@ == self@.recorded(purpose@, found.deep_view()),
    {
        match purpose {
            Purpose::Setup(tool) => match found {
                Some(root) => {
                    let notice = cat3("Configuración existente: ", root.as_str(), "\n");
                    self.persist(tool, root, notice)
                },
                None => {
                    let request = Request::Probe { paths: tool.validators(&self.manager) };
                    (self.at(Stage::Probe(tool)), Step::ask(request))
                },
            },
            Purpose::Postgres(operation) => match run_with_config(found) {
                Ok(config) => self.enter(operation, config.path),
                Err(notice) => self.stop(notice, String::new(), 0),
            },
            Purpose::Generate(tool) => match tool {
                Tool::MinGW64 => self.with_mingw(found).lookup(
                    Purpose::Generate(Tool::PostgreSQL),
                    String::new(),
                ),
                Tool::PostgreSQL => self.with_postgres(found).lookup(
                    Purpose::Generate(Tool::NodeJs),
                    String::new(),
                ),
                Tool::NodeJs => {
                    let script = generate(
                        borrowed(&self.mingw),
                        borrowed(&self.postgres),
                        borrowed(&found),
                    );
                    match script {
                        Some(text) => {
                            let path = self.manager.config_file(SCRIPT_NAME);
                            (self.at(Stage::Script), Step::ask(Request::WriteFile { path, text }))
                        },
                        None => self.stop(owned(NO_CONFIGURATIONS), String::new(), 0),
                    }
                },
            },
            Purpose::Verify(tool) => match tool {
                Tool::MinGW64 => self.with_mingw(found).lookup(
                    Purpose::Verify(Tool::PostgreSQL),
                    String::new(),
                ),
                Tool::PostgreSQL => self.with_postgres(found).lookup(
                    Purpose::Verify(Tool::NodeJs),
                    String::new(),
                ),
                Tool::NodeJs => {
                    let report = verify_tools(
                        borrowed(&self.mingw),
                        borrowed(&self.postgres),
                        borrowed(&found),
                    );
                    self.stop(report, String::new(), 0)
                },
            },
        }
    }

    /// The command that the setup of `tool` recommends next.
    fn hint(tool: Tool) -> (r: &'static str)
        ensures
            r@ == setup_hint(tool),
    {
        match tool {
            Tool::PostgreSQL => INIT_HINT,
            _ => SCRIPT_HINT,
        }
    }

    /// The flow of the setup of `tool` once the user's `PATH` is known to
    /// be `current`.
    fn register(self, tool: Tool, root: String, current: &str) -> (r: (Flow, Step))
        ensures
            r@ == self@.register(tool, root@, current@),
    {
        let config = tool.configure(owned(root.as_str()));
        match add_to_user_path(current, config.bin_dir.as_str()) {
            Some(value) => (
                self.at(Stage::PathWrite(tool, root)),
                Step::ask(Request::WriteUserPath { value }),
            ),
            None => {
                let notice = listed_text(config.bin_dir.as_str());
                self.stop(cat(notice.as_str(), Self::hint(tool)), String::new(), 0)
            },
        }
    }

    /// The flow on the store `manager` that has nothing under way.
    pub fn idle(manager: &DevEnvManager) -> (r: Flow)
        ensures
            r@ == FlowView::idle(manager.config_dir@),
    {
        Flow { manager: manager.duplicate(), stage: Stage::Over, mingw: None, postgres: None }
    }

    /// The flow on the store `manager` that does nothing but stop, after
    /// `say` and `complain`, and end the process with `code`.
    pub fn ended(manager: &DevEnvManager, say: String, complain: String, code: u8) -> (r: (
        Flow,
        Step,
    ))
        ensures
            r@ == FlowView::idle(manager.config_dir@).stop(say@, complain@, code),
    {
        Flow::idle(manager).stop(say, complain, code)
    }

    /// Starts a command on the store `manager`: the flow, and its first
    /// step.
    pub fn begin(manager: &DevEnvManager, purpose: Purpose) -> (r: (Flow, Step))
        ensures
            r@ == FlowView::begin(manager.config_dir@, purpose@),
    {
        let banner = match &purpose {
            Purpose::Setup(tool) => cat3("Configurando ", tool.name(), "...\n"),
            _ => String::new(),
        };
        Flow::idle(manager).lookup(purpose, banner)
    }

    /// Tells whether the flow has asked to stop.
    pub fn is_over(&self) -> (r: bool)
        ensures
            r == (self@.stage is Over),
    {
        match &self.stage {
            Stage::Over => true,
            _ => false,
        }
    }

    /// Takes the caller's `reply` to the last request and gives the flow
    /// after it, with the next step. A reply of another kind than the
    /// request asked for counts as a failure of the request.
    pub fn step(self, reply: Reply) -> (r: (Flow, Step))
        ensures
            r@ == self@.next(reply@),
    {
        let Flow { manager, stage, mingw, postgres } = self;
        let flow = Flow { manager, stage: Stage::Over, mingw, postgres };
        match stage {
            Stage::Record(purpose) => match reply {
                Reply::Text(Some(content)) => {
                    let path = DevEnvManager::recorded_path(content.as_str());
                    (
                        flow.at(Stage::Target(purpose, content)),
                        Step::ask(Request::Exists { path }),
                    )
                },
                _ => flow.recorded(purpose, None),
            },
            Stage::Target(purpose, content) => match reply {
                Reply::Flag(exists) => {
                    let found = flow.manager.load_config(Some(content.as_str()), exists);
                    flow.recorded(purpose, found)
                },
                _ => flow.recorded(purpose, None),
            },
            Stage::Probe(tool) => {
                let flags = match reply {
                    Reply::Flags(flags) => flags,
                    _ => Vec::new(),
                };
                match find(tool, &flow.manager, &flags) {
                    Some(config) => flow.persist(tool, config.path, String::new()),
                    None => {
                        let prompt = flow.manager.request_manual_path(tool.name());
                        let say = cat(NOT_FOUND, prompt.say.as_str());
                        (flow.at(Stage::Line(tool)), Step::tell(say, prompt.request))
                    },
                }
            },
            Stage::Line(tool) => match reply {
                Reply::Text(Some(line)) => {
                    let root = DevEnvManager::manual_candidate(line.as_str());
                    let request = DevEnvManager::check_manual_path(root.as_str(), tool.validator());
                    (flow.at(Stage::Manual(tool, root)), Step::ask(request))
                },
                _ => flow.give_up(tool, String::new()),
            },
            Stage::Manual(tool, root) => {
                let flags = match reply {
                    Reply::Flags(flags) => flags,
                    _ => Vec::new(),
                };
                match DevEnvManager::accept_manual_path(root, tool.validator(), &flags) {
                    Ok(root) => flow.persist(tool, root, String::new()),
                    Err(why) => flow.give_up(tool, why),
                }
            },
            Stage::Save(tool, root) => {
                let notice = match reply {
                    Reply::Done(true) => DevEnvManager::saved_notice(tool.config_file()),
                    _ => String::new(),
                };
                (flow.at(Stage::PathRead(tool, root)), Step::tell(notice, Request::ReadUserPath))
            },
            Stage::PathRead(tool, root) => match reply {
                Reply::Text(Some(current)) => flow.register(tool, root, current.as_str()),
                Reply::Text(None) => flow.register(tool, root, String::new().as_str()),
                _ => flow.stop(owned(Self::hint(tool)), String::new(), 0),
            },
            Stage::PathWrite(tool, root) => {
                let say = match reply {
                    Reply::Done(true) => {
                        let config = tool.configure(root);
                        cat(added_text(config.bin_dir.as_str()).as_str(), Self::hint(tool))
                    },
                    _ => owned(Self::hint(tool)),
                };
                flow.stop(say, String::new(), 0)
            },
            Stage::Cluster(operation, root) => match reply {
                Reply::Flag(true) => flow.proceed(operation, root),
                _ => flow.stop(owned(NOT_INITIALIZED), String::new(), 0),
            },
            Stage::Logs(operation, root) => match reply {
                Reply::Done(true) => flow.launch(operation, root),
                _ => flow.stop(String::new(), String::new(), 0),
            },
            Stage::Confirm(operation, root) => {
                let confirmed = match reply {
                    Reply::Text(Some(answer)) => is_confirmation(answer.as_str()),
                    _ => false,
                };
                if confirmed {
                    flow.launch(operation, root)
                } else {
                    flow.stop(owned(CANCELLED), String::new(), 0)
                }
            },
            Stage::Run(operation, root) => {
                let step = operation.report(root.as_str(), reply);
                (flow, step)
            },
            Stage::Script => match reply {
                Reply::Done(true) => flow.stop(owned(SCRIPT_WRITTEN), String::new(), 0),
                _ => flow.stop(String::new(), owned(SCRIPT_FAILURE), 1),
            },
            Stage::Over => flow.stop(String::new(), String::new(), 0),
        }
    }
}

impl PurposeView {
    /// A bound on the number of requests that follow the lookup of a
    /// record for this purpose.
    pub open spec fn reach(self) -> nat {
        match self {
            PurposeView::Setup(_) => 6,
            PurposeView::Postgres(_) => 3,
            PurposeView::Generate(Tool::MinGW64) => 5,
            PurposeView::Generate(Tool::PostgreSQL) => 3,
            PurposeView::Generate(Tool::NodeJs) => 1,
            PurposeView::Verify(Tool::MinGW64) => 4,
            PurposeView::Verify(Tool::PostgreSQL) => 2,
            PurposeView::Verify(Tool::NodeJs) => 0,
        }
    }
}

impl FlowView {
    /// A bound on the number of requests that the flow still makes before
    /// it asks to stop.
    pub open spec fn steps_left(self) -> nat {
        match self.stage {
            StageView::Record(purpose) => purpose.reach() + 2,
            StageView::Target(purpose, _) => purpose.reach() + 1,
            StageView::Probe(_) => 6,
            StageView::Line(_) => 5,
            StageView::Manual(_, _) => 4,
            StageView::Save(_, _) => 3,
            StageView::PathRead(_, _) => 2,
            StageView::PathWrite(_, _) => 1,
            StageView::Cluster(_, _) => 3,
            StageView::Logs(_, _) => 2,
            StageView::Confirm(_, _) => 2,
            StageView::Run(_, _) => 1,
            StageView::Script => 1,
            StageView::Over => 0,
        }
    }

    /// The flow after the caller's `replies`, one after the other.
    pub open spec fn after(self, replies: Seq<ReplyView>) -> FlowView
        decreases replies.len(),
    {
        if replies.len() == 0 {
            self
        } else {
            self.next(replies[0]).0.after(replies.skip(1))
        }
    }
}

/// Whether a flow and the step it hands out belong together, with at most
/// `bound` requests to come after the step's own: the step asks to stop
/// exactly where the flow is over.
pub open spec fn within(r: (FlowView, StepView), bound: nat) -> bool {
    &&& r.0.steps_left() <= bound
    &&& r.1.request is Stop <==> r.0.stage is Over
}

/// After the cluster's question an operation makes two requests at most.
proof fn lemma_operation_runs_out(flow: FlowView, operation: OperationView, root: Seq<char>)
    ensures
        within(flow.launch(operation, root), 1),
        within(flow.proceed(operation, root), 2),
        within(flow.enter(operation, root), 3),
{
}

/// After the lookup of a record, a flow makes no more requests than its
/// purpose allows.
proof fn lemma_purpose_runs_out(flow: FlowView, purpose: PurposeView, found: Option<Seq<char>>)
    ensures
        within(flow.recorded(purpose, found), purpose.reach()),
{
    if let PurposeView::Postgres(operation) = purpose {
        if let Some(root) = found {
            lemma_operation_runs_out(flow, operation, root);
        }
    }
}

/// Every answer brings a flow nearer to its end; a flow with no request
/// left has asked to stop, and only such a flow.
pub proof fn lemma_steps_run_out(flow: FlowView, reply: ReplyView)
    ensures
        !(flow.stage is Over) ==> flow.next(reply).0.steps_left() < flow.steps_left(),
        flow.steps_left() == 0 <==> flow.stage is Over,
        flow.next(reply).1.request is Stop <==> flow.next(reply).0.stage is Over,
{
    match flow.stage {
        StageView::Record(purpose) => {
            lemma_purpose_runs_out(flow, purpose, None);
        },
        StageView::Target(purpose, text) => {
            lemma_purpose_runs_out(flow, purpose, None);
            lemma_purpose_runs_out(flow, purpose, Some(trimmed(text)));
        },
        StageView::Cluster(operation, root) => {
            lemma_operation_runs_out(flow, operation, root);
        },
        StageView::Logs(operation, root) => {
            lemma_operation_runs_out(flow, operation, root);
        },
        StageView::Confirm(operation, root) => {
            lemma_operation_runs_out(flow, operation, root);
        },
        _ => {},
    }
}

/// Whatever the answers, a flow has asked to stop after eight of them at
/// the latest, and then stays stopped.
pub proof fn lemma_flows_end(flow: FlowView, replies: Seq<ReplyView>)
    requires
        replies.len() >= flow.steps_left(),
    ensures
        flow.steps_left() <= 8,
        flow.after(replies).stage is Over,
    decreases replies.len(),
{
    if replies.len() > 0 {
        lemma_steps_run_out(flow, replies[0]);
        lemma_flows_end(flow.next(replies[0]).0, replies.skip(1));
    }
}

/// A flow that has asked to stop stays stopped, in silence.
pub proof fn lemma_over_stays_over(flow: FlowView, reply: ReplyView)
    requires
        flow.stage is Over,
    ensures
        flow.next(reply).0.stage is Over,
        flow.next(reply).1 == StepView::stop(Seq::empty(), Seq::empty(), 0),
{
}

/// A flow that has asked to stop asks for nothing else, whatever answers
/// it still gets: once an operation was refused or cancelled, no utility
/// runs.
pub proof fn lemma_stopped_flows_stay_stopped(flow: FlowView, replies: Seq<ReplyView>)
    requires
        flow.stage is Over,
    ensures
        flow.after(replies).stage is Over,
        forall|reply: ReplyView| #[trigger]
            flow.after(replies).next(reply).1.request == (RequestView::Stop { code: 0 }),
    decreases replies.len(),
{
    if replies.len() > 0 {
        lemma_stopped_flows_stay_stopped(flow.next(replies[0]).0, replies.skip(1));
    }
}

impl FlowView {
    /// Whether the setup has settled on the tool's location: what is left
    /// is to record it and to put the tool on the user's `PATH`.
    pub open spec fn is_settled(self) -> bool {
        self.stage is Save || self.stage is PathRead || self.stage is PathWrite
            || self.stage is Over
    }
}

/// Once a setup has settled on the tool's location, by a valid record or
/// otherwise, it looks for no marker any more.
pub proof fn lemma_settled_setups_do_not_probe(flow: FlowView, replies: Seq<ReplyView>)
    requires
        flow.is_settled(),
    ensures
        flow.after(replies).is_settled(),
        forall|reply: ReplyView|
            !(#[trigger] flow.after(replies).next(reply).1.request is Probe) && !(flow.after(
                replies,
            ).next(reply).1.request is Exists),
    decreases replies.len(),
{
    if replies.len() > 0 {
        lemma_settled_setups_do_not_probe(flow.next(replies[0]).0, replies.skip(1));
    }
}

/// A record whose path exists is looked up as that path; one whose path
/// is gone from disk, or whose file cannot be read, is looked up as
/// nothing.
pub proof fn lemma_lookup_yields_existing_paths(
    flow: FlowView,
    purpose: PurposeView,
    text: Seq<char>,
)
    requires
        flow.stage == StageView::Record(purpose),
    ensures
        flow.next(ReplyView::Text(None)) == flow.recorded(purpose, None),
        flow.next(ReplyView::Text(Some(text))).1.request == (RequestView::Exists {
            path: trimmed(text),
        }),
        flow.next(ReplyView::Text(Some(text))).0.next(ReplyView::Flag(true)) == flow.recorded(
            purpose,
            Some(trimmed(text)),
        ),
        flow.next(ReplyView::Text(Some(text))).0.next(ReplyView::Flag(false)) == flow.recorded(
            purpose,
            None,
        ),
{
}

/// The record that a setup writes is read back as the location it was
/// written for, as long as that location exists on disk and has no white
/// space around it.
pub proof fn lemma_written_record_is_read_back(
    flow: FlowView,
    tool: Tool,
    root: Seq<char>,
    purpose: PurposeView,
)
    requires
        purpose.tool() == tool,
        trimmed(root) == root,
    ensures
        flow.persist(tool, root, Seq::empty()).1.request == (RequestView::WriteFile {
            path: joined(flow.dir, tool.record_name()),
            text: root,
        }),
        flow.lookup(purpose, Seq::empty()).1.request == (RequestView::ReadFile {
            path: joined(flow.dir, tool.record_name()),
        }),
        flow.lookup(purpose, Seq::empty()).0.next(ReplyView::Text(Some(root))).0.next(
            ReplyView::Flag(true),
        ) == flow.recorded(purpose, Some(root)),
{
}

/// A setup that finds a valid record uses it without probing: it says so
/// and writes the record again. A setup without a valid record asks for
/// the tool's markers under its well-known roots, in their order.
pub proof fn lemma_valid_record_is_used_without_probing(
    flow: FlowView,
    tool: Tool,
    found: Option<Seq<char>>,
)
    ensures
        found matches Some(root) ==> flow.recorded(PurposeView::Setup(tool), found)
            == flow.persist(tool, root, existing_notice(root)),
        found matches Some(root) ==> flow.recorded(PurposeView::Setup(tool), found).1.request
            == (RequestView::WriteFile { path: joined(flow.dir, tool.record_name()), text: root }),
        found is None ==> flow.recorded(PurposeView::Setup(tool), found).1.request
            == (RequestView::Probe { paths: tool.markers(flow.dir) }),
        tool.markers(flow.dir).len() == tool.places(flow.dir).len(),
        forall|i: int|
            0 <= i < tool.places(flow.dir).len() ==> #[trigger] tool.markers(flow.dir)[i] == joined(
                tool.places(flow.dir)[i],
                tool.marker(),
            ),
{
}

/// The well-known roots of PostgreSQL, in the order in which they are
/// tried.
pub proof fn lemma_postgres_places(dir: Seq<char>)
    ensures
        Tool::PostgreSQL.places(dir) == seq![
            dir,
            joined(dir, "pgsql"@),
            joined(dir, "postgresql"@),
            "C:\\pgsql"@,
            "C:\\Program Files\\PostgreSQL"@,
        ],
        Tool::PostgreSQL.marker() == "bin\\postgres.exe"@,
{
}

/// Probing settles on the first well-known root whose marker exists, which
/// is then recorded; where no marker exists the operator is asked.
pub proof fn lemma_probing_settles_on_first_hit(flow: FlowView, tool: Tool, flags: Seq<bool>)
    requires
        flow.stage == StageView::Probe(tool),
    ensures
        crate::tools::first_hit(flags, 0, tool.places(flow.dir).len() as int) matches Some(i)
            ==> 0 <= i < tool.places(flow.dir).len() && i < flags.len() && flags[i] && (forall|
            j: int,
        |
            0 <= j < i ==> !flags[j]) && flow.next(ReplyView::Flags(flags)) == flow.persist(
            tool,
            tool.places(flow.dir)[i],
            Seq::empty(),
        ),
        crate::tools::first_hit(flags, 0, tool.places(flow.dir).len() as int) is None
            ==> flow.next(ReplyView::Flags(flags)).1.request == RequestView::ReadLine,
{
    crate::tools::lemma_probing_takes_the_first(flags, 0, tool.places(flow.dir).len() as int);
}

/// The start, the stop, the restart and the status run only on an
/// initialized cluster: each first asks whether the data directory exists,
/// and without it says so and stops, and no utility runs. The
/// initialization of the cluster asks no such thing.
pub proof fn lemma_cluster_comes_first(
    flow: FlowView,
    operation: OperationView,
    root: Seq<char>,
    reply: ReplyView,
)
    ensures
        operation.needs_cluster() <==> operation is Start || operation is Stop
            || operation is Restart || operation is Status,
        operation.needs_cluster() ==> flow.enter(operation, root) == (
            flow.at(StageView::Cluster(operation, root)),
            StepView::ask(RequestView::Exists { path: data_dir(root) }),
        ),
        reply != ReplyView::Flag(true) ==> flow.at(StageView::Cluster(operation, root)).next(reply)
            == flow.stop(NOT_INITIALIZED@, Seq::empty(), 0),
        flow.enter(OperationView::Init, root) == flow.launch(OperationView::Init, root),
        flow.launch(operation, root).1.request is Run,
{
}

/// The drop of a database waits for the operator's word unless it is
/// forced: the utility runs after the answer `SI`, with nothing but white
/// space around it, and after any other answer, or none, the drop is
/// cancelled and no utility runs. A forced drop runs the utility at once.
pub proof fn lemma_drop_waits_for_confirmation(
    flow: FlowView,
    name: Seq<char>,
    force: bool,
    root: Seq<char>,
    reply: ReplyView,
)
    ensures
        ({
            let operation = OperationView::DropDb { name, force };
            &&& force ==> flow.enter(operation, root) == flow.launch(operation, root)
            &&& !force ==> flow.enter(operation, root) == (
                flow.at(StageView::Confirm(operation, root)),
                StepView::tell(drop_warning(name), RequestView::ReadLine),
            )
            &&& (reply matches ReplyView::Text(Some(answer)) && trimmed(answer) == "SI"@)
                ==> flow.at(StageView::Confirm(operation, root)).next(reply) == flow.launch(
                operation,
                root,
            )
            &&& !(reply matches ReplyView::Text(Some(answer)) && trimmed(answer) == "SI"@)
                ==> flow.at(StageView::Confirm(operation, root)).next(reply) == flow.stop(
                CANCELLED@,
                Seq::empty(),
                0,
            )
            &&& flow.launch(operation, root).1.request == (RequestView::Run {
                program: joined(joined(root, "bin"@), "dropdb.exe"@),
                args: seq!["-U"@, "postgres"@, name],
                attached: false,
            })
        }),
{
}

/// A setup that runs again after it has put the tool's executables on the
/// user's `PATH` stores nothing a second time.
pub proof fn lemma_second_registration_writes_nothing(
    flow: FlowView,
    tool: Tool,
    root: Seq<char>,
    current: Seq<char>,
)
    requires
        crate::path::is_single_entry(tool.bin_of(root)),
    ensures
        flow.register(tool, root, crate::path::updated(current, tool.bin_of(root))).1.request
            == (RequestView::Stop { code: 0 }),
{
    crate::path::lemma_same_ignoring_case_is_equivalence(
        tool.bin_of(root),
        tool.bin_of(root),
        tool.bin_of(root),
    );
    if !crate::text::lists(current, tool.bin_of(root)) {
        crate::path::lemma_appended_is_listed(current, tool.bin_of(root), tool.bin_of(root));
    }
}

/// With no tool configured no script is written; with one at least, the
/// script is written to `setup-env.bat` in the configuration directory.
pub proof fn lemma_script_needs_a_tool(flow: FlowView, node: Option<Seq<char>>)
    ensures
        flow.mingw is None && flow.postgres is None && node is None ==> flow.recorded(
            PurposeView::Generate(Tool::NodeJs),
            node,
        ) == flow.stop(NO_CONFIGURATIONS@, Seq::empty(), 0),
        !(flow.mingw is None && flow.postgres is None && node is None) ==> flow.recorded(
            PurposeView::Generate(Tool::NodeJs),
            node,
        ).1.request == (RequestView::WriteFile {
            path: joined(flow.dir, "setup-env.bat"@),
            text: script(flow.mingw, flow.postgres, node)->0,
        }),
{
}

} // verus!
