//! The dispatcher: from the command line to the flow of the command that
//! it names.

use vstd::prelude::*;
use crate::config::DevEnvManager;
use crate::flow::{Flow, FlowView, Purpose, PurposeView};
use crate::postgres::{backup_db_plan, create_db_plan, drop_db_plan, psql_plan, restore_db_plan};
use crate::postgres::{run, OperationView};
use crate::request::{Step, StepView};
use crate::text::{owned, same};
use crate::tools::Tool;
use crate::ui::HELP;

verus! {

/// The complaint where the working directory cannot be determined.
pub const NO_DIRECTORY: &'static str = "Error: no se pudo determinar el directorio de trabajo\n";

/// The flow that ends at once, in silence and with 0.
pub open spec fn silence(dir: Seq<char>) -> (FlowView, StepView) {
    FlowView::idle(dir).stop(Seq::empty(), Seq::empty(), 0)
}

/// The flow of the command line `args`, whose second token names the
/// command, on the store in `dir`. A token that names no command gives
/// silence.
pub open spec fn route(dir: Seq<char>, args: Seq<Seq<char>>) -> (FlowView, StepView)
    recommends
        args.len() >= 2,
{
    let command = args[1];
    if command == "--DQM27"@ {
        FlowView::idle(dir).stop(HELP@, Seq::empty(), 0)
    } else if command == "--setup-mingw"@ {
        FlowView::begin(dir, PurposeView::Setup(Tool::MinGW64))
    } else if command == "--setup-postgres"@ {
        FlowView::begin(dir, PurposeView::Setup(Tool::PostgreSQL))
    } else if command == "--setup-node"@ {
        FlowView::begin(dir, PurposeView::Setup(Tool::NodeJs))
    } else if command == "--generate-script"@ {
        FlowView::begin(dir, PurposeView::Generate(Tool::MinGW64))
    } else if command == "--verify"@ {
        FlowView::begin(dir, PurposeView::Verify(Tool::MinGW64))
    } else if command == "--init-postgres"@ {
        run(dir, OperationView::Init)
    } else if command == "--start-postgres"@ {
        run(dir, OperationView::Start)
    } else if command == "--stop-postgres"@ {
        run(dir, OperationView::Stop)
    } else if command == "--restart-postgres"@ {
        run(dir, OperationView::Restart)
    } else if command == "--status-postgres"@ {
        run(dir, OperationView::Status)
    } else if command == "--list-dbs"@ {
        run(dir, OperationView::ListDbs)
    } else if command == "--create-db"@ {
        create_db_plan(dir, args)
    } else if command == "--drop-db"@ {
        drop_db_plan(dir, args)
    } else if command == "--backup-db"@ {
        backup_db_plan(dir, args)
    } else if command == "--restore-db"@ {
        restore_db_plan(dir, args)
    } else if command == "--psql"@ {
        psql_plan(dir, args)
    } else {
        silence(dir)
    }
}

/// The flow of the command line `args`, the program's name being its
/// first token, given the working directory where it could be determined.
/// Without a command there is silence. Else the working directory is
/// needed, and without it the process ends with 1.
pub open spec fn plan(args: Seq<Seq<char>>, cwd: Option<Seq<char>>) -> (FlowView, StepView) {
    if args.len() < 2 {
        silence(Seq::empty())
    } else {
        match cwd {
            Some(dir) => route(dir, args),
            None => FlowView::idle(Seq::empty()).stop(Seq::empty(), NO_DIRECTORY@, 1),
        }
    }
}

/// Starts the command that the command line `args` names, on the store in
/// the working directory `cwd`.
pub fn dispatch(args: &Vec<String>, cwd: Option<String>) -> (r: (Flow, Step))
    ensures
        r@ == plan(args.deep_view(), cwd.deep_view()),
{
    if args.len() < 2 {
        let nowhere = DevEnvManager::new(String::new());
        return Flow::ended(&nowhere, String::new(), String::new(), 0);
    }
    let manager = match cwd {
        Some(dir) => DevEnvManager::new(dir),
        None => {
            let nowhere = DevEnvManager::new(String::new());
            return Flow::ended(&nowhere, String::new(), owned(NO_DIRECTORY), 1);
        },
    };
    let command = args[1].as_str();
    if same(command, "--DQM27") {
        Flow::ended(&manager, crate::ui::show_help(), String::new(), 0)
    } else if same(command, "--setup-mingw") {
        crate::tools::setup_mingw(&manager, args)
    } else if same(command, "--setup-postgres") {
        crate::tools::setup_postgres(&manager, args)
    } else if same(command, "--setup-node") {
        crate::tools::setup_node(&manager, args)
    } else if same(command, "--generate-script") {
        Flow::begin(&manager, Purpose::Generate(Tool::MinGW64))
    } else if same(command, "--verify") {
        Flow::begin(&manager, Purpose::Verify(Tool::MinGW64))
    } else if same(command, "--init-postgres") {
        crate::postgres::init(&manager)
    } else if same(command, "--start-postgres") {
        crate::postgres::start(&manager)
    } else if same(command, "--stop-postgres") {
        crate::postgres::stop(&manager)
    } else if same(command, "--restart-postgres") {
        crate::postgres::restart(&manager)
    } else if same(command, "--status-postgres") {
        crate::postgres::status(&manager)
    } else if same(command, "--list-dbs") {
        crate::postgres::list_dbs(&manager)
    } else if same(command, "--create-db") {
        crate::postgres::create_db(&manager, args)
    } else if same(command, "--drop-db") {
        crate::postgres::drop_db(&manager, args)
    } else if same(command, "--backup-db") {
        crate::postgres::backup_db(&manager, args)
    } else if same(command, "--restore-db") {
        crate::postgres::restore_db(&manager, args)
    } else if same(command, "--psql") {
        crate::postgres::psql(&manager, args)
    } else {
        Flow::ended(&manager, String::new(), String::new(), 0)
    }
}

/// Whether `token` names a command.
pub open spec fn is_command(token: Seq<char>) -> bool {
    ||| token == "--DQM27"@
    ||| token == "--setup-mingw"@
    ||| token == "--setup-postgres"@
    ||| token == "--setup-node"@
    ||| token == "--generate-script"@
    ||| token == "--verify"@
    ||| token == "--init-postgres"@
    ||| token == "--start-postgres"@
    ||| token == "--stop-postgres"@
    ||| token == "--restart-postgres"@
    ||| token == "--status-postgres"@
    ||| token == "--list-dbs"@
    ||| token == "--create-db"@
    ||| token == "--drop-db"@
    ||| token == "--backup-db"@
    ||| token == "--restore-db"@
    ||| token == "--psql"@
}

/// A command line without a command, or with a token that names none,
/// gives silence: nothing is said, nothing is asked for, and the process
/// ends with 0.
pub proof fn lemma_dispatch_silence(args: Seq<Seq<char>>, cwd: Option<Seq<char>>)
    requires
        args.len() < 2 || (cwd is Some && !is_command(args[1])),
    ensures
        plan(args, cwd).1 == StepView::stop(Seq::empty(), Seq::empty(), 0),
        plan(args, cwd).0.stage is Over,
{
}

/// The creation of a database without a name, and a backup without a
/// database or without a file, are refused before anything is looked up
/// or run: the first step is the last, and the process ends with 1.
pub proof fn lemma_missing_arguments_are_refused(args: Seq<Seq<char>>, dir: Seq<char>)
    requires
        args.len() >= 2,
    ensures
        args[1] == "--create-db"@ && args.len() < 3 ==> plan(args, Some(dir))
            == crate::postgres::refusal(dir, crate::postgres::CREATE_USAGE@),
        args[1] == "--backup-db"@ && args.len() < 4 ==> plan(args, Some(dir))
            == crate::postgres::refusal(dir, crate::postgres::BACKUP_USAGE@),
        forall|usage: Seq<char>| #[trigger]
            crate::postgres::refusal(dir, usage).1.request == (crate::request::RequestView::Stop {
                code: 1,
            }),
{
    reveal_strlit("--DQM27");
    reveal_strlit("--setup-mingw");
    reveal_strlit("--setup-postgres");
    reveal_strlit("--setup-node");
    reveal_strlit("--generate-script");
    reveal_strlit("--verify");
    reveal_strlit("--init-postgres");
    reveal_strlit("--start-postgres");
    reveal_strlit("--stop-postgres");
    reveal_strlit("--restart-postgres");
    reveal_strlit("--status-postgres");
    reveal_strlit("--list-dbs");
    reveal_strlit("--create-db");
    reveal_strlit("--drop-db");
    reveal_strlit("--backup-db");
    if args[1] == "--create-db"@ {
        assert(args[1][3] == 'r');
    }
    if args[1] == "--backup-db"@ {
        assert(args[1][2] == 'b');
    }
}

} // verus!
