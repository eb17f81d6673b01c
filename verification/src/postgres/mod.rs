//! The PostgreSQL operations: which utility each one runs, with which
//! arguments, what must hold before it runs and what is said afterwards.
//!
//! Every utility runs as the role `postgres`; a cluster is made with the
//! encoding `UTF8`, the locale `C` and the authentication method `trust`.

pub mod commands;

use vstd::prelude::*;
use crate::config::DevEnvManager;
use crate::flow::{Flow, FlowView, Purpose, PurposeView};
use crate::request::{Reply, ReplyView, Request, RequestView, Step, StepView};
use crate::text::{cat, cat3, join, joined, owned, push_text, same, trim, trimmed};
use crate::tools::{ConfigView, EnvironmentConfig};

verus! {

/// One operation on the PostgreSQL server or on its databases.
#[derive(Debug, Clone, PartialEq, Eq)]
pub enum Operation {
    Init,
    Start,
    Stop,
    Restart,
    Status,
    ListDbs,
    CreateDb { name: String },
    DropDb { name: String, force: bool },
    BackupDb { name: String, file: String },
    RestoreDb { name: String, file: String },
    Psql { database: Option<String> },
}

/// The mathematical content of an [`Operation`].
pub enum OperationView {
    Init,
    Start,
    Stop,
    Restart,
    Status,
    ListDbs,
    CreateDb { name: Seq<char> },
    DropDb { name: Seq<char>, force: bool },
    BackupDb { name: Seq<char>, file: Seq<char> },
    RestoreDb { name: Seq<char>, file: Seq<char> },
    Psql { database: Option<Seq<char>> },
}

impl View for Operation {
    type V = OperationView;

    open spec fn view(&self) -> OperationView {
        match *self {
            Operation::Init => OperationView::Init,
            Operation::Start => OperationView::Start,
            Operation::Stop => OperationView::Stop,
            Operation::Restart => OperationView::Restart,
            Operation::Status => OperationView::Status,
            Operation::ListDbs => OperationView::ListDbs,
            Operation::CreateDb { name } => OperationView::CreateDb { name: name@ },
            Operation::DropDb { name, force } => OperationView::DropDb { name: name@, force },
            Operation::BackupDb { name, file } => OperationView::BackupDb {
                name: name@,
                file: file@,
            },
            Operation::RestoreDb { name, file } => OperationView::RestoreDb {
                name: name@,
                file: file@,
            },
            Operation::Psql { database } => OperationView::Psql { database: database.deep_view() },
        }
    }
}

/// The data directory of the cluster of an installation at `root`.
pub open spec fn data_dir(root: Seq<char>) -> Seq<char> {
    joined(root, "data"@)
}

/// The directory of the server's log of an installation at `root`.
pub open spec fn logs_dir(root: Seq<char>) -> Seq<char> {
    joined(root, "logs"@)
}

/// The server's log file of an installation at `root`.
pub open spec fn log_file(root: Seq<char>) -> Seq<char> {
    joined(logs_dir(root), "postgres.log"@)
}

/// What is said where the cluster has not been initialized.
pub const NOT_INITIALIZED: &'static str =
    "Cluster no inicializado\nEjecuta: devenv --init-postgres\n";

/// What is said where the operator did not confirm.
pub const CANCELLED: &'static str = "Cancelado\n";

/// The word that confirms the drop of a database.
pub const CONFIRMATION: &'static str = "SI";

/// The complaint where the creation of a database is asked for without a
/// name.
pub const CREATE_USAGE: &'static str =
    "Falta nombre de base de datos\n  Uso: devenv --create-db <nombre>\n";

/// The complaint where the drop of a database is asked for without a name.
pub const DROP_USAGE: &'static str =
    "Falta nombre de base de datos\n  Uso: devenv --drop-db <nombre> [--force]\n";

/// The complaint where a backup is asked for without a database or
/// without a file.
pub const BACKUP_USAGE: &'static str =
    "Faltan parámetros\n  Uso: devenv --backup-db <db> <archivo.dump>\n";

/// The complaint where a restore is asked for without a database or
/// without a file.
pub const RESTORE_USAGE: &'static str =
    "Faltan parámetros\n  Uso: devenv --restore-db <db> <archivo.dump>\n";

/// The warning before a database called `name` is dropped, which asks for
/// the word of confirmation.
pub open spec fn drop_warning(name: Seq<char>) -> Seq<char> {
    "¿Eliminar '"@ + name + "'? (Esta acción no se puede deshacer)\nEscribe 'SI' para confirmar: "@
}

/// Whether the operator's `answer` confirms the drop of a database: it is
/// the word `SI`, with nothing but white space around it.
pub open spec fn confirms(answer: Seq<char>) -> bool {
    trimmed(answer) == CONFIRMATION@
}

impl OperationView {
    /// The utility that the operation runs, by its file name.
    pub open spec fn utility(self) -> Seq<char> {
        match self {
            OperationView::Init => "initdb.exe"@,
            OperationView::Start => "pg_ctl.exe"@,
            OperationView::Stop => "pg_ctl.exe"@,
            OperationView::Restart => "pg_ctl.exe"@,
            OperationView::Status => "pg_ctl.exe"@,
            OperationView::ListDbs => "psql.exe"@,
            OperationView::CreateDb { .. } => "createdb.exe"@,
            OperationView::DropDb { .. } => "dropdb.exe"@,
            OperationView::BackupDb { .. } => "pg_dump.exe"@,
            OperationView::RestoreDb { .. } => "pg_restore.exe"@,
            OperationView::Psql { .. } => "psql.exe"@,
        }
    }

    /// The arguments that the utility gets, for an installation at `root`.
    pub open spec fn arguments(self, root: Seq<char>) -> Seq<Seq<char>> {
        match self {
            OperationView::Init => seq![
                "-D"@,
                data_dir(root),
                "-U"@,
                "postgres"@,
                "-E"@,
                "UTF8"@,
                "--locale=C"@,
                "-A"@,
                "trust"@,
            ],
            OperationView::Start => seq!["start"@, "-D"@, data_dir(root), "-l"@, log_file(root)],
            OperationView::Stop => seq!["stop"@, "-D"@, data_dir(root), "-m"@, "fast"@],
            OperationView::Restart => seq![
                "restart"@,
                "-D"@,
                data_dir(root),
                "-l"@,
                log_file(root),
            ],
            OperationView::Status => seq!["status"@, "-D"@, data_dir(root)],
            OperationView::ListDbs => seq!["-U"@, "postgres"@, "-l"@],
            OperationView::CreateDb { name } => seq!["-U"@, "postgres"@, name],
            OperationView::DropDb { name, .. } => seq!["-U"@, "postgres"@, name],
            OperationView::BackupDb { name, file } => seq![
                "-U"@,
                "postgres"@,
                "-F"@,
                "c"@,
                "-f"@,
                file,
                name,
            ],
            OperationView::RestoreDb { name, file } => seq![
                "-U"@,
                "postgres"@,
                "-d"@,
                name,
                file,
            ],
            OperationView::Psql { database } => match database {
                Some(name) => seq!["-U"@, "postgres"@, "-d"@, name],
                None => seq!["-U"@, "postgres"@],
            },
        }
    }

    /// The request that runs the operation's utility under `config`. The
    /// interactive client alone takes over the console.
    pub open spec fn request(self, config: ConfigView) -> RequestView {
        RequestView::Run {
            program: joined(config.bin_dir, self.utility()),
            args: self.arguments(config.path),
            attached: self is Psql,
        }
    }

    /// Whether the operation runs only on an initialized cluster.
    pub open spec fn needs_cluster(self) -> bool {
        self is Start || self is Stop || self is Restart || self is Status
    }

    /// Whether the operation writes the server's log, whose directory must
    /// then exist.
    pub open spec fn needs_logs(self) -> bool {
        self is Start || self is Restart
    }

    /// Whether the operation waits for the operator's confirmation: the
    /// drop of a database does, unless it is forced.
    pub open spec fn needs_confirmation(self) -> bool {
        self matches OperationView::DropDb { force, .. } && !force
    }

    /// The warning that asks for the confirmation.
    pub open spec fn warning(self) -> Seq<char> {
        match self {
            OperationView::DropDb { name, .. } => drop_warning(name),
            _ => Seq::empty(),
        }
    }

    /// What is said after the utility ended with success.
    pub open spec fn success_text(self, root: Seq<char>, out: Seq<char>) -> Seq<char> {
        match self {
            OperationView::Init => "Cluster inicializado: "@ + data_dir(root) + "\n"@,
            OperationView::Start => "Servidor corriendo: localhost:5432\n"@,
            OperationView::Stop => "Servidor detenido\n"@,
            OperationView::Restart => "Servidor reiniciado\n"@,
            OperationView::Status => "Servidor corriendo\n"@ + out + "\n"@,
            OperationView::ListDbs => out + "\n"@,
            OperationView::CreateDb { name } => "Base de datos '"@ + name + "' creada\n"@,
            OperationView::DropDb { name, .. } => "Base de datos '"@ + name + "' eliminada\n"@,
            OperationView::BackupDb { file, .. } => "Respaldo: "@ + file + "\n"@,
            OperationView::RestoreDb { .. } => "Base de datos restaurada\n"@,
            OperationView::Psql { .. } => Seq::empty(),
        }
    }

    /// What is said on standard output after the utility ended with a
    /// failure: for the status, that the server is stopped, which is what
    /// that failure means; for the list of databases, what the utility
    /// wrote.
    pub open spec fn failure_text(self, out: Seq<char>) -> Seq<char> {
        match self {
            OperationView::Status => "Servidor detenido\n"@,
            OperationView::ListDbs => out + "\n"@,
            _ => Seq::empty(),
        }
    }

    /// What is said on standard error after the utility ended with a
    /// failure.
    pub open spec fn failure_complaint(self, err: Seq<char>) -> Seq<char> {
        match self {
            OperationView::Init => "Error: "@ + err + "\n"@,
            OperationView::Start => "Error al iniciar\n"@,
            OperationView::Stop => "Error al detener\n"@,
            OperationView::Restart => "Error al reiniciar\n"@,
            OperationView::Status => Seq::empty(),
            OperationView::ListDbs => Seq::empty(),
            OperationView::CreateDb { .. } => "Error al crear\n"@,
            OperationView::DropDb { .. } => "Error al eliminar\n"@,
            OperationView::BackupDb { .. } => "Error al respaldar\n"@,
            OperationView::RestoreDb { .. } => "Error al restaurar\n"@,
            OperationView::Psql { .. } => Seq::empty(),
        }
    }

    /// The last step of the operation, given the answer to its run: what
    /// is said of the utility's end. A utility that could not be started
    /// is passed over in silence. The process ends with 0 either way.
    pub open spec fn report(self, root: Seq<char>, reply: ReplyView) -> StepView {
        match reply {
            ReplyView::Exit { success, out, err } => if success {
                StepView::stop(self.success_text(root, out), Seq::empty(), 0)
            } else {
                StepView::stop(self.failure_text(out), self.failure_complaint(err), 0)
            },
            _ => StepView::stop(Seq::empty(), Seq::empty(), 0),
        }
    }
}

/// The flow of an operation on the store in `dir`.
pub open spec fn run(dir: Seq<char>, operation: OperationView) -> (FlowView, StepView) {
    FlowView::begin(dir, PurposeView::Postgres(operation))
}

/// The flow that refuses a command line for want of arguments: nothing is
/// looked up or run, and the process ends with 1.
pub open spec fn refusal(dir: Seq<char>, usage: Seq<char>) -> (FlowView, StepView) {
    FlowView::idle(dir).stop(Seq::empty(), usage, 1)
}

/// The flow of `--create-db` for the command line `args`, whose third
/// token names the database.
pub open spec fn create_db_plan(dir: Seq<char>, args: Seq<Seq<char>>) -> (FlowView, StepView) {
    if args.len() < 3 {
        refusal(dir, CREATE_USAGE@)
    } else {
        run(dir, OperationView::CreateDb { name: args[2] })
    }
}

/// The flow of `--drop-db` for the command line `args`, whose third token
/// names the database; a fourth token `--force` waives the confirmation.
pub open spec fn drop_db_plan(dir: Seq<char>, args: Seq<Seq<char>>) -> (FlowView, StepView) {
    if args.len() < 3 {
        refusal(dir, DROP_USAGE@)
    } else {
        run(
            dir,
            OperationView::DropDb { name: args[2], force: args.len() > 3 && args[3] == "--force"@ },
        )
    }
}

/// The flow of `--backup-db` for the command line `args`, whose third
/// token names the database and whose fourth names the archive to write.
pub open spec fn backup_db_plan(dir: Seq<char>, args: Seq<Seq<char>>) -> (FlowView, StepView) {
    if args.len() < 4 {
        refusal(dir, BACKUP_USAGE@)
    } else {
        run(dir, OperationView::BackupDb { name: args[2], file: args[3] })
    }
}

/// The flow of `--restore-db` for the command line `args`, whose third
/// token names the database and whose fourth names the archive to read.
pub open spec fn restore_db_plan(dir: Seq<char>, args: Seq<Seq<char>>) -> (FlowView, StepView) {
    if args.len() < 4 {
        refusal(dir, RESTORE_USAGE@)
    } else {
        run(dir, OperationView::RestoreDb { name: args[2], file: args[3] })
    }
}

/// The flow of `--psql` for the command line `args`, whose third token, if
/// there is one, names the database to open.
pub open spec fn psql_plan(dir: Seq<char>, args: Seq<Seq<char>>) -> (FlowView, StepView) {
    run(
        dir,
        OperationView::Psql {
            database: if args.len() > 2 {
                Some(args[2])
            } else {
                None
            },
        },
    )
}

/// The data directory of the cluster of an installation at `root`.
pub fn data_path(root: &str) -> (r: String)
    ensures
        r@ == data_dir(root@),
{
    join(root, "data")
}

/// The directory of the server's log of an installation at `root`.
pub fn logs_path(root: &str) -> (r: String)
    ensures
        r@ == logs_dir(root@),
{
    join(root, "logs")
}

/// Tells whether the operator's `answer` confirms the drop of a database.
pub fn is_confirmation(answer: &str) -> (r: bool)
    ensures
        r == confirms(answer@),
{
    let word = trim(answer);
    same(word.as_str(), CONFIRMATION)
}

impl Operation {
    /// Tells whether the operation runs only on an initialized cluster.
    pub fn needs_cluster(&self) -> (r: bool)
        ensures
            r == self@.needs_cluster(),
    {
        match self {
            Operation::Start => true,
            Operation::Stop => true,
            Operation::Restart => true,
            Operation::Status => true,
            _ => false,
        }
    }

    /// Tells whether the operation writes the server's log.
    pub fn needs_logs(&self) -> (r: bool)
        ensures
            r == self@.needs_logs(),
    {
        match self {
            Operation::Start => true,
            Operation::Restart => true,
            _ => false,
        }
    }

    /// Tells whether the operation waits for the operator's confirmation.
    pub fn needs_confirmation(&self) -> (r: bool)
        ensures
            r == self@.needs_confirmation(),
    {
        match self {
            Operation::DropDb { force, .. } => !*force,
            _ => false,
        }
    }

    /// The warning that asks for the confirmation.
    pub fn warning(&self) -> (r: String)
        ensures
            r@ == self@.warning(),
    {
        match self {
            Operation::DropDb { name, .. } => cat3(
                "¿Eliminar '",
                name.as_str(),
                "'? (Esta acción no se puede deshacer)\nEscribe 'SI' para confirmar: ",
            ),
            _ => String::new(),
        }
    }

    /// The utility that the operation runs, by its file name.
    pub fn utility(&self) -> (r: &'static str)
        ensures
            r@ == self@.utility(),
    {
        match self {
            Operation::Init => "initdb.exe",
            Operation::Start => "pg_ctl.exe",
            Operation::Stop => "pg_ctl.exe",
            Operation::Restart => "pg_ctl.exe",
            Operation::Status => "pg_ctl.exe",
            Operation::ListDbs => "psql.exe",
            Operation::CreateDb { .. } => "createdb.exe",
            Operation::DropDb { .. } => "dropdb.exe",
            Operation::BackupDb { .. } => "pg_dump.exe",
            Operation::RestoreDb { .. } => "pg_restore.exe",
            Operation::Psql { .. } => "psql.exe",
        }
    }

    /// The arguments that the utility gets, for an installation at `root`.
    pub fn arguments(&self, root: &str) -> (r: Vec<String>)
        ensures
            r.deep_view() == self@.arguments(root@),
    {
        let mut r: Vec<String> = Vec::new();
        match self {
            Operation::Init => {
                push_text(&mut r, owned("-D"));
                push_text(&mut r, data_path(root));
                push_text(&mut r, owned("-U"));
                push_text(&mut r, owned("postgres"));
                push_text(&mut r, owned("-E"));
                push_text(&mut r, owned("UTF8"));
                push_text(&mut r, owned("--locale=C"));
                push_text(&mut r, owned("-A"));
                push_text(&mut r, owned("trust"));
            },
            Operation::Start => {
                push_text(&mut r, owned("start"));
                push_text(&mut r, owned("-D"));
                push_text(&mut r, data_path(root));
                push_text(&mut r, owned("-l"));
                push_text(&mut r, join(logs_path(root).as_str(), "postgres.log"));
            },
            Operation::Stop => {
                push_text(&mut r, owned("stop"));
                push_text(&mut r, owned("-D"));
                push_text(&mut r, data_path(root));
                push_text(&mut r, owned("-m"));
                push_text(&mut r, owned("fast"));
            },
            Operation::Restart => {
                push_text(&mut r, owned("restart"));
                push_text(&mut r, owned("-D"));
                push_text(&mut r, data_path(root));
                push_text(&mut r, owned("-l"));
                push_text(&mut r, join(logs_path(root).as_str(), "postgres.log"));
            },
            Operation::Status => {
                push_text(&mut r, owned("status"));
                push_text(&mut r, owned("-D"));
                push_text(&mut r, data_path(root));
            },
            Operation::ListDbs => {
                push_text(&mut r, owned("-U"));
                push_text(&mut r, owned("postgres"));
                push_text(&mut r, owned("-l"));
            },
            Operation::CreateDb { name } => {
                push_text(&mut r, owned("-U"));
                push_text(&mut r, owned("postgres"));
                push_text(&mut r, owned(name.as_str()));
            },
            Operation::DropDb { name, .. } => {
                push_text(&mut r, owned("-U"));
                push_text(&mut r, owned("postgres"));
                push_text(&mut r, owned(name.as_str()));
            },
            Operation::BackupDb { name, file } => {
                push_text(&mut r, owned("-U"));
                push_text(&mut r, owned("postgres"));
                push_text(&mut r, owned("-F"));
                push_text(&mut r, owned("c"));
                push_text(&mut r, owned("-f"));
                push_text(&mut r, owned(file.as_str()));
                push_text(&mut r, owned(name.as_str()));
            },
            Operation::RestoreDb { name, file } => {
                push_text(&mut r, owned("-U"));
                push_text(&mut r, owned("postgres"));
                push_text(&mut r, owned("-d"));
                push_text(&mut r, owned(name.as_str()));
                push_text(&mut r, owned(file.as_str()));
            },
            Operation::Psql { database } => {
                push_text(&mut r, owned("-U"));
                push_text(&mut r, owned("postgres"));
                match database {
                    Some(name) => {
                        push_text(&mut r, owned("-d"));
                        push_text(&mut r, owned(name.as_str()));
                    },
                    None => {},
                }
            },
        }
        r
    }

    /// The request that runs the operation's utility under `config`.
    pub fn request(&self, config: &EnvironmentConfig) -> (r: Request)
        ensures
            r@ == self@.request(config@),
    {
        let attached = match self {
            Operation::Psql { .. } => true,
            _ => false,
        };
        Request::Run {
            program: join(config.bin_dir.as_str(), self.utility()),
            args: self.arguments(config.path.as_str()),
            attached,
        }
    }

    /// The last step of the operation, given the answer to its run.
    pub fn report(&self, root: &str, reply: Reply) -> (r: Step)
        ensures
            r@ == self@.report(root@, reply@),
    {
        match reply {
            Reply::Exit { success, out, err } => if success {
                let say = match self {
                    Operation::Init => cat3("Cluster inicializado: ", data_path(root).as_str(), "\n"),
                    Operation::Start => owned("Servidor corriendo: localhost:5432\n"),
                    Operation::Stop => owned("Servidor detenido\n"),
                    Operation::Restart => owned("Servidor reiniciado\n"),
                    Operation::Status => cat3("Servidor corriendo\n", out.as_str(), "\n"),
                    Operation::ListDbs => cat(out.as_str(), "\n"),
                    Operation::CreateDb { name } => cat3("Base de datos '", name.as_str(), "' creada\n"),
                    Operation::DropDb { name, .. } => cat3(
                        "Base de datos '",
                        name.as_str(),
                        "' eliminada\n",
                    ),
                    Operation::BackupDb { file, .. } => cat3("Respaldo: ", file.as_str(), "\n"),
                    Operation::RestoreDb { .. } => owned("Base de datos restaurada\n"),
                    Operation::Psql { .. } => String::new(),
                };
                Step::stop(say, String::new(), 0)
            } else {
                let say = match self {
                    Operation::Status => owned("Servidor detenido\n"),
                    Operation::ListDbs => cat(out.as_str(), "\n"),
                    _ => String::new(),
                };
                let complain = match self {
                    Operation::Init => cat3("Error: ", err.as_str(), "\n"),
                    Operation::Start => owned("Error al iniciar\n"),
                    Operation::Stop => owned("Error al detener\n"),
                    Operation::Restart => owned("Error al reiniciar\n"),
                    Operation::Status => String::new(),
                    Operation::ListDbs => String::new(),
                    Operation::CreateDb { .. } => owned("Error al crear\n"),
                    Operation::DropDb { .. } => owned("Error al eliminar\n"),
                    Operation::BackupDb { .. } => owned("Error al respaldar\n"),
                    Operation::RestoreDb { .. } => owned("Error al restaurar\n"),
                    Operation::Psql { .. } => String::new(),
                };
                Step::stop(say, complain, 0)
            },
            _ => Step::stop(String::new(), String::new(), 0),
        }
    }
}

/// Starts the initialization of the cluster, the one operation on the
/// server that runs without a data directory.
pub fn init(manager: &DevEnvManager) -> (r: (Flow, Step))
    ensures
        r@ == run(manager.config_dir@, OperationView::Init),
{
    Flow::begin(manager, Purpose::Postgres(Operation::Init))
}

/// Starts the start of the server.
pub fn start(manager: &DevEnvManager) -> (r: (Flow, Step))
    ensures
        r@ == run(manager.config_dir@, OperationView::Start),
{
    Flow::begin(manager, Purpose::Postgres(Operation::Start))
}

/// Starts the stop of the server, in the fast mode.
pub fn stop(manager: &DevEnvManager) -> (r: (Flow, Step))
    ensures
        r@ == run(manager.config_dir@, OperationView::Stop),
{
    Flow::begin(manager, Purpose::Postgres(Operation::Stop))
}

/// Starts the restart of the server.
pub fn restart(manager: &DevEnvManager) -> (r: (Flow, Step))
    ensures
        r@ == run(manager.config_dir@, OperationView::Restart),
{
    Flow::begin(manager, Purpose::Postgres(Operation::Restart))
}

/// Starts the report of whether the server runs.
pub fn status(manager: &DevEnvManager) -> (r: (Flow, Step))
    ensures
        r@ == run(manager.config_dir@, OperationView::Status),
{
    Flow::begin(manager, Purpose::Postgres(Operation::Status))
}

/// Starts the listing of the databases.
pub fn list_dbs(manager: &DevEnvManager) -> (r: (Flow, Step))
    ensures
        r@ == run(manager.config_dir@, OperationView::ListDbs),
{
    Flow::begin(manager, Purpose::Postgres(Operation::ListDbs))
}

/// The flow that refuses a command line for want of arguments.
fn refuse(manager: &DevEnvManager, usage: &str) -> (r: (Flow, Step))
    ensures
        r@ == refusal(manager.config_dir@, usage@),
{
    Flow::ended(manager, String::new(), owned(usage), 1)
}

/// Starts the creation of the database that the third token of `args`
/// names; without that token the command line is refused.
pub fn create_db(manager: &DevEnvManager, args: &Vec<String>) -> (r: (Flow, Step))
    ensures
        r@ == create_db_plan(manager.config_dir@, args.deep_view()),
{
    if args.len() < 3 {
        return refuse(manager, CREATE_USAGE);
    }
    Flow::begin(manager, Purpose::Postgres(Operation::CreateDb { name: owned(args[2].as_str()) }))
}

/// Starts the drop of the database that the third token of `args` names;
/// without that token the command line is refused. The operator is asked
/// to confirm unless the fourth token is `--force`.
pub fn drop_db(manager: &DevEnvManager, args: &Vec<String>) -> (r: (Flow, Step))
    ensures
        r@ == drop_db_plan(manager.config_dir@, args.deep_view()),
{
    if args.len() < 3 {
        return refuse(manager, DROP_USAGE);
    }
    let force = args.len() > 3 && same(args[3].as_str(), "--force");
    Flow::begin(
        manager,
        Purpose::Postgres(Operation::DropDb { name: owned(args[2].as_str()), force }),
    )
}

/// Starts the backup of the database that the third token of `args` names
/// into the archive that the fourth names; without them the command line
/// is refused.
pub fn backup_db(manager: &DevEnvManager, args: &Vec<String>) -> (r: (Flow, Step))
    ensures
        r@ == backup_db_plan(manager.config_dir@, args.deep_view()),
{
    if args.len() < 4 {
        return refuse(manager, BACKUP_USAGE);
    }
    Flow::begin(
        manager,
        Purpose::Postgres(
            Operation::BackupDb { name: owned(args[2].as_str()), file: owned(args[3].as_str()) },
        ),
    )
}

/// Starts the restore of the database that the third token of `args`
/// names from the archive that the fourth names; without them the command
/// line is refused.
pub fn restore_db(manager: &DevEnvManager, args: &Vec<String>) -> (r: (Flow, Step))
    ensures
        r@ == restore_db_plan(manager.config_dir@, args.deep_view()),
{
    if args.len() < 4 {
        return refuse(manager, RESTORE_USAGE);
    }
    Flow::begin(
        manager,
        Purpose::Postgres(
            Operation::RestoreDb { name: owned(args[2].as_str()), file: owned(args[3].as_str()) },
        ),
    )
}

/// Starts the interactive client, on the database that the third token of
/// `args` names where there is one.
pub fn psql(manager: &DevEnvManager, args: &Vec<String>) -> (r: (Flow, Step))
    ensures
        r@ == psql_plan(manager.config_dir@, args.deep_view()),
{
    let database = if args.len() > 2 {
        Some(owned(args[2].as_str()))
    } else {
        None
    };
    Flow::begin(manager, Purpose::Postgres(Operation::Psql { database }))
}

} // verus!
