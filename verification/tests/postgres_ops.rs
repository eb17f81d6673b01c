use devenv::config::DevEnvManager;
use devenv::postgres::commands::run_with_config;
use devenv::postgres::{
    backup_db, create_db, data_path, drop_db, init, is_confirmation, list_dbs, logs_path, psql,
    restart, restore_db, start, status, stop, Operation,
};
use devenv::flow::Flow;
use devenv::request::{Reply, Request, Step};
use devenv::tools::EnvironmentConfig;

fn store() -> DevEnvManager {
    DevEnvManager::new("D:\\work".to_string())
}

fn words(list: &[&str]) -> Vec<String> {
    list.iter().map(|s| s.to_string()).collect()
}

fn ask(request: Request) -> Step {
    Step { say: String::new(), complain: String::new(), request }
}

fn say(text: &str) -> Step {
    Step { say: text.to_string(), complain: String::new(), request: Request::Stop { code: 0 } }
}

fn complain(text: &str, code: u8) -> Step {
    Step { say: String::new(), complain: text.to_string(), request: Request::Stop { code } }
}

fn run(program: &str, args: &[&str]) -> Request {
    Request::Run { program: program.to_string(), args: words(args), attached: false }
}

fn exit(success: bool, out: &str, err: &str) -> Reply {
    Reply::Exit { success, out: out.to_string(), err: err.to_string() }
}

fn pg() -> EnvironmentConfig {
    EnvironmentConfig { path: "C:\\pgsql".to_string(), bin_dir: "C:\\pgsql\\bin".to_string() }
}

/// Takes a flow past the lookup of a PostgreSQL record at `C:\pgsql`.
fn configured(begun: (Flow, Step)) -> (Flow, Step) {
    let (flow, step) = begun;
    assert_eq!(step, ask(Request::ReadFile { path: "D:\\work\\.postgres-config".to_string() }));
    let (flow, step) = flow.step(Reply::Text(Some("C:\\pgsql\n".to_string())));
    assert_eq!(step, ask(Request::Exists { path: "C:\\pgsql".to_string() }));
    flow.step(Reply::Flag(true))
}

/// Takes a flow past the lookup and past the question for the cluster.
fn initialized(begun: (Flow, Step)) -> (Flow, Step) {
    let (flow, step) = configured(begun);
    assert_eq!(step, ask(Request::Exists { path: "C:\\pgsql\\data".to_string() }));
    flow.step(Reply::Flag(true))
}

#[test]
fn operations_need_a_recorded_location() {
    assert_eq!(run_with_config(Some("C:\\pgsql".to_string())), Ok(pg()));
    assert_eq!(
        run_with_config(None),
        Err("PostgreSQL no configurado\nEjecuta: devenv --setup-postgres\n".to_string())
    );
}

#[test]
fn every_operation_stops_without_a_record() {
    let begun: Vec<(Flow, Step)> = vec![
        init(&store()),
        start(&store()),
        stop(&store()),
        restart(&store()),
        status(&store()),
        list_dbs(&store()),
        create_db(&store(), &words(&["devenv", "--create-db", "shop"])),
        drop_db(&store(), &words(&["devenv", "--drop-db", "shop", "--force"])),
        backup_db(&store(), &words(&["devenv", "--backup-db", "shop", "shop.dump"])),
        restore_db(&store(), &words(&["devenv", "--restore-db", "shop", "shop.dump"])),
        psql(&store(), &words(&["devenv", "--psql"])),
    ];
    for (flow, step) in begun {
        assert_eq!(step, ask(Request::ReadFile { path: "D:\\work\\.postgres-config".to_string() }));
        let (flow, step) = flow.step(Reply::Text(None));
        assert_eq!(step, say("PostgreSQL no configurado\nEjecuta: devenv --setup-postgres\n"));
        assert!(flow.is_over());
    }
}

#[test]
fn a_stale_record_counts_as_no_record() {
    let (flow, _) = start(&store());
    let (flow, step) = flow.step(Reply::Text(Some("C:\\pgsql".to_string())));
    assert_eq!(step, ask(Request::Exists { path: "C:\\pgsql".to_string() }));
    let (_, step) = flow.step(Reply::Flag(false));
    assert_eq!(step, say("PostgreSQL no configurado\nEjecuta: devenv --setup-postgres\n"));
}

#[test]
fn directories_of_the_cluster() {
    assert_eq!(data_path("C:\\pgsql"), "C:\\pgsql\\data");
    assert_eq!(logs_path("C:\\pgsql"), "C:\\pgsql\\logs");
}

#[test]
fn command_lines_of_the_operations() {
    let name = || "shop".to_string();
    let file = || "shop.dump".to_string();
    assert_eq!(
        Operation::Init.request(&pg()),
        run(
            "C:\\pgsql\\bin\\initdb.exe",
            &["-D", "C:\\pgsql\\data", "-U", "postgres", "-E", "UTF8", "--locale=C", "-A", "trust"]
        )
    );
    assert_eq!(
        Operation::Start.request(&pg()),
        run(
            "C:\\pgsql\\bin\\pg_ctl.exe",
            &["start", "-D", "C:\\pgsql\\data", "-l", "C:\\pgsql\\logs\\postgres.log"]
        )
    );
    assert_eq!(
        Operation::Stop.request(&pg()),
        run("C:\\pgsql\\bin\\pg_ctl.exe", &["stop", "-D", "C:\\pgsql\\data", "-m", "fast"])
    );
    assert_eq!(
        Operation::Restart.request(&pg()),
        run(
            "C:\\pgsql\\bin\\pg_ctl.exe",
            &["restart", "-D", "C:\\pgsql\\data", "-l", "C:\\pgsql\\logs\\postgres.log"]
        )
    );
    assert_eq!(
        Operation::Status.request(&pg()),
        run("C:\\pgsql\\bin\\pg_ctl.exe", &["status", "-D", "C:\\pgsql\\data"])
    );
    assert_eq!(
        Operation::ListDbs.request(&pg()),
        run("C:\\pgsql\\bin\\psql.exe", &["-U", "postgres", "-l"])
    );
    assert_eq!(
        Operation::CreateDb { name: name() }.request(&pg()),
        run("C:\\pgsql\\bin\\createdb.exe", &["-U", "postgres", "shop"])
    );
    assert_eq!(
        Operation::DropDb { name: name(), force: false }.request(&pg()),
        run("C:\\pgsql\\bin\\dropdb.exe", &["-U", "postgres", "shop"])
    );
    assert_eq!(
        Operation::BackupDb { name: name(), file: file() }.request(&pg()),
        run(
            "C:\\pgsql\\bin\\pg_dump.exe",
            &["-U", "postgres", "-F", "c", "-f", "shop.dump", "shop"]
        )
    );
    assert_eq!(
        Operation::RestoreDb { name: name(), file: file() }.request(&pg()),
        run("C:\\pgsql\\bin\\pg_restore.exe", &["-U", "postgres", "-d", "shop", "shop.dump"])
    );
    assert_eq!(
        Operation::Psql { database: Some(name()) }.request(&pg()),
        Request::Run {
            program: "C:\\pgsql\\bin\\psql.exe".to_string(),
            args: words(&["-U", "postgres", "-d", "shop"]),
            attached: true,
        }
    );
    assert_eq!(
        Operation::Psql { database: None }.request(&pg()),
        Request::Run {
            program: "C:\\pgsql\\bin\\psql.exe".to_string(),
            args: words(&["-U", "postgres"]),
            attached: true,
        }
    );
    assert_eq!(Operation::Stop.utility(), "pg_ctl.exe");
    assert_eq!(Operation::Init.arguments("C:\\pgsql").len(), 9);
}

#[test]
fn which_operations_need_what() {
    let all = [
        (Operation::Init, false, false),
        (Operation::Start, true, true),
        (Operation::Stop, true, false),
        (Operation::Restart, true, true),
        (Operation::Status, true, false),
        (Operation::ListDbs, false, false),
        (Operation::CreateDb { name: "a".to_string() }, false, false),
        (Operation::Psql { database: None }, false, false),
    ];
    for (operation, cluster, logs) in all {
        assert_eq!(operation.needs_cluster(), cluster, "{:?}", operation);
        assert_eq!(operation.needs_logs(), logs, "{:?}", operation);
        assert!(!operation.needs_confirmation());
    }
    assert!(Operation::DropDb { name: "a".to_string(), force: false }.needs_confirmation());
    assert!(!Operation::DropDb { name: "a".to_string(), force: true }.needs_confirmation());
    assert_eq!(
        Operation::DropDb { name: "a".to_string(), force: false }.warning(),
        "¿Eliminar 'a'? (Esta acción no se puede deshacer)\nEscribe 'SI' para confirmar: "
    );
    assert_eq!(Operation::Init.warning(), "");
}

#[test]
fn init_runs_without_a_cluster() {
    let (flow, step) = configured(init(&store()));
    assert_eq!(
        step,
        ask(run(
            "C:\\pgsql\\bin\\initdb.exe",
            &["-D", "C:\\pgsql\\data", "-U", "postgres", "-E", "UTF8", "--locale=C", "-A", "trust"]
        ))
    );
    let (flow, step) = flow.step(exit(true, "ok", ""));
    assert_eq!(step, say("Cluster inicializado: C:\\pgsql\\data\n"));
    assert!(flow.is_over());
}

#[test]
fn init_relays_the_utilitys_error() {
    let (flow, _) = configured(init(&store()));
    let (_, step) = flow.step(exit(false, "", "initdb: directory exists"));
    assert_eq!(step, complain("Error: initdb: directory exists\n", 0));
}

#[test]
fn lifecycle_stops_without_a_cluster() {
    for begun in [start(&store()), stop(&store()), restart(&store()), status(&store())] {
        let (flow, step) = configured(begun);
        assert_eq!(step, ask(Request::Exists { path: "C:\\pgsql\\data".to_string() }));
        let (flow, step) = flow.step(Reply::Flag(false));
        assert_eq!(step, say("Cluster no inicializado\nEjecuta: devenv --init-postgres\n"));
        assert!(flow.is_over());
        let (_, step) = flow.step(Reply::Flag(true));
        assert_eq!(step, say(""));
    }
}

#[test]
fn start_makes_the_log_directory_first() {
    let (flow, step) = initialized(start(&store()));
    assert_eq!(step, ask(Request::CreateDirs { path: "C:\\pgsql\\logs".to_string() }));
    let (flow, step) = flow.step(Reply::Done(true));
    assert_eq!(
        step,
        ask(run(
            "C:\\pgsql\\bin\\pg_ctl.exe",
            &["start", "-D", "C:\\pgsql\\data", "-l", "C:\\pgsql\\logs\\postgres.log"]
        ))
    );
    let (_, step) = flow.step(exit(true, "", ""));
    assert_eq!(step, say("Servidor corriendo: localhost:5432\n"));
}

#[test]
fn start_without_a_log_directory_runs_nothing() {
    let (flow, _) = initialized(start(&store()));
    let (flow, step) = flow.step(Reply::Done(false));
    assert_eq!(step, say(""));
    assert!(flow.is_over());
}

#[test]
fn restart_makes_the_log_directory_first() {
    let (flow, step) = initialized(restart(&store()));
    assert_eq!(step, ask(Request::CreateDirs { path: "C:\\pgsql\\logs".to_string() }));
    let (flow, step) = flow.step(Reply::Done(true));
    assert_eq!(
        step,
        ask(run(
            "C:\\pgsql\\bin\\pg_ctl.exe",
            &["restart", "-D", "C:\\pgsql\\data", "-l", "C:\\pgsql\\logs\\postgres.log"]
        ))
    );
    let (_, step) = flow.step(exit(false, "", "x"));
    assert_eq!(step, complain("Error al reiniciar\n", 0));
}

#[test]
fn stop_is_fast() {
    let (flow, step) = initialized(stop(&store()));
    assert_eq!(
        step,
        ask(run("C:\\pgsql\\bin\\pg_ctl.exe", &["stop", "-D", "C:\\pgsql\\data", "-m", "fast"]))
    );
    let (_, step) = flow.step(exit(true, "", ""));
    assert_eq!(step, say("Servidor detenido\n"));
}

#[test]
fn status_tells_running_from_stopped() {
    let (flow, step) = initialized(status(&store()));
    assert_eq!(
        step,
        ask(run("C:\\pgsql\\bin\\pg_ctl.exe", &["status", "-D", "C:\\pgsql\\data"]))
    );
    let (_, step) = flow.clone().step(exit(true, "pg_ctl: server is running (PID: 42)", ""));
    assert_eq!(step, say("Servidor corriendo\npg_ctl: server is running (PID: 42)\n"));
    let (_, step) = flow.step(exit(false, "pg_ctl: no server running", ""));
    assert_eq!(step, say("Servidor detenido\n"));
}

#[test]
fn list_relays_the_output() {
    let (flow, step) = configured(list_dbs(&store()));
    assert_eq!(step, ask(run("C:\\pgsql\\bin\\psql.exe", &["-U", "postgres", "-l"])));
    let (_, step) = flow.step(exit(true, "postgres\nshop", ""));
    assert_eq!(step, say("postgres\nshop\n"));
}

#[test]
fn create_names_the_database() {
    let (flow, step) = configured(create_db(&store(), &words(&["devenv", "--create-db", "shop"])));
    assert_eq!(step, ask(run("C:\\pgsql\\bin\\createdb.exe", &["-U", "postgres", "shop"])));
    let (_, step) = flow.clone().step(exit(true, "", ""));
    assert_eq!(step, say("Base de datos 'shop' creada\n"));
    let (_, step) = flow.step(exit(false, "", "exists"));
    assert_eq!(step, complain("Error al crear\n", 0));
}

#[test]
fn a_utility_that_cannot_start_is_passed_over() {
    let (flow, _) = configured(create_db(&store(), &words(&["devenv", "--create-db", "shop"])));
    let (flow, step) = flow.step(Reply::Failed);
    assert_eq!(step, say(""));
    assert!(flow.is_over());
}

#[test]
fn create_without_a_name_is_refused() {
    let (flow, step) = create_db(&store(), &words(&["devenv", "--create-db"]));
    assert_eq!(
        step,
        complain("Falta nombre de base de datos\n  Uso: devenv --create-db <nombre>\n", 1)
    );
    assert!(flow.is_over());
}

#[test]
fn drop_without_a_name_is_refused() {
    let (flow, step) = drop_db(&store(), &words(&["devenv", "--drop-db"]));
    assert_eq!(
        step,
        complain("Falta nombre de base de datos\n  Uso: devenv --drop-db <nombre> [--force]\n", 1)
    );
    assert!(flow.is_over());
}

#[test]
fn backup_without_a_file_is_refused() {
    for args in [words(&["devenv", "--backup-db"]), words(&["devenv", "--backup-db", "shop"])] {
        let (flow, step) = backup_db(&store(), &args);
        assert_eq!(
            step,
            complain("Faltan parámetros\n  Uso: devenv --backup-db <db> <archivo.dump>\n", 1)
        );
        assert!(flow.is_over());
    }
}

#[test]
fn restore_without_a_file_is_refused() {
    for args in [words(&["devenv", "--restore-db"]), words(&["devenv", "--restore-db", "shop"])] {
        let (flow, step) = restore_db(&store(), &args);
        assert_eq!(
            step,
            complain("Faltan parámetros\n  Uso: devenv --restore-db <db> <archivo.dump>\n", 1)
        );
        assert!(flow.is_over());
    }
}

#[test]
fn the_word_of_confirmation() {
    assert!(is_confirmation("SI"));
    assert!(is_confirmation("SI\n"));
    assert!(is_confirmation("  SI \r\n"));
    assert!(!is_confirmation("si"));
    assert!(!is_confirmation("Si"));
    assert!(!is_confirmation("yes"));
    assert!(!is_confirmation(""));
    assert!(!is_confirmation("\n"));
    assert!(!is_confirmation("SI !"));
    assert!(!is_confirmation("S I"));
    assert!(!is_confirmation("SII"));
}

fn drop_after(answer: Reply) -> (Flow, Step) {
    let (flow, step) = configured(drop_db(&store(), &words(&["devenv", "--drop-db", "shop"])));
    assert_eq!(
        step,
        Step {
            say: "¿Eliminar 'shop'? (Esta acción no se puede deshacer)\nEscribe 'SI' para confirmar: "
                .to_string(),
            complain: String::new(),
            request: Request::ReadLine,
        }
    );
    flow.step(answer)
}

#[test]
fn drop_proceeds_after_the_word() {
    let (flow, step) = drop_after(Reply::Text(Some("SI\r\n".to_string())));
    assert_eq!(step, ask(run("C:\\pgsql\\bin\\dropdb.exe", &["-U", "postgres", "shop"])));
    let (_, step) = flow.clone().step(exit(true, "", ""));
    assert_eq!(step, say("Base de datos 'shop' eliminada\n"));
    let (_, step) = flow.step(exit(false, "", ""));
    assert_eq!(step, complain("Error al eliminar\n", 0));
}

#[test]
fn drop_is_cancelled_after_anything_else() {
    for answer in ["si\n", "yes\n", "\n", "", "SI !\n", "NO\n"] {
        let (flow, step) = drop_after(Reply::Text(Some(answer.to_string())));
        assert_eq!(step, say("Cancelado\n"), "answer {:?}", answer);
        assert!(flow.is_over());
    }
    let (flow, step) = drop_after(Reply::Text(None));
    assert_eq!(step, say("Cancelado\n"));
    assert!(flow.is_over());
    let (_, step) = drop_after(Reply::Failed);
    assert_eq!(step, say("Cancelado\n"));
}

#[test]
fn a_forced_drop_asks_nothing() {
    let (_, step) =
        configured(drop_db(&store(), &words(&["devenv", "--drop-db", "shop", "--force"])));
    assert_eq!(step, ask(run("C:\\pgsql\\bin\\dropdb.exe", &["-U", "postgres", "shop"])));
}

#[test]
fn only_the_literal_flag_forces_a_drop() {
    let (_, step) =
        configured(drop_db(&store(), &words(&["devenv", "--drop-db", "shop", "--Force"])));
    assert_eq!(step.request, Request::ReadLine);
    let (_, step) =
        configured(drop_db(&store(), &words(&["devenv", "--drop-db", "shop", "x", "--force"])));
    assert_eq!(step.request, Request::ReadLine);
}

#[test]
fn backup_writes_a_custom_archive() {
    let (flow, step) =
        configured(backup_db(&store(), &words(&["devenv", "--backup-db", "shop", "shop.dump"])));
    assert_eq!(
        step,
        ask(run(
            "C:\\pgsql\\bin\\pg_dump.exe",
            &["-U", "postgres", "-F", "c", "-f", "shop.dump", "shop"]
        ))
    );
    let (_, step) = flow.clone().step(exit(true, "", ""));
    assert_eq!(step, say("Respaldo: shop.dump\n"));
    let (_, step) = flow.step(exit(false, "", ""));
    assert_eq!(step, complain("Error al respaldar\n", 0));
}

#[test]
fn restore_reads_the_archive() {
    let (flow, step) =
        configured(restore_db(&store(), &words(&["devenv", "--restore-db", "shop", "shop.dump"])));
    assert_eq!(
        step,
        ask(run("C:\\pgsql\\bin\\pg_restore.exe", &["-U", "postgres", "-d", "shop", "shop.dump"]))
    );
    let (_, step) = flow.clone().step(exit(true, "", ""));
    assert_eq!(step, say("Base de datos restaurada\n"));
    let (_, step) = flow.step(exit(false, "", ""));
    assert_eq!(step, complain("Error al restaurar\n", 0));
}

#[test]
fn the_client_takes_over_the_console() {
    let (flow, step) = configured(psql(&store(), &words(&["devenv", "--psql", "shop"])));
    assert_eq!(
        step,
        ask(Request::Run {
            program: "C:\\pgsql\\bin\\psql.exe".to_string(),
            args: words(&["-U", "postgres", "-d", "shop"]),
            attached: true,
        })
    );
    let (flow, step) = flow.step(exit(false, "", ""));
    assert_eq!(step, say(""));
    assert!(flow.is_over());
    let (_, step) = configured(psql(&store(), &words(&["devenv", "--psql"])));
    assert_eq!(
        step,
        ask(Request::Run {
            program: "C:\\pgsql\\bin\\psql.exe".to_string(),
            args: words(&["-U", "postgres"]),
            attached: true,
        })
    );
}

#[test]
fn reports_after_the_utility_ended() {
    assert_eq!(Operation::Start.report("C:\\pgsql", exit(false, "", "")), complain("Error al iniciar\n", 0));
    assert_eq!(Operation::Stop.report("C:\\pgsql", exit(false, "", "")), complain("Error al detener\n", 0));
    assert_eq!(Operation::Restart.report("C:\\pgsql", exit(true, "", "")), say("Servidor reiniciado\n"));
    assert_eq!(
        Operation::ListDbs.report("C:\\pgsql", exit(false, "partial", "boom")),
        say("partial\n")
    );
    assert_eq!(Operation::Init.report("C:\\pgsql", Reply::Done(true)), say(""));
}
