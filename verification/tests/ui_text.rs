use devenv::config::DevEnvManager;
use devenv::flow::{Flow, Purpose};
use devenv::request::{Reply, Request, Step};
use devenv::tools::Tool;
use devenv::ui::{show_help, verify_tools};

#[test]
fn help_covers_every_command() {
    let help = show_help();
    let commands = [
        "--DQM27",
        "--setup-mingw",
        "--setup-postgres",
        "--setup-node",
        "--generate-script",
        "--verify",
        "--init-postgres",
        "--start-postgres",
        "--stop-postgres",
        "--restart-postgres",
        "--status-postgres",
        "--list-dbs",
        "--create-db <nombre>",
        "--drop-db <nombre>",
        "--backup-db <db> <archivo.dump>",
        "--restore-db <db> <archivo.dump>",
        "--psql [db]",
    ];
    for command in commands {
        assert!(help.contains(command), "{}", command);
    }
    for group in ["CONFIGURACIÓN:", "POSTGRESQL - SERVIDOR:", "POSTGRESQL - BASES DE DATOS:", "OTROS:", "EJEMPLOS:"] {
        assert!(help.contains(group), "{}", group);
    }
    assert!(help.starts_with("\nDevEnv CLI - Gestor de Entornos\n\nCONFIGURACIÓN:\n  --setup-mingw          Buscar y configurar MinGW64\n"));
    assert!(help.ends_with("  devenv --psql mi_base\n\n"));
    assert_eq!(help.lines().count(), 37);
}

#[test]
fn report_of_no_tools() {
    assert_eq!(
        verify_tools(None, None, None),
        "\nVerificación de Herramientas\n\nMinGW64: No configurado\nPostgreSQL: No configurado\nNode.js: No configurado\n"
    );
}

#[test]
fn report_of_some_tools() {
    assert_eq!(
        verify_tools(Some("C:\\mingw64"), None, Some("C:\\Program Files\\nodejs")),
        "\nVerificación de Herramientas\n\nMinGW64: C:\\mingw64\nPostgreSQL: No configurado\nNode.js: C:\\Program Files\\nodejs\n"
    );
    assert_eq!(
        verify_tools(None, Some("C:\\pgsql"), None),
        "\nVerificación de Herramientas\n\nMinGW64: No configurado\nPostgreSQL: C:\\pgsql\nNode.js: No configurado\n"
    );
}

#[test]
fn verification_looks_up_all_three_records() {
    let store = DevEnvManager::new("D:\\work".to_string());
    let ask = |request: Request| Step { say: String::new(), complain: String::new(), request };
    let (flow, step) = Flow::begin(&store, Purpose::Verify(Tool::MinGW64));
    assert_eq!(step, ask(Request::ReadFile { path: "D:\\work\\.mingw64-config".to_string() }));
    let (flow, step) = flow.step(Reply::Text(Some(" C:\\mingw64 ".to_string())));
    assert_eq!(step, ask(Request::Exists { path: "C:\\mingw64".to_string() }));
    let (flow, step) = flow.step(Reply::Flag(true));
    assert_eq!(step, ask(Request::ReadFile { path: "D:\\work\\.postgres-config".to_string() }));
    let (flow, step) = flow.step(Reply::Text(Some("C:\\gone".to_string())));
    assert_eq!(step, ask(Request::Exists { path: "C:\\gone".to_string() }));
    let (flow, step) = flow.step(Reply::Flag(false));
    assert_eq!(step, ask(Request::ReadFile { path: "D:\\work\\.node-config".to_string() }));
    let (flow, step) = flow.step(Reply::Text(None));
    assert_eq!(
        step,
        Step {
            say: "\nVerificación de Herramientas\n\nMinGW64: C:\\mingw64\nPostgreSQL: No configurado\nNode.js: No configurado\n".to_string(),
            complain: String::new(),
            request: Request::Stop { code: 0 },
        }
    );
    assert!(flow.is_over());
}
