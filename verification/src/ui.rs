//! What the operator reads: the usage reference and the report of the
//! tools that are configured.

use vstd::prelude::*;
use crate::tools::Tool;

verus! {

/// The usage reference: every command, by group, with examples.
pub const HELP: &'static str =
    "\nDevEnv CLI - Gestor de Entornos\n\nCONFIGURACIÓN:\n  --setup-mingw          Buscar y configurar MinGW64\n  --setup-postgres       Buscar y configurar PostgreSQL\n  --setup-node           Buscar y configurar Node.js\n  --generate-script      Generar setup-env.bat\n  --verify               Verificar herramientas instaladas\n\nPOSTGRESQL - SERVIDOR:\n  --init-postgres        Inicializar cluster (primera vez)\n  --start-postgres       Iniciar servidor\n  --stop-postgres        Detener servidor\n  --restart-postgres     Reiniciar servidor\n  --status-postgres      Ver estado del servidor\n\nPOSTGRESQL - BASES DE DATOS:\n  --list-dbs             Listar todas las bases de datos\n  --create-db <nombre>   Crear base de datos\n  --drop-db <nombre>     Eliminar base de datos\n  --backup-db <db> <archivo.dump>\n                         Respaldar base de datos\n  --restore-db <db> <archivo.dump>\n                         Restaurar base de datos\n  --psql [db]            Conectar con psql (opcional: nombre db)\n\nOTROS:\n  --DQM27                Mostrar esta ayuda\n\nEJEMPLOS:\n  devenv --setup-postgres\n  devenv --start-postgres\n  devenv --create-db mi_base\n  devenv --backup-db mi_base backup.dump\n  devenv --psql mi_base\n\n";

/// The line of the report for `tool`: its location, or that it has none.
pub open spec fn report_line(tool: Tool, root: Option<Seq<char>>) -> Seq<char> {
    match root {
        Some(root) => tool.title() + ": "@ + root + "\n"@,
        None => tool.title() + ": No configurado\n"@,
    }
}

/// The report of the configured tools, given the locations of MinGW64,
/// PostgreSQL and Node.js.
pub open spec fn report(
    mingw: Option<Seq<char>>,
    postgres: Option<Seq<char>>,
    node: Option<Seq<char>>,
) -> Seq<char> {
    "\nVerificación de Herramientas\n\n"@ + report_line(Tool::MinGW64, mingw) + report_line(
        Tool::PostgreSQL,
        postgres,
    ) + report_line(Tool::NodeJs, node)
}

/// The usage reference: every command, by group, with examples.
pub fn show_help() -> (r: String)
    ensures
        r@ == HELP@,
{
    String::from_str(HELP)
}

/// Adds to `report` the line for `tool`.
fn add_line(report: &mut String, tool: Tool, root: Option<&str>)
    ensures
        final(report)@ == old(report)@ + report_line(tool, root.deep_view()),
{
    report.append(tool.name());
    match root {
        Some(root) => {
            report.append(": ");
            report.append(root);
            report.append("\n");
        },
        None => {
            report.append(": No configurado\n");
        },
    }
}

/// The report of the configured tools, given the locations of MinGW64,
/// PostgreSQL and Node.js: for each tool its location, or that it has
/// none.
pub fn verify_tools(mingw: Option<&str>, postgres: Option<&str>, node: Option<&str>) -> (r: String)
    ensures
        r@ == report(mingw.deep_view(), postgres.deep_view(), node.deep_view()),
{
    let mut report = String::from_str("\nVerificación de Herramientas\n\n");
    add_line(&mut report, Tool::MinGW64, mingw);
    add_line(&mut report, Tool::PostgreSQL, postgres);
    add_line(&mut report, Tool::NodeJs, node);
    report
}

} // verus!
