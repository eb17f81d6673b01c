//! The text of `setup-env.bat`, the batch script that prepares one
//! terminal session for the tools that are configured.

use vstd::prelude::*;
use crate::text::join;
use crate::text::joined;
use crate::tools::Tool;

verus! {

/// The name of the generated script, inside the configuration directory.
pub const SCRIPT_NAME: &'static str = "setup-env.bat";

/// The lines that open the script.
pub const HEADER: &'static str = "@echo off\nREM Generado por DevEnv CLI\n\n";

/// The lines that close the script.
pub const FOOTER: &'static str = "echo.\necho [OK] Entorno configurado\n";

/// The line that puts the executables of `tool`, installed at `root`, in
/// front of the session's `PATH`.
pub open spec fn path_line(tool: Tool, root: Seq<char>) -> Seq<char> {
    "set PATH="@ + tool.bin_of(root) + ";%PATH%\n"@
}

/// The block of the script for `tool`, installed at `root`.
pub open spec fn block(tool: Tool, root: Seq<char>) -> Seq<char> {
    let bin = tool.bin_of(root);
    match tool {
        Tool::MinGW64 => path_line(tool, root) + "set CC="@ + bin + "\\gcc.exe\n"@ + "set CXX="@
            + bin + "\\g++.exe\n"@ + "set AR="@ + bin + "\\ar.exe\n"@ + "set C_INCLUDE_PATH="@
            + joined(root, "include"@) + "\n"@ + "set LIBRARY_PATH="@ + joined(root, "lib"@)
            + "\n"@ + "echo [OK] MinGW64\n\n"@,
        Tool::PostgreSQL => path_line(tool, root) + "set PGDATA="@ + joined(root, "data"@) + "\n"@
            + "set PGHOST=localhost\nset PGPORT=5432\nset PGUSER=postgres\n"@ + "set PQ_LIB_DIR="@
            + joined(root, "lib"@) + "\n"@ + "set PG_CONFIG="@ + bin + "\\pg_config.exe\n"@
            + "echo [OK] PostgreSQL\n\n"@,
        Tool::NodeJs => path_line(tool, root) + "echo [OK] Node.js\n\n"@,
    }
}

/// The part of the script that `tool` takes: its block where it is
/// configured, nothing where it is not.
pub open spec fn section(tool: Tool, root: Option<Seq<char>>) -> Seq<char> {
    match root {
        Some(root) => block(tool, root),
        None => Seq::empty(),
    }
}

/// The script for the given locations of MinGW64, PostgreSQL and Node.js:
/// none where no tool is configured; else the header, the blocks of the
/// configured tools in that order, and the footer.
pub open spec fn script(
    mingw: Option<Seq<char>>,
    postgres: Option<Seq<char>>,
    node: Option<Seq<char>>,
) -> Option<Seq<char>> {
    if mingw is None && postgres is None && node is None {
        None
    } else {
        Some(
            HEADER@ + section(Tool::MinGW64, mingw) + section(Tool::PostgreSQL, postgres)
                + section(Tool::NodeJs, node) + FOOTER@,
        )
    }
}

/// Adds to `script` the line `set NAME=VALUE TAIL`, the tail ending the line.
fn set_line(script: &mut String, name: &str, value: &str, tail: &str)
    ensures
        final(script)@ == old(script)@ + name@ + value@ + tail@,
{
    script.append(name);
    script.append(value);
    script.append(tail);
}

/// Adds to `script` the block for `tool`, installed at `root`.
fn add_block(script: &mut String, tool: Tool, root: &str)
    ensures
        final(script)@ == old(script)@ + block(tool, root@),
{
    let config = tool.configure(crate::text::owned(root));
    let bin = config.bin_dir.as_str();
    set_line(script, "set PATH=", bin, ";%PATH%\n");
    match tool {
        Tool::MinGW64 => {
            let headers = join(root, "include");
            let lib = join(root, "lib");
            set_line(script, "set CC=", bin, "\\gcc.exe\n");
            set_line(script, "set CXX=", bin, "\\g++.exe\n");
            set_line(script, "set AR=", bin, "\\ar.exe\n");
            set_line(script, "set C_INCLUDE_PATH=", headers.as_str(), "\n");
            set_line(script, "set LIBRARY_PATH=", lib.as_str(), "\n");
            script.append("echo [OK] MinGW64\n\n");
        },
        Tool::PostgreSQL => {
            let data = join(root, "data");
            let lib = join(root, "lib");
            set_line(script, "set PGDATA=", data.as_str(), "\n");
            script.append("set PGHOST=localhost\nset PGPORT=5432\nset PGUSER=postgres\n");
            set_line(script, "set PQ_LIB_DIR=", lib.as_str(), "\n");
            set_line(script, "set PG_CONFIG=", bin, "\\pg_config.exe\n");
            script.append("echo [OK] PostgreSQL\n\n");
        },
        Tool::NodeJs => {
            script.append("echo [OK] Node.js\n\n");
        },
    }
}

/// Adds to `script` the part that `tool` takes.
fn add_section(script: &mut String, tool: Tool, root: Option<&str>)
    ensures
        final(script)@ == old(script)@ + section(tool, root.deep_view()),
{
    match root {
        Some(root) => add_block(script, tool, root),
        None => {},
    }
}

/// Writes the setup script for the given locations of MinGW64, PostgreSQL
/// and Node.js. There is no script where none of the three is configured.
pub fn generate(mingw: Option<&str>, postgres: Option<&str>, node: Option<&str>) -> (r: Option<
    String,
>)
    ensures
        r.deep_view() == script(mingw.deep_view(), postgres.deep_view(), node.deep_view()),
        r is None <==> mingw is None && postgres is None && node is None,
{
    if mingw.is_none() && postgres.is_none() && node.is_none() {
        return None;
    }
    let mut script = String::from_str(HEADER);
    add_section(&mut script, Tool::MinGW64, mingw);
    add_section(&mut script, Tool::PostgreSQL, postgres);
    add_section(&mut script, Tool::NodeJs, node);
    script.append(FOOTER);
    Some(script)
}

/// The script puts Node.js on `PATH` by its root, and the other two tools
/// by `bin` under their roots.
pub proof fn lemma_script_path_lines(root: Seq<char>)
    ensures
        path_line(Tool::NodeJs, root) == "set PATH="@ + root + ";%PATH%\n"@,
        path_line(Tool::MinGW64, root) == "set PATH="@ + joined(root, "bin"@) + ";%PATH%\n"@,
        path_line(Tool::PostgreSQL, root) == "set PATH="@ + joined(root, "bin"@) + ";%PATH%\n"@,
        block(Tool::NodeJs, root) == "set PATH="@ + root + ";%PATH%\n"@ + "echo [OK] Node.js\n\n"@,
{
}

/// With Node.js alone configured, the script is the header, the block of
/// Node.js and the footer.
pub proof fn lemma_script_of_node_alone(root: Seq<char>)
    ensures
        script(None, None, Some(root)) == Some(HEADER@ + block(Tool::NodeJs, root) + FOOTER@),
{
}

} // verus!
