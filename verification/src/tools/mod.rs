//! The three tools, what is known of each, and how a tool is found among
//! its well-known locations.

pub mod mingw;
pub mod node;
pub mod postgres;

use vstd::prelude::*;
use crate::config::DevEnvManager;
use crate::flow::{Flow, FlowView, PurposeView};
use crate::request::Step;
use crate::text::{is_separator, join, joined, owned, push_text};

verus! {

/// A tool whose location this library keeps.
#[derive(Debug, Clone, Copy, PartialEq, Eq, Structural)]
pub enum Tool {
    MinGW64,
    PostgreSQL,
    NodeJs,
}

/// Where a tool is installed: its root, and the directory that holds its
/// executables.
#[derive(Debug, Clone, PartialEq, Eq)]
pub struct EnvironmentConfig {
    pub path: String,
    pub bin_dir: String,
}

/// The mathematical content of an [`EnvironmentConfig`].
pub struct ConfigView {
    pub path: Seq<char>,
    pub bin_dir: Seq<char>,
}

impl View for EnvironmentConfig {
    type V = ConfigView;

    open spec fn view(&self) -> ConfigView {
        ConfigView { path: self.path@, bin_dir: self.bin_dir@ }
    }
}

impl DeepView for EnvironmentConfig {
    type V = ConfigView;

    open spec fn deep_view(&self) -> ConfigView {
        self@
    }
}

impl Tool {
    /// The name of the file that records where the tool is.
    pub open spec fn record_name(self) -> Seq<char> {
        match self {
            Tool::MinGW64 => ".mingw64-config"@,
            Tool::PostgreSQL => ".postgres-config"@,
            Tool::NodeJs => ".node-config"@,
        }
    }

    /// The name of the tool as the operator reads it.
    pub open spec fn title(self) -> Seq<char> {
        match self {
            Tool::MinGW64 => "MinGW64"@,
            Tool::PostgreSQL => "PostgreSQL"@,
            Tool::NodeJs => "Node.js"@,
        }
    }

    /// The executable, relative to the root, whose presence shows that a
    /// directory holds the tool.
    pub open spec fn marker(self) -> Seq<char> {
        match self {
            Tool::MinGW64 => "bin\\gcc.exe"@,
            Tool::PostgreSQL => "bin\\postgres.exe"@,
            Tool::NodeJs => "node.exe"@,
        }
    }

    /// The directory of the tool's executables for an installation at
    /// `root`: `bin` under the root, but the root itself for Node.js.
    pub open spec fn bin_of(self, root: Seq<char>) -> Seq<char> {
        match self {
            Tool::MinGW64 => joined(root, "bin"@),
            Tool::PostgreSQL => joined(root, "bin"@),
            Tool::NodeJs => root,
        }
    }

    /// The configuration of the tool for an installation at `root`.
    pub open spec fn config_at(self, root: Seq<char>) -> ConfigView {
        ConfigView { path: root, bin_dir: self.bin_of(root) }
    }

    /// The well-known roots of the tool, in the order in which they are
    /// tried, for the configuration directory `dir`.
    pub open spec fn places(self, dir: Seq<char>) -> Seq<Seq<char>> {
        match self {
            Tool::MinGW64 => seq![joined(dir, "mingw64"@), "C:\\mingw64"@, "C:\\msys64\\mingw64"@],
            Tool::PostgreSQL => seq![
                dir,
                joined(dir, "pgsql"@),
                joined(dir, "postgresql"@),
                "C:\\pgsql"@,
                "C:\\Program Files\\PostgreSQL"@,
            ],
            Tool::NodeJs => seq![
                "C:\\Program Files\\nodejs"@,
                "C:\\Program Files (x86)\\nodejs"@,
                joined(dir, "node"@),
            ],
        }
    }

    /// The marker executables to look for, one under each well-known root.
    pub open spec fn markers(self, dir: Seq<char>) -> Seq<Seq<char>> {
        Seq::new(self.places(dir).len(), |i: int| joined(self.places(dir)[i], self.marker()))
    }

    /// The name of the file that records where the tool is.
    pub fn config_file(self) -> (r: &'static str)
        ensures
            r@ == self.record_name(),
    {
        match self {
            Tool::MinGW64 => ".mingw64-config",
            Tool::PostgreSQL => ".postgres-config",
            Tool::NodeJs => ".node-config",
        }
    }

    /// The name of the tool as the operator reads it.
    pub fn name(self) -> (r: &'static str)
        ensures
            r@ == self.title(),
    {
        match self {
            Tool::MinGW64 => "MinGW64",
            Tool::PostgreSQL => "PostgreSQL",
            Tool::NodeJs => "Node.js",
        }
    }

    /// The executable, relative to the root, whose presence shows that a
    /// directory holds the tool.
    pub fn validator(self) -> (r: &'static str)
        ensures
            r@ == self.marker(),
    {
        match self {
            Tool::MinGW64 => "bin\\gcc.exe",
            Tool::PostgreSQL => "bin\\postgres.exe",
            Tool::NodeJs => "node.exe",
        }
    }

    /// The configuration of the tool for an installation at `root`.
    pub fn configure(self, root: String) -> (r: EnvironmentConfig)
        ensures
            r@ == self.config_at(root@),
    {
        let bin_dir = match self {
            Tool::MinGW64 => join(root.as_str(), "bin"),
            Tool::PostgreSQL => join(root.as_str(), "bin"),
            Tool::NodeJs => root.clone(),
        };
        EnvironmentConfig { path: root, bin_dir }
    }

    /// The well-known roots of the tool, in the order in which they are
    /// tried.
    pub fn locations(self, manager: &DevEnvManager) -> (r: Vec<String>)
        ensures
            r.deep_view() == self.places(manager.config_dir@),
    {
        let dir = manager.config_dir.as_str();
        let mut r: Vec<String> = Vec::new();
        match self {
            Tool::MinGW64 => {
                push_text(&mut r, join(dir, "mingw64"));
                push_text(&mut r, owned("C:\\mingw64"));
                push_text(&mut r, owned("C:\\msys64\\mingw64"));
            },
            Tool::PostgreSQL => {
                push_text(&mut r, owned(dir));
                push_text(&mut r, join(dir, "pgsql"));
                push_text(&mut r, join(dir, "postgresql"));
                push_text(&mut r, owned("C:\\pgsql"));
                push_text(&mut r, owned("C:\\Program Files\\PostgreSQL"));
            },
            Tool::NodeJs => {
                push_text(&mut r, owned("C:\\Program Files\\nodejs"));
                push_text(&mut r, owned("C:\\Program Files (x86)\\nodejs"));
                push_text(&mut r, join(dir, "node"));
            },
        }
        r
    }

    /// The marker executables to look for, one under each well-known root.
    pub fn validators(self, manager: &DevEnvManager) -> (r: Vec<String>)
        ensures
            r.deep_view() == self.markers(manager.config_dir@),
    {
        let roots = self.locations(manager);
        let ghost places = self.places(manager.config_dir@);
        let mut r: Vec<String> = Vec::new();
        let mut i: usize = 0;
        while i < roots.len()
            invariant
                i <= roots.len(),
                roots.deep_view() == places,
                r.deep_view() == Seq::new(i as nat, |k: int| joined(places[k], self.marker())),
            decreases roots.len() - i,
        {
            push_text(&mut r, join(roots[i].as_str(), self.validator()));
            i += 1;
        }
        r
    }
}

/// Starts the setup of MinGW64. The arguments of the command line play no
/// part in it.
pub fn setup_mingw(manager: &DevEnvManager, _args: &Vec<String>) -> (r: (Flow, Step))
    ensures
        r@ == FlowView::begin(manager.config_dir@, PurposeView::Setup(Tool::MinGW64)),
{
    mingw::setup(manager)
}

/// Starts the setup of PostgreSQL. The arguments of the command line play
/// no part in it.
pub fn setup_postgres(manager: &DevEnvManager, _args: &Vec<String>) -> (r: (Flow, Step))
    ensures
        r@ == FlowView::begin(manager.config_dir@, PurposeView::Setup(Tool::PostgreSQL)),
{
    postgres::setup(manager)
}

/// Starts the setup of Node.js. The arguments of the command line play no
/// part in it.
pub fn setup_node(manager: &DevEnvManager, _args: &Vec<String>) -> (r: (Flow, Step))
    ensures
        r@ == FlowView::begin(manager.config_dir@, PurposeView::Setup(Tool::NodeJs)),
{
    node::setup(manager)
}

/// The first index below `limit`, from `from` on, at which `flags` holds.
pub open spec fn first_hit(flags: Seq<bool>, from: int, limit: int) -> Option<int>
    decreases limit - from,
{
    if from < 0 || from >= limit || from >= flags.len() {
        None
    } else if flags[from] {
        Some(from)
    } else {
        first_hit(flags, from + 1, limit)
    }
}

/// The configuration that probing yields for `tool`, given for each of its
/// well-known roots, in order, whether the marker executable exists there:
/// that of the first root where it does.
pub open spec fn probed(tool: Tool, dir: Seq<char>, flags: Seq<bool>) -> Option<ConfigView> {
    match first_hit(flags, 0, tool.places(dir).len() as int) {
        Some(i) => Some(tool.config_at(tool.places(dir)[i])),
        None => None,
    }
}

/// Picks the installation of `tool` among its well-known roots, given for
/// each of them, in order, whether the marker executable exists there.
pub fn find(tool: Tool, manager: &DevEnvManager, flags: &Vec<bool>) -> (r: Option<
    EnvironmentConfig,
>)
    ensures
        r.deep_view() == probed(tool, manager.config_dir@, flags@),
{
    let roots = tool.locations(manager);
    let ghost places = tool.places(manager.config_dir@);
    let n = roots.len();
    let mut i: usize = 0;
    while i < n && i < flags.len()
        invariant
            i <= n,
            n == roots.len(),
            n == places.len(),
            places == tool.places(manager.config_dir@),
            roots.deep_view() == places,
            first_hit(flags@, 0, n as int) == first_hit(flags@, i as int, n as int),
        decreases n - i,
    {
        if flags[i] {
            let config = tool.configure(owned(roots[i].as_str()));
            return Some(config);
        }
        i += 1;
    }
    None
}

/// Probing yields the first well-known root whose marker executable
/// exists, and nothing where none does.
pub proof fn lemma_probing_takes_the_first(flags: Seq<bool>, from: int, limit: int)
    requires
        0 <= from,
    ensures
        first_hit(flags, from, limit) matches Some(i) ==> from <= i < limit && i < flags.len()
            && flags[i] && forall|j: int| from <= j < i ==> !flags[j],
        first_hit(flags, from, limit) is None ==> forall|j: int|
            from <= j < limit && j < flags.len() ==> !flags[j],
    decreases limit - from,
{
    if from >= limit || from >= flags.len() {
    } else if flags[from] {
    } else {
        lemma_probing_takes_the_first(flags, from + 1, limit);
    }
}

/// The executables of Node.js are in its root; those of MinGW64 and of
/// PostgreSQL are in `bin` under the root, which for a root that does not
/// end in a separator is the root, a backslash and `bin`.
pub proof fn lemma_bin_dir_rule(root: Seq<char>)
    ensures
        Tool::NodeJs.config_at(root).bin_dir == root,
        Tool::MinGW64.config_at(root).bin_dir == joined(root, "bin"@),
        Tool::PostgreSQL.config_at(root).bin_dir == joined(root, "bin"@),
        root.len() > 0 && !is_separator(root.last()) ==> joined(root, "bin"@) == root + seq!['\\']
            + "bin"@,
{
}

} // verus!
