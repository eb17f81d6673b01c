//! The configuration store: where the record of each tool lives, what a
//! record's text names, and how a location typed in by hand is accepted.

use vstd::prelude::*;
use crate::request::{Request, RequestView, Step, StepView};
use crate::text::{
    cat, cat3, join, joined, owned, push_text, result_text, strip_quotes, trim, trimmed,
    unquoted,
};

verus! {

/// The store of the tools' location records: one small text file for each
/// tool, directly inside `config_dir`.
#[derive(Debug, Clone, PartialEq, Eq)]
pub struct DevEnvManager {
    pub config_dir: String,
}

/// The location that a record holds, given the text of its file (none
/// where the file could not be read) and whether the path that the text
/// names exists on disk: the text without the white space around it, and
/// nothing where that path does not exist.
pub open spec fn loaded(text: Option<Seq<char>>, exists: bool) -> Option<Seq<char>> {
    match text {
        Some(t) => if exists {
            Some(trimmed(t))
        } else {
            None
        },
        None => None,
    }
}

/// The location that a typed line names: the line without the white space
/// around it and without one layer of double quotes.
pub open spec fn candidate(line: Seq<char>) -> Seq<char> {
    unquoted(trimmed(line))
}

/// The prompt for the location of the tool called `name`.
pub open spec fn manual_prompt(name: Seq<char>) -> Seq<char> {
    "Ruta de "@ + name + ": "@
}

/// The two paths that must exist for `root` to be accepted: the root
/// itself and the marker executable `validator` under it.
pub open spec fn manual_checks(root: Seq<char>, validator: Seq<char>) -> Seq<Seq<char>> {
    seq![root, joined(root, validator)]
}

/// The verdict on a location typed in by hand, given which of its two
/// checks passed: the location itself, or what to tell the operator.
pub open spec fn manual_verdict(
    root: Seq<char>,
    validator: Seq<char>,
    flags: Seq<bool>,
) -> Result<Seq<char>, Seq<char>> {
    if flags.len() < 1 || !flags[0] {
        Err("Ruta no existe\n"@)
    } else if flags.len() < 2 || !flags[1] {
        Err(validator + " no encontrado\n"@)
    } else {
        Ok(root)
    }
}

/// What is said once the record `file` was written.
pub open spec fn saved_notice(file: Seq<char>) -> Seq<char> {
    "Configuración guardada: "@ + file + "\n"@
}

impl DevEnvManager {
    /// The store that keeps its records in `config_dir`.
    pub fn new(config_dir: String) -> (r: DevEnvManager)
        ensures
            r.config_dir@ == config_dir@,
    {
        DevEnvManager { config_dir }
    }

    /// A second handle on the same store.
    pub fn duplicate(&self) -> (r: DevEnvManager)
        ensures
            r.config_dir@ == self.config_dir@,
    {
        DevEnvManager { config_dir: self.config_dir.clone() }
    }

    /// The path of the file called `file` in the configuration directory.
    pub fn config_file(&self, file: &str) -> (r: String)
        ensures
            r@ == joined(self.config_dir@, file@),
    {
        join(self.config_dir.as_str(), file)
    }

    /// The request that fetches the text of the record `file`.
    pub fn read_config(&self, file: &str) -> (r: Request)
        ensures
            r@ == (RequestView::ReadFile { path: joined(self.config_dir@, file@) }),
    {
        Request::ReadFile { path: self.config_file(file) }
    }

    /// The path that the text of a record names.
    pub fn recorded_path(text: &str) -> (r: String)
        ensures
            r@ == trimmed(text@),
    {
        trim(text)
    }

    /// The location that a record holds, given the text of its file (none
    /// where the file could not be read) and whether the path that the
    /// text names exists on disk. A record whose path is gone holds
    /// nothing.
    pub fn load_config(&self, text: Option<&str>, exists: bool) -> (r: Option<String>)
        ensures
            r.deep_view() == loaded(text.deep_view(), exists),
            !exists ==> r is None,
    {
        match text {
            Some(t) => if exists {
                Some(trim(t))
            } else {
                None
            },
            None => None,
        }
    }

    /// The request that stores `path` as the record `file`: the file holds
    /// the path and nothing else.
    pub fn save_config(&self, file: &str, path: &str) -> (r: Request)
        ensures
            r@ == (RequestView::WriteFile { path: joined(self.config_dir@, file@), text: path@ }),
    {
        Request::WriteFile { path: self.config_file(file), text: owned(path) }
    }

    /// What is said once the record `file` was written.
    pub fn saved_notice(file: &str) -> (r: String)
        ensures
            r@ == saved_notice(file@),
    {
        cat3("Configuración guardada: ", file, "\n")
    }

    /// The step that asks the operator for the location of the tool called
    /// `name`.
    pub fn request_manual_path(&self, name: &str) -> (r: Step)
        ensures
            r@ == StepView::tell(manual_prompt(name@), RequestView::ReadLine),
    {
        Step::tell(cat3("Ruta de ", name, ": "), Request::ReadLine)
    }

    /// The location that a typed line names.
    pub fn manual_candidate(line: &str) -> (r: String)
        ensures
            r@ == candidate(line@),
    {
        let t = trim(line);
        strip_quotes(t.as_str())
    }

    /// The request that checks a location typed in by hand.
    pub fn check_manual_path(root: &str, validator: &str) -> (r: Request)
        ensures
            r@ == (RequestView::Probe { paths: manual_checks(root@, validator@) }),
    {
        let mut paths: Vec<String> = Vec::new();
        push_text(&mut paths, owned(root));
        push_text(&mut paths, join(root, validator));
        assert(paths.deep_view() =~= manual_checks(root@, validator@));
        Request::Probe { paths }
    }

    /// The verdict on a location typed in by hand, given which of its two
    /// checks passed. It is accepted if and only if both did; else the
    /// error says which one failed.
    pub fn accept_manual_path(root: String, validator: &str, flags: &Vec<bool>) -> (r: Result<
        String,
        String,
    >)
        ensures
            result_text(r) == manual_verdict(root@, validator@, flags@),
            r is Ok <==> flags@.len() >= 2 && flags@[0] && flags@[1],
    {
        if flags.len() < 1 || !flags[0] {
            Err(owned("Ruta no existe\n"))
        } else if flags.len() < 2 || !flags[1] {
            Err(cat(validator, " no encontrado\n"))
        } else {
            Ok(root)
        }
    }
}

/// A location that was saved is the location that loads, as long as it
/// still exists on disk and has no white space around it; one that is gone
/// from disk does not load.
pub proof fn lemma_saved_record_loads(path: Seq<char>)
    requires
        trimmed(path) == path,
    ensures
        loaded(Some(path), true) == Some(path),
        loaded(Some(path), false) is None,
{
}

/// A location that came out of a record can be saved and loaded again and
/// again without a change.
pub proof fn lemma_loaded_location_is_stable(text: Seq<char>)
    ensures
        loaded(Some(text), true) matches Some(path) && loaded(Some(path), true) == Some(path),
{
    crate::text::lemma_trimmed_is_trim(text);
}

} // verus!
