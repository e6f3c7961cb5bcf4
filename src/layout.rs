use vstd::prelude::*;
use vstd::string::*;
use crate::naming::{binary_name, crate_name, crate_name_of, versioned_binary_name};

verus! {

/// The text `s` with every occurrence of `from` replaced by `to`.
pub uninterp spec fn replaced(s: Seq<char>, from: Seq<char>, to: Seq<char>) -> Seq<char>;

/// Relies on `str::replace`: replaces all matches of `from` with `to`; the
/// result is a function of the three texts.
#[verifier::external_body]
fn replace_all(s: &str, from: &str, to: &str) -> (r: String)
    ensures
        r@ == replaced(s@, from@, to@),
{
    s.replace(from, to)
}

pub open spec fn joined(dir: Seq<char>, name: Seq<char>) -> Seq<char> {
    dir + seq!['/'] + name
}

/// `dir/name`.
pub fn join(dir: &str, name: &str) -> (r: String)
    ensures
        r@ == joined(dir@, name@),
{
    let mut r = String::from_str(dir);
    r.append("/");
    r.append(name);
    proof {
        reveal_strlit("/");
        assert(r@ =~= joined(dir@, name@));
    }
    r
}

/// Where the compiler keeps its generated sources and its artifacts.
#[derive(Debug, Clone)]
pub struct CompilerPaths {
    /// The generated workspace.
    pub workspace_dir: String,
    /// The directory of versioned executables.
    pub binaries_dir: String,
    /// Whether native builds are debug builds.
    pub debug: bool,
}

pub open spec fn project_dir_of(workspace: Seq<char>, pid: u128) -> Seq<char> {
    joined(workspace, crate_name_of(pid))
}

impl CompilerPaths {
    /// `<workspace>/Cargo.toml`.
    pub fn workspace_manifest_path(&self) -> (r: String)
        ensures
            r@ == joined(self.workspace_dir@, "Cargo.toml"@),
    {
        join(self.workspace_dir.as_str(), "Cargo.toml")
    }

    /// `<workspace>/project_<uuid>`.
    pub fn project_dir(&self, pid: u128) -> (r: String)
        ensures
            r@ == project_dir_of(self.workspace_dir@, pid),
    {
        let c = crate_name(pid);
        join(self.workspace_dir.as_str(), c.as_str())
    }

    /// `<workspace>/project_<uuid>/Cargo.toml`.
    pub fn project_manifest_path(&self, pid: u128) -> (r: String)
        ensures
            r@ == joined(project_dir_of(self.workspace_dir@, pid), "Cargo.toml"@),
    {
        let d = self.project_dir(pid);
        join(d.as_str(), "Cargo.toml")
    }

    /// `<workspace>/project_<uuid>/project.sql`.
    pub fn sql_file_path(&self, pid: u128) -> (r: String)
        ensures
            r@ == joined(project_dir_of(self.workspace_dir@, pid), "project.sql"@),
    {
        let d = self.project_dir(pid);
        join(d.as_str(), "project.sql")
    }

    /// `<workspace>/project_<uuid>/src`.
    pub fn source_dir(&self, pid: u128) -> (r: String)
        ensures
            r@ == joined(project_dir_of(self.workspace_dir@, pid), "src"@),
    {
        let d = self.project_dir(pid);
        join(d.as_str(), "src")
    }

    /// `<workspace>/project_<uuid>/src/main.rs`.
    pub fn generated_source_path(&self, pid: u128) -> (r: String)
        ensures
            r@ == joined(joined(project_dir_of(self.workspace_dir@, pid), "src"@), "main.rs"@),
    {
        let d = self.source_dir(pid);
        join(d.as_str(), "main.rs")
    }

    /// `<workspace>/project_<uuid>/schema.json`.
    pub fn schema_path(&self, pid: u128) -> (r: String)
        ensures
            r@ == joined(project_dir_of(self.workspace_dir@, pid), "schema.json"@),
    {
        let d = self.project_dir(pid);
        join(d.as_str(), "schema.json")
    }

    /// `<workspace>/project_<uuid>/out.log`.
    pub fn compiler_stdout_path(&self, pid: u128) -> (r: String)
        ensures
            r@ == joined(project_dir_of(self.workspace_dir@, pid), "out.log"@),
    {
        let d = self.project_dir(pid);
        join(d.as_str(), "out.log")
    }

    /// `<workspace>/project_<uuid>/err.log`.
    pub fn compiler_stderr_path(&self, pid: u128) -> (r: String)
        ensures
            r@ == joined(project_dir_of(self.workspace_dir@, pid), "err.log"@),
    {
        let d = self.project_dir(pid);
        join(d.as_str(), "err.log")
    }

    /// Where the native build leaves the executable:
    /// `<workspace>/target/<release|debug>/project_<uuid>`.
    pub fn target_executable(&self, pid: u128) -> (r: String)
        ensures
            r@ == joined(
                joined(
                    joined(self.workspace_dir@, "target"@),
                    if self.debug {
                        "debug"@
                    } else {
                        "release"@
                    },
                ),
                crate_name_of(pid),
            ),
    {
        let t = join(self.workspace_dir.as_str(), "target");
        let p = if self.debug {
            join(t.as_str(), "debug")
        } else {
            join(t.as_str(), "release")
        };
        let c = crate_name(pid);
        join(p.as_str(), c.as_str())
    }

    /// `<binaries>/project_<uuid>_v<version>`.
    pub fn versioned_executable(&self, pid: u128, version: i64) -> (r: String)
        ensures
            r@ == joined(self.binaries_dir@, binary_name(pid, version)),
    {
        let n = versioned_binary_name(pid, version);
        join(self.binaries_dir.as_str(), n.as_str())
    }
}

pub open spec fn workspace_manifest_text(pid: u128) -> Seq<char> {
    "[workspace]\nmembers = [ \""@ + crate_name_of(pid) + "\" ]\n"@
}

/// The workspace manifest: one member, the program's generated crate.
pub fn workspace_manifest(pid: u128) -> (r: String)
    ensures
        r@ == workspace_manifest_text(pid),
{
    let mut r = String::from_str("[workspace]\nmembers = [ \"");
    let c = crate_name(pid);
    r.append(c.as_str());
    r.append("\" ]\n");
    proof {
        reveal_strlit("[workspace]\nmembers = [ \"");
        reveal_strlit("\" ]\n");
        assert(r@ =~= workspace_manifest_text(pid));
    }
    r
}

pub open spec fn name_line(pid: u128) -> Seq<char> {
    "name = \""@ + crate_name_of(pid) + "\""@
}

pub open spec fn bin_stanza(pid: u128) -> Seq<char> {
    "\n\n[[bin]]\n"@ + name_line(pid) + "\npath = \"src/main.rs\""@
}

/// The project manifest made from the template: the crate renamed, default
/// features switched back on, the library stanza replaced by a binary stanza.
pub open spec fn project_manifest_base(template: Seq<char>, pid: u128) -> Seq<char> {
    replaced(
        replaced(
            replaced(template, "name = \"temp\""@, name_line(pid)),
            ", default-features = false"@,
            ""@,
        ),
        "[lib]\npath = \"src/lib.rs\""@,
        bin_stanza(pid),
    )
}

/// With a developer override, the two relative include paths become absolute.
pub open spec fn project_manifest_text(
    template: Seq<char>,
    pid: u128,
    overrides: Option<(Seq<char>, Seq<char>)>,
) -> Seq<char> {
    match overrides {
        Option::Some((dbsp, sql_lib)) => replaced(
            replaced(project_manifest_base(template, pid), "../../crates"@, dbsp + "/crates"@),
            "../lib"@,
            sql_lib,
        ),
        Option::None => project_manifest_base(template, pid),
    }
}

/// The project manifest of a program, from the shipped template. `overrides`
/// holds the developer override path and the SQL library path, when set.
pub fn project_manifest(template: &str, pid: u128, overrides: &Option<(String, String)>) -> (r:
    String)
    ensures
        r@ == project_manifest_text(
            template@,
            pid,
            match overrides {
                Option::Some((a, b)) => Option::Some((a@, b@)),
                Option::None => Option::None,
            },
        ),
{
    let c = crate_name(pid);
    let mut name = String::from_str("name = \"");
    name.append(c.as_str());
    name.append("\"");
    let mut stanza = String::from_str("\n\n[[bin]]\n");
    stanza.append(name.as_str());
    stanza.append("\npath = \"src/main.rs\"");
    proof {
        reveal_strlit("name = \"");
        reveal_strlit("\"");
        reveal_strlit("\n\n[[bin]]\n");
        reveal_strlit("\npath = \"src/main.rs\"");
        assert(name@ =~= name_line(pid));
        assert(stanza@ =~= bin_stanza(pid));
    }
    let a = replace_all(template, "name = \"temp\"", name.as_str());
    let b = replace_all(a.as_str(), ", default-features = false", "");
    let base = replace_all(b.as_str(), "[lib]\npath = \"src/lib.rs\"", stanza.as_str());
    match overrides {
        Some((dbsp, sql_lib)) => {
            let mut crates = String::from_str(dbsp.as_str());
            crates.append("/crates");
            proof {
                reveal_strlit("/crates");
            }
            let d = replace_all(base.as_str(), "../../crates", crates.as_str());
            replace_all(d.as_str(), "../lib", sql_lib.as_str())
        },
        None => base,
    }
}

} // verus!
