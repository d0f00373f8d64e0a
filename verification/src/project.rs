//! The project a module is built from, the build that is launched for it and
//! the place where the build leaves its artifact.

use vstd::prelude::*;
use vstd::string::*;

verus! {

/// Name and source directory of the module to build.
#[derive(Clone, Debug, PartialEq, Eq)]
pub struct ProjectInfo {
    pub name: String,
    pub path: String,
}

/// A project as plain text.
pub struct ProjectInfoView {
    pub name: Seq<char>,
    pub path: Seq<char>,
}

impl View for ProjectInfo {
    type V = ProjectInfoView;

    open spec fn view(&self) -> ProjectInfoView {
        ProjectInfoView { name: self.name@, path: self.path@ }
    }
}

/// An external build, described by what has to be handed to the operating
/// system to launch it.
#[derive(Clone, Debug, PartialEq, Eq)]
pub struct BuildCommand {
    /// The toolchain's executable.
    pub program: String,
    /// Its arguments, in order.
    pub args: Vec<String>,
    /// The directory the child process is started in.
    pub current_dir: String,
}

/// A build command as plain text.
pub struct BuildCommandView {
    pub program: Seq<char>,
    pub args: Seq<Seq<char>>,
    pub current_dir: Seq<char>,
}

impl View for BuildCommand {
    type V = BuildCommandView;

    open spec fn view(&self) -> BuildCommandView {
        BuildCommandView {
            program: self.program@,
            args: self.args@.map_values(|s: String| s@),
            current_dir: self.current_dir@,
        }
    }
}

/// The toolchain that builds a module.
pub open spec fn build_program() -> Seq<char> {
    "cargo"@
}

/// The fixed arguments of every build: build the library target only, with
/// the `editor` feature, into the directory `target`.
pub open spec fn build_arguments() -> Seq<Seq<char>> {
    seq!["build"@, "--lib"@, "--features"@, "editor"@, "--target-dir"@, "target"@]
}

/// The build of the project at `path`: the fixed arguments, run with the
/// project's directory as working directory.
pub open spec fn build_command_of(path: Seq<char>) -> BuildCommandView {
    BuildCommandView { program: build_program(), args: build_arguments(), current_dir: path }
}

/// Where the build of project `name` at `path` leaves its artifact:
/// `<path>/target/debug/<name>.<extension>`.
pub open spec fn artifact_path_of(path: Seq<char>, name: Seq<char>, extension: Seq<char>) -> Seq<
    char,
> {
    path + "/target/debug/"@ + name + "."@ + extension
}

impl ProjectInfo {
    /// A copy of the project.
    pub fn duplicate(&self) -> (copy: ProjectInfo)
        ensures
            copy@ == self@,
    {
        ProjectInfo { name: self.name.clone(), path: self.path.clone() }
    }

    /// The command that builds this project.
    pub fn build_command(&self) -> (cmd: BuildCommand)
        ensures
            cmd@ == build_command_of(self.path@),
    {
        let mut args: Vec<String> = Vec::new();
        args.push(String::from_str("build"));
        args.push(String::from_str("--lib"));
        args.push(String::from_str("--features"));
        args.push(String::from_str("editor"));
        args.push(String::from_str("--target-dir"));
        args.push(String::from_str("target"));
        let cmd = BuildCommand {
            program: String::from_str("cargo"),
            args,
            current_dir: self.path.clone(),
        };
        assert(cmd@.args =~= build_arguments());
        cmd
    }

    /// The path of the dynamic library the build produces, for a platform
    /// whose dynamic libraries carry the file extension `extension`.
    pub fn artifact_path(&self, extension: &str) -> (artifact: String)
        ensures
            artifact@ == artifact_path_of(self.path@, self.name@, extension@),
    {
        let mut artifact = self.path.clone();
        artifact.append("/target/debug/");
        artifact.append(self.name.as_str());
        artifact.append(".");
        artifact.append(extension);
        artifact
    }
}

} // verus!
