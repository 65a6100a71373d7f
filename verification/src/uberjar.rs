//! Building the application bundle with the project's build tool, and
//! finding the bundle it left behind.

use vstd::prelude::*;
use vstd::string::*;
use crate::config::BuildSystem;
use crate::error::PackError;
use crate::jlink::{ToolCall, ToolOutput};
use crate::text::{contains, ends_with, has_infix, has_suffix, join_path, path_joined, views};

verus! {

/// How a tools.deps project builds its bundle.
#[derive(Debug, Clone, Copy, PartialEq, Eq, Structural)]
pub enum DepsStrategy {
    /// With a build program, `build.clj`.
    ToolsBuild,
    /// With an `:uberjar` alias.
    Uberjar,
}

/// The command that builds the bundle.
#[derive(Debug, Clone, Copy, PartialEq, Eq, Structural)]
pub enum BuildCommand {
    /// `clojure -T:build uber`
    ToolsBuild,
    /// `clojure -X:uberjar`
    Uberjar,
    /// `lein uberjar`
    Lein,
}

/// How a run of the build command went.
#[derive(Debug, Clone, PartialEq, Eq)]
pub enum BuildRun {
    /// The program is not installed.
    ToolMissing,
    /// The program could not be started; why.
    NotStarted(String),
    /// The program ran and ended.
    Ended(ToolOutput),
}

/// A file in the build's output directory.
#[derive(Debug, Clone, PartialEq, Eq)]
pub struct JarFile {
    /// The file's name, without the directory.
    pub name: String,
    /// When it was last modified, in nanoseconds since the epoch, where
    /// known.
    pub modified: Option<u128>,
}

/// The strategy of a tools.deps project: the `:uberjar` alias where there
/// is no build program and the project's `deps.edn` mentions the alias,
/// else the build program.
pub open spec fn deps_strategy(has_build_clj: bool, deps_edn: Option<Seq<char>>) -> DepsStrategy {
    if has_build_clj {
        DepsStrategy::ToolsBuild
    } else {
        match deps_edn {
            Some(content) => if has_infix(content, ":uberjar"@) {
                DepsStrategy::Uberjar
            } else {
                DepsStrategy::ToolsBuild
            },
            None => DepsStrategy::ToolsBuild,
        }
    }
}

/// The strategy of a tools.deps project. `deps_edn` is the content of the
/// project's `deps.edn`, where it could be read.
pub fn detect_deps_strategy(has_build_clj: bool, deps_edn: Option<&str>) -> (strategy: DepsStrategy)
    ensures
        strategy == deps_strategy(
            has_build_clj,
            match deps_edn {
                Some(content) => Some(content@),
                None => None,
            },
        ),
{
    if has_build_clj {
        return DepsStrategy::ToolsBuild;
    }
    match deps_edn {
        Some(content) => {
            if contains(content, ":uberjar") {
                DepsStrategy::Uberjar
            } else {
                DepsStrategy::ToolsBuild
            }
        },
        None => DepsStrategy::ToolsBuild,
    }
}

/// The command that builds the bundle of a project.
pub fn build_command(system: BuildSystem, strategy: DepsStrategy) -> (command: BuildCommand)
    ensures
        command == match system {
            BuildSystem::Leiningen => BuildCommand::Lein,
            BuildSystem::DepsEdn => match strategy {
                DepsStrategy::ToolsBuild => BuildCommand::ToolsBuild,
                DepsStrategy::Uberjar => BuildCommand::Uberjar,
            },
        },
{
    match system {
        BuildSystem::Leiningen => BuildCommand::Lein,
        BuildSystem::DepsEdn => match strategy {
            DepsStrategy::ToolsBuild => BuildCommand::ToolsBuild,
            DepsStrategy::Uberjar => BuildCommand::Uberjar,
        },
    }
}

/// The program of a build command.
pub open spec fn program_text(command: BuildCommand) -> Seq<char> {
    match command {
        BuildCommand::Lein => "lein"@,
        _ => "clojure"@,
    }
}

/// The arguments of a build command.
pub open spec fn args_text(command: BuildCommand) -> Seq<Seq<char>> {
    match command {
        BuildCommand::ToolsBuild => seq!["-T:build"@, "uber"@],
        BuildCommand::Uberjar => seq!["-X:uberjar"@],
        BuildCommand::Lein => seq!["uberjar"@],
    }
}

/// A build command as the user would type it.
pub open spec fn label_text(command: BuildCommand) -> Seq<char> {
    match command {
        BuildCommand::ToolsBuild => "clojure -T:build uber"@,
        BuildCommand::Uberjar => "clojure -X:uberjar"@,
        BuildCommand::Lein => "lein uberjar"@,
    }
}

/// The program of a build command.
pub fn command_program(command: BuildCommand) -> (program: &'static str)
    ensures
        program@ == program_text(command),
{
    match command {
        BuildCommand::Lein => "lein",
        _ => "clojure",
    }
}

/// A build command as the user would type it.
pub fn command_label(command: BuildCommand) -> (label: &'static str)
    ensures
        label@ == label_text(command),
{
    match command {
        BuildCommand::ToolsBuild => "clojure -T:build uber",
        BuildCommand::Uberjar => "clojure -X:uberjar",
        BuildCommand::Lein => "lein uberjar",
    }
}

/// The call of a build command, to be run in the project directory.
pub fn command_call(command: BuildCommand) -> (call: ToolCall)
    ensures
        call.program@ == program_text(command),
        views(call.args@) == args_text(command),
{
    let mut args: Vec<String> = Vec::new();
    match command {
        BuildCommand::ToolsBuild => {
            args.push(String::from_str("-T:build"));
            args.push(String::from_str("uber"));
        },
        BuildCommand::Uberjar => {
            args.push(String::from_str("-X:uberjar"));
        },
        BuildCommand::Lein => {
            args.push(String::from_str("uberjar"));
        },
    }
    ToolCall { program: String::from_str(command_program(command)), args }
}

/// Whether a file name has the extension `jar`.
pub open spec fn is_jar(name: Seq<char>) -> bool {
    name.len() > 4 && has_suffix(name, ".jar"@)
}

/// Whether a file name is that of a bundle with all dependencies.
pub open spec fn is_uber(name: Seq<char>) -> bool {
    is_jar(name) && (has_infix(name, "standalone"@) || has_infix(name, "uber"@))
}

/// Whether a file name is that of a jar that may be the bundle: neither
/// sources nor documentation.
pub open spec fn is_plain(name: Seq<char>) -> bool {
    is_jar(name) && !has_infix(name, "sources"@) && !has_infix(name, "javadoc"@)
}

/// The rank of a modification time: an unknown one comes before all
/// others.
pub open spec fn age_rank(modified: Option<u128>) -> int {
    match modified {
        None => -1,
        Some(t) => t as int,
    }
}

/// Whether a file counts in a search: in the first round the bundles with
/// all dependencies, in the second any jar that may be the bundle.
pub open spec fn counts(file: JarFile, first_round: bool) -> bool {
    if first_round {
        is_uber(file.name@)
    } else {
        is_plain(file.name@)
    }
}

/// Whether `at` is the file that a round of the search picks: it counts,
/// none that counts was modified later, and those that count and come
/// after it were modified earlier.
pub open spec fn picked(files: Seq<JarFile>, first_round: bool, at: int) -> bool {
    &&& 0 <= at < files.len()
    &&& counts(files[at], first_round)
    &&& forall|k: int|
        0 <= k < files.len() && counts(#[trigger] files[k], first_round) ==> age_rank(
            files[k].modified,
        ) <= age_rank(files[at].modified)
    &&& forall|k: int|
        at < k < files.len() && counts(#[trigger] files[k], first_round) ==> age_rank(
            files[k].modified,
        ) < age_rank(files[at].modified)
}

/// Whether no file counts in a round of the search.
pub open spec fn none_counts(files: Seq<JarFile>, first_round: bool) -> bool {
    forall|k: int| 0 <= k < files.len() ==> !counts(#[trigger] files[k], first_round)
}

/// Whether a modification time is no earlier than another.
fn not_older(a: Option<u128>, b: Option<u128>) -> (r: bool)
    ensures
        r == (age_rank(a) >= age_rank(b)),
{
    match (a, b) {
        (_, None) => true,
        (None, Some(_)) => false,
        (Some(x), Some(y)) => x >= y,
    }
}

/// Whether a file counts in a round of the search.
fn file_counts(file: &JarFile, first_round: bool) -> (r: bool)
    ensures
        r == counts(*file, first_round),
{
    let name = file.name.as_str();
    if name.unicode_len() <= 4 || !ends_with(name, ".jar") {
        return false;
    }
    if first_round {
        contains(name, "standalone") || contains(name, "uber")
    } else {
        !contains(name, "sources") && !contains(name, "javadoc")
    }
}

/// One round of the search: the file that counts and was modified last,
/// the later one of two modified at the same time.
pub fn newest(files: &[JarFile], first_round: bool) -> (found: Option<usize>)
    ensures
        match found {
            Some(at) => picked(files@, first_round, at as int),
            None => none_counts(files@, first_round),
        },
{
    let n: usize = files.len();
    let mut found: Option<usize> = None;
    let mut i: usize = 0;
    while i < n
        invariant
            n == files@.len(),
            i <= n,
            match found {
                Some(at) => picked(files@.take(i as int), first_round, at as int),
                None => none_counts(files@.take(i as int), first_round),
            },
        decreases n - i,
    {
        if file_counts(&files[i], first_round) {
            let better = match found {
                Some(at) => not_older(files[i].modified, files[at].modified),
                None => true,
            };
            if better {
                found = Some(i);
            }
        }
        i = i + 1;
    }
    assert(files@.take(n as int) =~= files@);
    found
}

/// Whether `at` is the file that the search picks: the pick of the first
/// round, or that of the second where nothing counts in the first.
pub open spec fn found_at(files: Seq<JarFile>, at: int) -> bool {
    picked(files, true, at) || (none_counts(files, true) && picked(files, false, at))
}

/// A round of the search picks one file at most.
pub proof fn lemma_picked_unique(files: Seq<JarFile>, first_round: bool, a: int, b: int)
    requires
        picked(files, first_round, a),
        picked(files, first_round, b),
    ensures
        a == b,
{
}

/// The search picks one file at most.
pub proof fn lemma_found_unique(files: Seq<JarFile>, a: int, b: int)
    requires
        found_at(files, a),
        found_at(files, b),
    ensures
        a == b,
{
    if picked(files, true, a) {
        lemma_picked_unique(files, true, a, b);
    } else {
        lemma_picked_unique(files, false, a, b);
    }
}

/// The bundle among the files of the build's output directory
/// `target_dir`: the newest bundle with all dependencies, else the newest
/// jar that is neither sources nor documentation. A directory without one
/// is an error.
pub fn find_uberjar(target_dir: &str, files: &[JarFile]) -> (jar: Result<String, PackError>)
    ensures
        match jar {
            Ok(path) => exists|at: int| #[trigger]
                found_at(files@, at) && path@ == path_joined(target_dir@, files@[at].name@),
            Err(e) => none_counts(files@, true) && none_counts(files@, false) && (e matches PackError::UberjarNotFound(
                dir,
            ) && dir@ == target_dir@),
        },
{
    match newest(files, true) {
        Some(at) => {
            assert(found_at(files@, at as int));
            return Ok(join_path(target_dir, files[at].name.as_str()));
        },
        None => {},
    }
    match newest(files, false) {
        Some(at) => {
            assert(found_at(files@, at as int));
            Ok(join_path(target_dir, files[at].name.as_str()))
        },
        None => Err(PackError::UberjarNotFound(String::from_str(target_dir))),
    }
}

/// The message for a build that did not give a bundle, if it did not.
pub open spec fn build_failure(command: BuildCommand, run: BuildRun) -> Option<Seq<char>> {
    match run {
        BuildRun::ToolMissing => Some(
            "command '"@ + program_text(command)
                + "' not found in PATH. Please install it before running clj-pack."@,
        ),
        BuildRun::NotStarted(why) => Some(
            "failed to run "@ + program_text(command) + ": "@ + why@,
        ),
        BuildRun::Ended(output) => if output.success {
            None
        } else {
            Some(label_text(command) + " failed:\n"@ + output.stderr@)
        },
    }
}

/// The bundle of a project, from how the run of its build command went and
/// the files that the project's `target` directory holds after it. A build
/// tool that is missing, could not be started or ended with a failure is
/// an error, and so is a build that left no bundle.
pub fn build_uberjar(project_dir: &str, command: BuildCommand, run: BuildRun, files: &[JarFile]) -> (jar:
    Result<String, PackError>)
    ensures
        match build_failure(command, run) {
            Some(text) => (jar matches Err(PackError::BuildFailed(why)) && why@ == text),
            None => match jar {
                Ok(path) => exists|at: int| #[trigger]
                    found_at(files@, at) && path@ == path_joined(
                        path_joined(project_dir@, "target"@),
                        files@[at].name@,
                    ),
                Err(e) => none_counts(files@, true) && none_counts(files@, false) && (e matches PackError::UberjarNotFound(
                    dir,
                ) && dir@ == path_joined(project_dir@, "target"@)),
            },
        },
{
    match run {
        BuildRun::ToolMissing => {
            let mut text = String::from_str("command '");
            text.append(command_program(command));
            text.append("' not found in PATH. Please install it before running clj-pack.");
            Err(PackError::BuildFailed(text))
        },
        BuildRun::NotStarted(why) => {
            let mut text = String::from_str("failed to run ");
            text.append(command_program(command));
            text.append(": ");
            text.append(why.as_str());
            Err(PackError::BuildFailed(text))
        },
        BuildRun::Ended(output) => {
            if !output.success {
                let mut text = String::from_str(command_label(command));
                text.append(" failed:\n");
                text.append(output.stderr.as_str());
                return Err(PackError::BuildFailed(text));
            }
            let target_dir = join_path(project_dir, "target");
            find_uberjar(target_dir.as_str(), files)
        },
    }
}

/// What a project directory holds of build files.
#[derive(Debug, Clone, PartialEq, Eq)]
pub struct ProjectFiles {
    /// Whether it holds `deps.edn`.
    pub has_deps_edn: bool,
    /// Whether it holds `project.clj`.
    pub has_project_clj: bool,
    /// Whether it holds `build.clj`.
    pub has_build_clj: bool,
    /// The content of `deps.edn`, where it could be read.
    pub deps_edn: Option<String>,
}

/// What happened while the bundle of a project was being got.
#[derive(Debug, Clone, PartialEq, Eq)]
pub enum BuildEvent {
    /// The work begins.
    Started,
    /// The build command was run; how that went.
    Ran(BuildRun),
    /// The files of the project's `target` directory; none where it has
    /// no such directory.
    Listed(Vec<JarFile>),
}

/// What to do next to get the bundle of a project.
#[derive(Debug, PartialEq, Eq)]
pub enum BuildAction {
    /// Run the build command in `dir`.
    Run { command: BuildCommand, call: ToolCall, dir: String },
    /// List the files of the directory `dir`.
    List { dir: String },
    /// The work has ended: with the path of the bundle, or with an error.
    Done(Result<String, PackError>),
}

/// The command that builds a project, by the build files it holds: none
/// where it holds neither `deps.edn` nor `project.clj`.
pub open spec fn command_of(project: ProjectFiles) -> Option<BuildCommand> {
    if project.has_deps_edn {
        Some(
            match deps_strategy(
                project.has_build_clj,
                match project.deps_edn {
                    Some(content) => Some(content@),
                    None => None,
                },
            ) {
                DepsStrategy::ToolsBuild => BuildCommand::ToolsBuild,
                DepsStrategy::Uberjar => BuildCommand::Uberjar,
            },
        )
    } else if project.has_project_clj {
        Some(BuildCommand::Lein)
    } else {
        None
    }
}

/// The `target` directory of a project.
pub open spec fn target_dir_text(project_dir: Seq<char>) -> Seq<char> {
    path_joined(project_dir, "target"@)
}

/// Whether an action is the one to take on an event while the bundle of
/// the project in `project_dir` is being got. A project with a build file
/// is built and its `target` directory searched; a failed build ends the
/// work. A project without a build file is not built and no tool is run:
/// it has no bundle to give, which is the missing-bundle error where its
/// `target` directory holds none, and the missing-build-system error where
/// a bundle lies there that nothing here could have built.
pub open spec fn project_step(
    project_dir: Seq<char>,
    project: ProjectFiles,
    event: BuildEvent,
    action: BuildAction,
) -> bool {
    let target = target_dir_text(project_dir);
    match event {
        BuildEvent::Started => match command_of(project) {
            Some(c) => action matches BuildAction::Run { command, call, dir } && command == c
                && call.program@ == program_text(c) && views(call.args@) == args_text(c) && dir@
                == project_dir,
            None => action matches BuildAction::List { dir } && dir@ == target,
        },
        BuildEvent::Ran(run) => match command_of(project) {
            Some(c) => match build_failure(c, run) {
                Some(text) => action matches BuildAction::Done(Err(PackError::BuildFailed(why)))
                    && why@ == text,
                None => action matches BuildAction::List { dir } && dir@ == target,
            },
            None => action matches BuildAction::List { dir } && dir@ == target,
        },
        BuildEvent::Listed(files) => if none_counts(files@, true) && none_counts(files@, false) {
            action matches BuildAction::Done(Err(PackError::UberjarNotFound(dir))) && dir@
                == target
        } else if command_of(project) is None {
            action matches BuildAction::Done(Err(PackError::NoBuildSystem(dir))) && dir@
                == project_dir
        } else {
            action matches BuildAction::Done(Ok(path)) && exists|at: int| #[trigger]
                found_at(files@, at) && path@ == path_joined(target, files@[at].name@)
        },
    }
}

/// The command that builds a project, by the build files it holds.
pub fn project_command(project: &ProjectFiles) -> (command: Option<BuildCommand>)
    ensures
        command == command_of(*project),
{
    if project.has_deps_edn {
        let strategy = match &project.deps_edn {
            Some(content) => detect_deps_strategy(project.has_build_clj, Some(content.as_str())),
            None => detect_deps_strategy(project.has_build_clj, None),
        };
        Some(build_command(BuildSystem::DepsEdn, strategy))
    } else if project.has_project_clj {
        Some(BuildCommand::Lein)
    } else {
        None
    }
}

/// The next action to get the bundle of the project in `project_dir`.
pub fn build_step(project_dir: &str, project: &ProjectFiles, event: BuildEvent) -> (action:
    BuildAction)
    ensures
        project_step(project_dir@, *project, event, action),
{
    let command = project_command(project);
    match event {
        BuildEvent::Started => match command {
            Some(c) => BuildAction::Run {
                command: c,
                call: command_call(c),
                dir: String::from_str(project_dir),
            },
            None => BuildAction::List { dir: join_path(project_dir, "target") },
        },
        BuildEvent::Ran(run) => match command {
            Some(c) => {
                let failed = match &run {
                    BuildRun::Ended(output) => !output.success,
                    _ => true,
                };
                if failed {
                    let empty: Vec<JarFile> = Vec::new();
                    BuildAction::Done(build_uberjar(project_dir, c, run, empty.as_slice()))
                } else {
                    BuildAction::List { dir: join_path(project_dir, "target") }
                }
            },
            None => BuildAction::List { dir: join_path(project_dir, "target") },
        },
        BuildEvent::Listed(files) => {
            let target = join_path(project_dir, "target");
            match find_uberjar(target.as_str(), files.as_slice()) {
                Ok(path) => {
                    if command.is_none() {
                        BuildAction::Done(
                            Err(PackError::NoBuildSystem(String::from_str(project_dir))),
                        )
                    } else {
                        BuildAction::Done(Ok(path))
                    }
                },
                Err(e) => BuildAction::Done(Err(e)),
            }
        },
    }
}

} // verus!
