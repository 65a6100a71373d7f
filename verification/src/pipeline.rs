//! The order of a packaging run: each step takes what the steps before it
//! made, so none starts before those have ended.

use vstd::prelude::*;
use vstd::string::*;
use crate::config::{BuildConfig, InputKind, Target};

verus! {

/// What a packaging run has made so far.
#[derive(Debug, Clone, PartialEq, Eq)]
pub struct Progress {
    /// The application bundle.
    pub jar: Option<String>,
    /// The full runtime.
    pub jdk: Option<String>,
    /// The modules the application needs.
    pub modules: Option<String>,
    /// The minimized runtime.
    pub runtime: Option<String>,
    /// Whether the executable has been written.
    pub written: bool,
}

/// What a packaging run does next.
#[derive(Debug, Clone, PartialEq, Eq)]
pub enum Step {
    /// Take the input as the application bundle.
    UseJar { path: String },
    /// Build the bundle of the project in `dir`.
    BuildProject { dir: String },
    /// Get the full runtime of a version for a platform.
    EnsureJdk { version: u8, target: Target },
    /// Ask the analyzer of the runtime at `jdk` which modules `jar` needs.
    DetectModules { jdk: String, jar: String },
    /// Link a runtime of `modules` with the linker of the runtime at `jdk`.
    LinkRuntime { jdk: String, modules: String },
    /// Pack `runtime` and `jar` and write the executable to `output`.
    WriteBinary { runtime: String, jar: String, output: String },
    /// Nothing is left to do.
    Finished,
}

/// Whether `step` is the next step of a run configured by `config`, whose
/// input is of the given kind, after what `progress` holds: the first step
/// whose result is missing, with the results it takes from the steps before.
pub open spec fn is_next(config: BuildConfig, kind: InputKind, progress: Progress, step: Step) -> bool {
    if progress.jar is None {
        match kind {
            InputKind::Jar => step matches Step::UseJar { path } && path@ == config.input@,
            InputKind::Project => step matches Step::BuildProject { dir } && dir@ == config.input@,
        }
    } else if progress.jdk is None {
        step == (Step::EnsureJdk { version: config.java_version, target: config.target })
    } else if progress.modules is None {
        step matches Step::DetectModules { jdk, jar } && jdk@ == progress.jdk->Some_0@ && jar@
            == progress.jar->Some_0@
    } else if progress.runtime is None {
        step matches Step::LinkRuntime { jdk, modules } && jdk@ == progress.jdk->Some_0@
            && modules@ == progress.modules->Some_0@
    } else if !progress.written {
        step matches Step::WriteBinary { runtime, jar, output } && runtime@
            == progress.runtime->Some_0@ && jar@ == progress.jar->Some_0@ && output@
            == config.output@
    } else {
        step is Finished
    }
}

impl Progress {
    /// The progress of a run that has not begun.
    pub fn new() -> (progress: Progress)
        ensures
            progress.jar is None,
            progress.jdk is None,
            progress.modules is None,
            progress.runtime is None,
            !progress.written,
    {
        Progress { jar: None, jdk: None, modules: None, runtime: None, written: false }
    }
}

/// The next step of a packaging run.
pub fn next_step(config: &BuildConfig, kind: InputKind, progress: &Progress) -> (step: Step)
    ensures
        is_next(*config, kind, *progress, step),
{
    let jar = match &progress.jar {
        Some(jar) => jar,
        None => {
            return match kind {
                InputKind::Jar => Step::UseJar { path: config.input.clone() },
                InputKind::Project => Step::BuildProject { dir: config.input.clone() },
            };
        },
    };
    let jdk = match &progress.jdk {
        Some(jdk) => jdk,
        None => {
            return Step::EnsureJdk { version: config.java_version, target: config.target };
        },
    };
    let modules = match &progress.modules {
        Some(modules) => modules,
        None => {
            return Step::DetectModules { jdk: jdk.clone(), jar: jar.clone() };
        },
    };
    let runtime = match &progress.runtime {
        Some(runtime) => runtime,
        None => {
            return Step::LinkRuntime { jdk: jdk.clone(), modules: modules.clone() };
        },
    };
    if !progress.written {
        return Step::WriteBinary {
            runtime: runtime.clone(),
            jar: jar.clone(),
            output: config.output.clone(),
        };
    }
    Step::Finished
}

/// No step takes the result of a step that has not ended: the analyzer is
/// asked only once the bundle and the full runtime are there, the linker
/// only once the modules are known too, and the executable is written only
/// once the minimized runtime stands.
pub proof fn lemma_steps_in_order(config: BuildConfig, kind: InputKind, progress: Progress, step: Step)
    requires
        is_next(config, kind, progress, step),
    ensures
        step is EnsureJdk ==> progress.jar is Some,
        step is DetectModules ==> progress.jar is Some && progress.jdk is Some,
        step is LinkRuntime ==> progress.jar is Some && progress.jdk is Some
            && progress.modules is Some,
        step is WriteBinary ==> progress.jar is Some && progress.jdk is Some
            && progress.modules is Some && progress.runtime is Some,
        step is Finished ==> progress.runtime is Some && progress.written,
{
}

/// The place of a step in the order of a run.
pub open spec fn rank(step: Step) -> int {
    match step {
        Step::UseJar { .. } => 0,
        Step::BuildProject { .. } => 0,
        Step::EnsureJdk { .. } => 1,
        Step::DetectModules { .. } => 2,
        Step::LinkRuntime { .. } => 3,
        Step::WriteBinary { .. } => 4,
        Step::Finished => 5,
    }
}

/// The progress of a run after a step has ended and made `made`: the path
/// of the bundle, of the full runtime or of the minimized runtime, or the
/// module list. Writing the executable makes nothing that a later step
/// takes.
pub open spec fn recorded(progress: Progress, step: Step, made: String) -> Progress {
    match step {
        Step::UseJar { .. } => Progress { jar: Some(made), ..progress },
        Step::BuildProject { .. } => Progress { jar: Some(made), ..progress },
        Step::EnsureJdk { .. } => Progress { jdk: Some(made), ..progress },
        Step::DetectModules { .. } => Progress { modules: Some(made), ..progress },
        Step::LinkRuntime { .. } => Progress { runtime: Some(made), ..progress },
        Step::WriteBinary { .. } => Progress { written: true, ..progress },
        Step::Finished => progress,
    }
}

impl Progress {
    /// The progress after `step` has ended and made `made`.
    pub fn record(self, step: &Step, made: String) -> (next: Progress)
        ensures
            next == recorded(self, *step, made),
    {
        match step {
            Step::UseJar { .. } => Progress {
                jar: Some(made),
                jdk: self.jdk,
                modules: self.modules,
                runtime: self.runtime,
                written: self.written,
            },
            Step::BuildProject { .. } => Progress {
                jar: Some(made),
                jdk: self.jdk,
                modules: self.modules,
                runtime: self.runtime,
                written: self.written,
            },
            Step::EnsureJdk { .. } => Progress {
                jar: self.jar,
                jdk: Some(made),
                modules: self.modules,
                runtime: self.runtime,
                written: self.written,
            },
            Step::DetectModules { .. } => Progress {
                jar: self.jar,
                jdk: self.jdk,
                modules: Some(made),
                runtime: self.runtime,
                written: self.written,
            },
            Step::LinkRuntime { .. } => Progress {
                jar: self.jar,
                jdk: self.jdk,
                modules: self.modules,
                runtime: Some(made),
                written: self.written,
            },
            Step::WriteBinary { .. } => Progress {
                jar: self.jar,
                jdk: self.jdk,
                modules: self.modules,
                runtime: self.runtime,
                written: true,
            },
            Step::Finished => self,
        }
    }
}

/// A run goes forward: once the next step has ended and its result is
/// recorded, the step that is next then comes later in the order. So a run
/// that begins with nothing ends after five steps.
pub proof fn lemma_run_advances(
    config: BuildConfig,
    kind: InputKind,
    progress: Progress,
    step: Step,
    made: String,
    then: Step,
)
    requires
        is_next(config, kind, progress, step),
        !(step is Finished),
        is_next(config, kind, recorded(progress, step, made), then),
    ensures
        rank(then) > rank(step),
{
}

} // verus!
