use clj_pack::config::{BuildConfig, InputKind, Target, TargetArch, TargetOs};
use clj_pack::pipeline::{next_step, Progress, Step};

fn config() -> BuildConfig {
    BuildConfig {
        input: "/p".to_string(),
        output: "/out/app".to_string(),
        java_version: 21,
        target: Target {
            os: TargetOs::Linux,
            arch: TargetArch::X86_64,
        },
        jvm_args: vec!["-Xmx1g".to_string()],
    }
}

#[test]
fn run_begins_with_the_bundle() {
    let progress = Progress::new();
    assert_eq!(
        next_step(&config(), InputKind::Project, &progress),
        Step::BuildProject {
            dir: "/p".to_string()
        }
    );
    assert_eq!(
        next_step(&config(), InputKind::Jar, &progress),
        Step::UseJar {
            path: "/p".to_string()
        }
    );
}

#[test]
fn steps_follow_one_another() {
    let mut progress = Progress::new();
    progress.jar = Some("/p/target/app.jar".to_string());
    assert_eq!(
        next_step(&config(), InputKind::Project, &progress),
        Step::EnsureJdk {
            version: 21,
            target: Target {
                os: TargetOs::Linux,
                arch: TargetArch::X86_64
            }
        }
    );
    progress.jdk = Some("/c/runtime-21-linux-x86_64".to_string());
    assert_eq!(
        next_step(&config(), InputKind::Project, &progress),
        Step::DetectModules {
            jdk: "/c/runtime-21-linux-x86_64".to_string(),
            jar: "/p/target/app.jar".to_string()
        }
    );
    progress.modules = Some("java.base".to_string());
    assert_eq!(
        next_step(&config(), InputKind::Project, &progress),
        Step::LinkRuntime {
            jdk: "/c/runtime-21-linux-x86_64".to_string(),
            modules: "java.base".to_string()
        }
    );
    progress.runtime = Some("/tmp/w/runtime".to_string());
    assert_eq!(
        next_step(&config(), InputKind::Project, &progress),
        Step::WriteBinary {
            runtime: "/tmp/w/runtime".to_string(),
            jar: "/p/target/app.jar".to_string(),
            output: "/out/app".to_string()
        }
    );
    progress.written = true;
    assert_eq!(
        next_step(&config(), InputKind::Project, &progress),
        Step::Finished
    );
}

#[test]
fn a_later_result_does_not_skip_an_earlier_step() {
    let mut progress = Progress::new();
    progress.runtime = Some("/tmp/w/runtime".to_string());
    progress.written = true;
    assert_eq!(
        next_step(&config(), InputKind::Jar, &progress),
        Step::UseJar {
            path: "/p".to_string()
        }
    );
}

#[test]
fn a_run_that_records_each_result_ends_after_five_steps() {
    let config = config();
    let mut progress = Progress::new();
    let mut steps = Vec::new();
    loop {
        let step = next_step(&config, InputKind::Project, &progress);
        if step == Step::Finished {
            break;
        }
        let made = format!("made-{}", steps.len());
        progress = progress.record(&step, made);
        steps.push(step);
        assert!(steps.len() <= 5);
    }
    assert_eq!(steps.len(), 5);
    assert_eq!(
        progress,
        Progress {
            jar: Some("made-0".to_string()),
            jdk: Some("made-1".to_string()),
            modules: Some("made-2".to_string()),
            runtime: Some("made-3".to_string()),
            written: true,
        }
    );
    assert_eq!(
        steps[4],
        Step::WriteBinary {
            runtime: "made-3".to_string(),
            jar: "made-0".to_string(),
            output: "/out/app".to_string()
        }
    );
    let same = progress.clone().record(&Step::Finished, "x".to_string());
    assert_eq!(same, progress);
}
