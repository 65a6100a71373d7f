use clj_pack::error::PackError;
use clj_pack::jlink::{
    create_runtime, detect_modules, fallback_modules, jdeps_call, link_plan, runtime_path, Modules,
    ToolOutput,
};

fn output(success: bool, stdout: &str, stderr: &str) -> ToolOutput {
    ToolOutput {
        success,
        stdout: stdout.to_string(),
        stderr: stderr.to_string(),
    }
}

#[test]
fn fallback_modules_are_the_common_ones() {
    assert_eq!(
        fallback_modules(),
        "java.base,java.logging,java.sql,java.naming,java.management,java.instrument,java.desktop,java.xml,java.net.http"
    );
    assert_eq!(fallback_modules().split(',').count(), 9);
}

#[test]
fn jdeps_call_prints_the_module_list() {
    let call = jdeps_call("/jdk", false, "/p/target/app.jar");
    assert_eq!(call.program, "/jdk/bin/jdeps");
    assert_eq!(
        call.args,
        vec![
            "--print-module-deps",
            "--ignore-missing-deps",
            "--multi-release",
            "base",
            "/p/target/app.jar"
        ]
    );
    let call = jdeps_call("/jdk", true, "app.jar");
    assert_eq!(call.program, "/jdk/Contents/Home/bin/jdeps");
}

#[test]
fn detect_modules_takes_what_the_analyzer_printed() {
    assert_eq!(
        detect_modules(Ok(output(true, "java.base,java.sql\n", "noise"))),
        Ok(Modules {
            list: "java.base,java.sql".to_string(),
            warning: None
        })
    );
    assert_eq!(
        detect_modules(Ok(output(true, "  \tjava.base \r\n", ""))),
        Ok(Modules {
            list: "java.base".to_string(),
            warning: None
        })
    );
}

#[test]
fn detect_modules_of_an_empty_answer_is_the_base_module() {
    let base = Ok(Modules {
        list: "java.base".to_string(),
        warning: None,
    });
    assert_eq!(detect_modules(Ok(output(true, "", ""))), base);
    assert_eq!(detect_modules(Ok(output(true, " \n\t ", ""))), base);
}

#[test]
fn failed_analyzer_gives_the_fallback_and_a_warning() {
    let modules = detect_modules(Ok(output(false, "java.base", "Error: missing"))).unwrap();
    assert_eq!(modules.list, fallback_modules());
    assert_eq!(
        modules.warning,
        Some("jdeps failed, falling back to common modules: Error: missing".to_string())
    );
}

#[test]
fn analyzer_that_did_not_start_is_an_error() {
    assert_eq!(
        detect_modules(Err("No such file".to_string())),
        Err(PackError::JdepsFailed(
            "failed to run jdeps: No such file".to_string()
        ))
    );
}

#[test]
fn link_plan_asks_for_a_stripped_compressed_runtime() {
    let plan = link_plan("/jdk", false, "java.base,java.sql", "/tmp/w", true);
    assert_eq!(plan.runtime_path, "/tmp/w/runtime");
    assert!(plan.remove_stale);
    assert_eq!(plan.call.program, "/jdk/bin/jlink");
    assert_eq!(
        plan.call.args,
        vec![
            "--add-modules",
            "java.base,java.sql",
            "--strip-debug",
            "--no-man-pages",
            "--no-header-files",
            "--compress=zip-6",
            "--output",
            "/tmp/w/runtime"
        ]
    );
    let plan = link_plan("/jdk", true, "java.base", "/tmp/w/", false);
    assert!(!plan.remove_stale);
    assert_eq!(plan.call.program, "/jdk/Contents/Home/bin/jlink");
    assert_eq!(plan.runtime_path, "/tmp/w/runtime");
    assert_eq!(runtime_path("out"), "out/runtime");
}

#[test]
fn create_runtime_gives_the_runtime_of_a_good_link() {
    assert_eq!(
        create_runtime("/tmp/w", Ok(output(true, "", "warning"))),
        Ok("/tmp/w/runtime".to_string())
    );
}

#[test]
fn create_runtime_hands_on_the_linker_diagnostics() {
    assert_eq!(
        create_runtime("/tmp/w", Ok(output(false, "out", "Error: Module x not found\n"))),
        Err(PackError::JlinkFailed(
            "Error: Module x not found\n".to_string()
        ))
    );
    assert_eq!(
        create_runtime("/tmp/w", Err("denied".to_string())),
        Err(PackError::JlinkFailed(
            "failed to run jlink: denied".to_string()
        ))
    );
}
