use glprep::session::Failure;
use glprep::shader::{Build, BuildStep, ShaderError, ShaderStage};

const STEPS: [BuildStep; 7] = [
    BuildStep::CreateShader(ShaderStage::Vertex),
    BuildStep::Compile(ShaderStage::Vertex),
    BuildStep::CreateShader(ShaderStage::Fragment),
    BuildStep::Compile(ShaderStage::Fragment),
    BuildStep::CreateProgram,
    BuildStep::Link,
    BuildStep::Release,
];

fn after_good_reports(count: usize) -> Build {
    let mut build = Build::new();
    for _ in 0..count {
        build = build.advance(Ok(()));
    }
    build
}

#[test]
fn build_walks_through_its_seven_steps() {
    let mut build = Build::new();
    for step in STEPS {
        assert_eq!(build.pending(), Some(step));
        assert_eq!(build, Build::Pending(step));
        build = build.advance(Ok(()));
    }
    assert_eq!(build, Build::Linked);
    assert_eq!(build.pending(), None);
}

#[test]
fn steps_follow_each_other() {
    for pair in STEPS.windows(2) {
        assert_eq!(pair[0].next(), Some(pair[1]));
    }
    assert_eq!(BuildStep::Release.next(), None);
}

#[test]
fn vertex_compile_failure_keeps_the_log_verbatim() {
    let log = "0:7(3): error: syntax error, unexpected '}'\n\u{1f4a5} w\u{fc}rg".to_string();
    let build = after_good_reports(1).advance(Err(log.clone()));
    assert_eq!(
        build,
        Build::Failed(ShaderError::Compile { stage: ShaderStage::Vertex, log: log.clone() })
    );
    match build {
        Build::Failed(error) => assert_eq!(error.message(), log),
        _ => unreachable!(),
    }
}

#[test]
fn fragment_compile_failure_keeps_the_log_verbatim() {
    let log = "ERROR: 0:4: 'Color' : undeclared identifier".to_string();
    let build = after_good_reports(3).advance(Err(log.clone()));
    assert_eq!(
        build,
        Build::Failed(ShaderError::Compile { stage: ShaderStage::Fragment, log: log.clone() })
    );
    match build {
        Build::Failed(error) => assert_eq!(error.message(), log),
        _ => unreachable!(),
    }
}

#[test]
fn link_failure_keeps_the_log_verbatim() {
    let log = "error: vertex shader output `TexCoord' has no matching input".to_string();
    let build = after_good_reports(5).advance(Err(log.clone()));
    assert_eq!(build, Build::Failed(ShaderError::Link { log: log.clone() }));
    match build {
        Build::Failed(error) => assert_eq!(error.message(), log),
        _ => unreachable!(),
    }
}

#[test]
fn empty_log_stays_empty() {
    let error = ShaderError::Link { log: String::new() };
    assert_eq!(error.message(), "");
}

#[test]
fn creation_failures_have_their_fixed_messages() {
    let detail = "out of handles".to_string();
    let vertex = Build::new().advance(Err(detail.clone()));
    assert_eq!(
        vertex,
        Build::Failed(ShaderError::ShaderCreation {
            stage: ShaderStage::Vertex,
            detail: detail.clone()
        })
    );
    let fragment = after_good_reports(2).advance(Err(detail.clone()));
    assert_eq!(
        fragment,
        Build::Failed(ShaderError::ShaderCreation {
            stage: ShaderStage::Fragment,
            detail: detail.clone()
        })
    );
    let program = after_good_reports(4).advance(Err(detail.clone()));
    assert_eq!(program, Build::Failed(ShaderError::ProgramCreation { detail: detail.clone() }));
    let messages: Vec<String> = [vertex, fragment, program]
        .into_iter()
        .map(|build| match build {
            Build::Failed(error) => error.message(),
            _ => unreachable!(),
        })
        .collect();
    assert_eq!(
        messages,
        vec![
            "Failed to create vertex shader",
            "Failed to create fragment shader",
            "Failed to create shader program",
        ]
    );
}

#[test]
fn failed_build_stays_failed() {
    let failed = after_good_reports(1).advance(Err("bad".to_string()));
    let expected =
        Build::Failed(ShaderError::Compile { stage: ShaderStage::Vertex, log: "bad".to_string() });
    assert_eq!(failed, expected);
    assert_eq!(failed.pending(), None);
    let failed = failed.advance(Ok(()));
    assert_eq!(failed, expected);
    let failed = failed.advance(Err("worse".to_string()));
    assert_eq!(failed, expected);
}

#[test]
fn linked_build_stays_linked() {
    let linked = after_good_reports(7);
    assert_eq!(linked, Build::Linked);
    assert_eq!(linked.advance(Err("late".to_string())), Build::Linked);
    assert_eq!(after_good_reports(9), Build::Linked);
}

#[test]
fn release_cannot_fail() {
    let build = after_good_reports(6);
    assert_eq!(build.pending(), Some(BuildStep::Release));
    assert_eq!(build.advance(Err("ignored".to_string())), Build::Linked);
}

#[test]
fn no_program_without_six_good_reports() {
    for bad in 0..6 {
        let mut build = Build::new();
        for report in 0..10 {
            build = build.advance(if report == bad { Err("no".to_string()) } else { Ok(()) });
            assert_ne!(build, Build::Linked);
        }
        assert!(matches!(build, Build::Failed(_)));
    }
}

#[test]
fn shader_errors_are_sorted_into_failure_kinds() {
    let text = || "x".to_string();
    let compile = ShaderError::Compile { stage: ShaderStage::Fragment, log: text() };
    let link = ShaderError::Link { log: text() };
    let shader = ShaderError::ShaderCreation { stage: ShaderStage::Vertex, detail: text() };
    let program = ShaderError::ProgramCreation { detail: text() };
    assert_eq!(compile.failure(), Failure::CompileOrLink);
    assert_eq!(link.failure(), Failure::CompileOrLink);
    assert_eq!(shader.failure(), Failure::ResourceCreation);
    assert_eq!(program.failure(), Failure::ResourceCreation);
}
