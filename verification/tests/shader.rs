use learn_opengl::command::Command;
use learn_opengl::shader::{
    compile_result, compile_shader, link_result, link_shader, stage_source, succeeded,
    CompileResult, LinkPlan, ShaderKind, COMPILE_FAILURE_SCOPE, FAILURE_TAG,
    FRAGMENT_SHADER_GLSL, INFO_LOG_CAPACITY, INFO_LOG_LIMIT, LINK_FAILURE_SCOPE, STATUS_SUCCESS,
    VERTEX_SHADER_GLSL,
};

#[test]
fn status_and_log_limits() {
    assert_eq!(STATUS_SUCCESS, 1);
    assert_eq!(INFO_LOG_CAPACITY, 512);
    assert_eq!(INFO_LOG_LIMIT, 511);
    assert_eq!(COMPILE_FAILURE_SCOPE, "ERROR::SHADER::VERTEX::");
    assert_eq!(LINK_FAILURE_SCOPE, "ERROR::SHADER::PROGRAM::");
    assert_eq!(FAILURE_TAG, "COMPILATION_FAILED");
}

#[test]
fn only_one_status_means_success() {
    assert!(succeeded(1));
    assert!(!succeeded(0));
    assert!(!succeeded(-1));
    assert!(!succeeded(2));
    assert!(!succeeded(i32::MAX));
    assert!(!succeeded(i32::MIN));
}

#[test]
fn built_in_sources_are_glsl_330_core() {
    assert_eq!(stage_source(ShaderKind::Vertex), VERTEX_SHADER_GLSL);
    assert_eq!(stage_source(ShaderKind::Fragment), FRAGMENT_SHADER_GLSL);
    assert_eq!(
        VERTEX_SHADER_GLSL,
        "\n    #version 330 core\n    layout (location = 0) in vec3 aPos;\n    void main() {\n       gl_Position = vec4(aPos.x, aPos.y, aPos.z, 1.0);\n    }\n"
    );
    assert_eq!(
        FRAGMENT_SHADER_GLSL,
        "\n    #version 330 core\n    out vec4 FragColor;\n    void main() {\n        FragColor = vec4(1.0f, 0.5f, 0.2f, 1.0f);\n    }\n"
    );
}

#[test]
fn compile_submits_the_source_then_compiles() {
    assert_eq!(
        compile_shader(4, "void main() {}"),
        vec![
            Command::ShaderSource { shader: 4, source: String::from("void main() {}") },
            Command::CompileShader { shader: 4 },
        ]
    );
}

#[test]
fn compile_submits_any_text_as_it_is() {
    for source in ["", "not glsl at all", "caf\u{e9} \u{1f600}", VERTEX_SHADER_GLSL] {
        assert_eq!(
            compile_shader(0, source),
            vec![
                Command::ShaderSource { shader: 0, source: String::from(source) },
                Command::CompileShader { shader: 0 },
            ]
        );
    }
}

#[test]
fn successful_compile_has_no_diagnostic() {
    assert_eq!(
        compile_result(4, 1, ""),
        CompileResult { handle: 4, succeeded: true, diagnostics: None }
    );
    assert_eq!(
        compile_result(4, 1, "warning: unused variable"),
        CompileResult { handle: 4, succeeded: true, diagnostics: None }
    );
}

#[test]
fn failed_compile_still_returns_the_handle_and_a_tagged_diagnostic() {
    let result = compile_result(4, 0, "0:1(1): error: syntax error");
    assert_eq!(result.handle, 4);
    assert!(!result.succeeded);
    assert_eq!(
        result.diagnostics,
        Some(String::from(
            "ERROR::SHADER::VERTEX::COMPILATION_FAILED\n0:1(1): error: syntax error"
        ))
    );
}

#[test]
fn every_failure_status_is_reported_with_the_tag() {
    for status in [0, -1, 2, 255, i32::MIN, i32::MAX] {
        for log in ["", "x", "COMPILATION_OK"] {
            let result = compile_result(77, status, log);
            assert_eq!(result.handle, 77);
            assert!(!result.succeeded);
            let text = result.diagnostics.unwrap();
            assert!(text.contains("COMPILATION_FAILED"));
            assert_eq!(text, format!("ERROR::SHADER::VERTEX::COMPILATION_FAILED\n{}", log));
        }
    }
}

#[test]
fn fragment_stage_failures_use_the_same_fixed_scope() {
    let result = compile_result(9, 0, "bad fragment");
    assert_eq!(
        result.diagnostics,
        Some(String::from("ERROR::SHADER::VERTEX::COMPILATION_FAILED\nbad fragment"))
    );
}

#[test]
fn log_of_511_characters_is_kept_whole() {
    let log = "a".repeat(511);
    let text = compile_result(1, 0, &log).diagnostics.unwrap();
    assert_eq!(text, format!("ERROR::SHADER::VERTEX::COMPILATION_FAILED\n{}", log));
}

#[test]
fn log_of_512_characters_loses_its_last() {
    let log = format!("{}{}", "a".repeat(511), "b");
    let text = compile_result(1, 0, &log).diagnostics.unwrap();
    assert_eq!(text, format!("ERROR::SHADER::VERTEX::COMPILATION_FAILED\n{}", "a".repeat(511)));
}

#[test]
fn longer_log_is_cut_to_511_characters() {
    let log = format!("{}{}", "a".repeat(511), "bcd");
    let text = compile_result(1, 0, &log).diagnostics.unwrap();
    assert_eq!(text, format!("ERROR::SHADER::VERTEX::COMPILATION_FAILED\n{}", "a".repeat(511)));

    let link = link_result(1, 0, &"z".repeat(2000)).diagnostics.unwrap();
    assert_eq!(link, format!("ERROR::SHADER::PROGRAM::COMPILATION_FAILED\n{}", "z".repeat(511)));
}

#[test]
fn log_is_cut_by_characters_not_bytes() {
    let log = "\u{e9}".repeat(600);
    let text = compile_result(1, 0, &log).diagnostics.unwrap();
    let kept = "\u{e9}".repeat(511);
    assert_eq!(text, format!("ERROR::SHADER::VERTEX::COMPILATION_FAILED\n{}", kept));
    assert_eq!(text.chars().count(), 42 + 511);
}

#[test]
fn link_attaches_both_stages_links_and_plans_the_cleanup() {
    assert_eq!(
        link_shader(30, 10, 20),
        LinkPlan {
            link: vec![
                Command::AttachShader { program: 30, shader: 10 },
                Command::AttachShader { program: 30, shader: 20 },
                Command::LinkProgram { program: 30 },
            ],
            cleanup: vec![
                Command::DeleteShader { shader: 10 },
                Command::DeleteShader { shader: 20 },
            ],
        }
    );
}

#[test]
fn link_of_one_stage_twice_deletes_it_twice() {
    let plan = link_shader(1, 5, 5);
    assert_eq!(
        plan.cleanup,
        vec![Command::DeleteShader { shader: 5 }, Command::DeleteShader { shader: 5 }]
    );
}

#[test]
fn successful_link_returns_the_program_with_no_diagnostic() {
    assert_eq!(
        link_result(30, 1, "ignored"),
        CompileResult { handle: 30, succeeded: true, diagnostics: None }
    );
}

#[test]
fn failed_link_returns_the_program_and_a_tagged_diagnostic() {
    assert_eq!(
        link_result(30, 0, "error: linking with uncompiled shader"),
        CompileResult {
            handle: 30,
            succeeded: false,
            diagnostics: Some(String::from(
                "ERROR::SHADER::PROGRAM::COMPILATION_FAILED\nerror: linking with uncompiled shader"
            )),
        }
    );
}

#[test]
fn zero_handle_is_passed_through() {
    assert_eq!(compile_result(0, 0, "").handle, 0);
    assert_eq!(link_result(0, 7, "").handle, 0);
    assert_eq!(
        link_result(0, 7, "").diagnostics,
        Some(String::from("ERROR::SHADER::PROGRAM::COMPILATION_FAILED\n"))
    );
}
