//! The shader compiler and the program linker: which commands they send, how
//! they read the status that the device reports, and what they say when a stage
//! or a program fails to build.
//!
//! A failure is never fatal here. The handle is handed on whatever the status,
//! and the caller decides whether to go on with it.

use crate::command::{Command, CommandView};
use vstd::prelude::*;
use vstd::string::*;

verus! {

/// The status that the device reports for a stage that compiled or a program
/// that linked. Every other value means failure.
pub const STATUS_SUCCESS: i32 = 1;

/// The size, in bytes, of the buffer that the device is given for its log.
pub const INFO_LOG_CAPACITY: usize = 512;

/// The number of characters of the device's log that a diagnostic keeps: what
/// fits in the buffer beside the terminator.
pub const INFO_LOG_LIMIT: usize = INFO_LOG_CAPACITY - 1;

/// The words that open the diagnostic of a stage that failed to compile.
pub const COMPILE_FAILURE_SCOPE: &'static str = "ERROR::SHADER::VERTEX::";

/// The words that open the diagnostic of a program that failed to link.
pub const LINK_FAILURE_SCOPE: &'static str = "ERROR::SHADER::PROGRAM::";

/// The tag that every diagnostic carries.
pub const FAILURE_TAG: &'static str = "COMPILATION_FAILED";

/// The source of the vertex stage: it passes each position through.
pub const VERTEX_SHADER_GLSL: &'static str = "
    #version 330 core
    layout (location = 0) in vec3 aPos;
    void main() {
       gl_Position = vec4(aPos.x, aPos.y, aPos.z, 1.0);
    }
";

/// The source of the fragment stage: it paints every fragment orange.
pub const FRAGMENT_SHADER_GLSL: &'static str = "
    #version 330 core
    out vec4 FragColor;
    void main() {
        FragColor = vec4(1.0f, 0.5f, 0.2f, 1.0f);
    }
";

/// The two stages of the pipeline.
#[derive(Clone, Copy, Debug, PartialEq, Eq)]
pub enum ShaderKind {
    Vertex,
    Fragment,
}

/// How compiling a stage, or linking a program, ended.
#[derive(Debug, PartialEq, Eq)]
pub struct CompileResult {
    /// The handle of the stage or program, whether it built or not.
    pub handle: u32,
    /// Whether the device reported success.
    pub succeeded: bool,
    /// What to print if it did not.
    pub diagnostics: Option<String>,
}

/// What a [`CompileResult`] says, with the diagnostic as a sequence.
pub struct CompileResultView {
    pub handle: u32,
    pub succeeded: bool,
    pub diagnostics: Option<Seq<char>>,
}

impl View for CompileResult {
    type V = CompileResultView;

    open spec fn view(&self) -> CompileResultView {
        CompileResultView {
            handle: self.handle,
            succeeded: self.succeeded,
            diagnostics: match self.diagnostics {
                Some(text) => Some(text@),
                None => None,
            },
        }
    }
}

/// What the linker asks of the device: `link` before the status is read,
/// `cleanup` after it, whatever it was.
#[derive(Debug, PartialEq, Eq)]
pub struct LinkPlan {
    pub link: Vec<Command>,
    pub cleanup: Vec<Command>,
}

/// What a [`LinkPlan`] says, with its commands as sequences.
pub struct LinkPlanView {
    pub link: Seq<CommandView>,
    pub cleanup: Seq<CommandView>,
}

impl View for LinkPlan {
    type V = LinkPlanView;

    open spec fn view(&self) -> LinkPlanView {
        LinkPlanView { link: self.link.deep_view(), cleanup: self.cleanup.deep_view() }
    }
}

/// Whether a reported status means success.
pub open spec fn status_ok(status: i32) -> bool {
    status == STATUS_SUCCESS
}

/// The part of the device's log that a diagnostic keeps: all of it, or its
/// first [`INFO_LOG_LIMIT`] characters if it is longer.
pub open spec fn kept_log(log: Seq<char>) -> Seq<char> {
    if log.len() > INFO_LOG_LIMIT {
        log.take(INFO_LOG_LIMIT as int)
    } else {
        log
    }
}

/// The text of a diagnostic: the scope, the failure tag, a line break, and the
/// kept part of the log.
pub open spec fn diagnostic(scope: Seq<char>, log: Seq<char>) -> Seq<char> {
    scope + FAILURE_TAG@ + "\n"@ + kept_log(log)
}

/// The result for a handle whose build the device reported on with `status`
/// and `log`: the handle as it came, and a diagnostic exactly when the status
/// is not success.
pub open spec fn outcome(scope: Seq<char>, handle: u32, status: i32, log: Seq<char>) -> CompileResultView {
    CompileResultView {
        handle,
        succeeded: status_ok(status),
        diagnostics: if status_ok(status) {
            None
        } else {
            Some(diagnostic(scope, log))
        },
    }
}

/// Whether `pattern` stands somewhere in `text`, character for character.
pub open spec fn contains_text(text: Seq<char>, pattern: Seq<char>) -> bool {
    exists|start: int|
        0 <= start && start + pattern.len() <= text.len() && #[trigger] text.subrange(
            start,
            start + pattern.len(),
        ) == pattern
}

/// A stage that fails to compile still yields its handle, and a diagnostic
/// that carries the failure tag, whatever the device's log holds.
pub proof fn lemma_failed_compile_is_reported(shader: u32, status: i32, log: Seq<char>)
    requires
        !status_ok(status),
    ensures
        outcome(COMPILE_FAILURE_SCOPE@, shader, status, log).handle == shader,
        !outcome(COMPILE_FAILURE_SCOPE@, shader, status, log).succeeded,
        outcome(COMPILE_FAILURE_SCOPE@, shader, status, log).diagnostics is Some,
        contains_text(
            outcome(COMPILE_FAILURE_SCOPE@, shader, status, log).diagnostics->0,
            FAILURE_TAG@,
        ),
{
    lemma_diagnostic_carries_tag(COMPILE_FAILURE_SCOPE@, log);
}

/// Whatever the device reports for a link, the result carries the handle of
/// the program and says that it linked exactly if the status is success: then
/// it has no diagnostic, else one that carries the failure tag.
pub proof fn lemma_link_result_follows_status(program: u32, status: i32, log: Seq<char>)
    ensures
        outcome(LINK_FAILURE_SCOPE@, program, status, log).handle == program,
        outcome(LINK_FAILURE_SCOPE@, program, status, log).succeeded <==> status
            == STATUS_SUCCESS,
        status == STATUS_SUCCESS ==> outcome(
            LINK_FAILURE_SCOPE@,
            program,
            status,
            log,
        ).diagnostics is None,
        status != STATUS_SUCCESS ==> {
            &&& outcome(LINK_FAILURE_SCOPE@, program, status, log).diagnostics is Some
            &&& contains_text(
                outcome(LINK_FAILURE_SCOPE@, program, status, log).diagnostics->0,
                FAILURE_TAG@,
            )
        },
{
    lemma_diagnostic_carries_tag(LINK_FAILURE_SCOPE@, log);
}

/// Every diagnostic carries the failure tag, right after its scope.
pub proof fn lemma_diagnostic_carries_tag(scope: Seq<char>, log: Seq<char>)
    ensures
        contains_text(diagnostic(scope, log), FAILURE_TAG@),
{
    let text = diagnostic(scope, log);
    let start = scope.len() as int;
    assert(text.subrange(start, start + FAILURE_TAG@.len()) =~= FAILURE_TAG@);
}

/// The source that the program compiles for a stage.
pub fn stage_source(kind: ShaderKind) -> (source: &'static str)
    ensures
        source@ == match kind {
            ShaderKind::Vertex => VERTEX_SHADER_GLSL@,
            ShaderKind::Fragment => FRAGMENT_SHADER_GLSL@,
        },
{
    match kind {
        ShaderKind::Vertex => VERTEX_SHADER_GLSL,
        ShaderKind::Fragment => FRAGMENT_SHADER_GLSL,
    }
}

/// Whether a reported status means success. The device's log is worth
/// fetching only when it does not.
pub fn succeeded(status: i32) -> (ok: bool)
    ensures
        ok == status_ok(status),
{
    status == STATUS_SUCCESS
}

/// The diagnostic for a failed build.
fn diagnostic_text(scope: &str, info_log: &str) -> (text: String)
    ensures
        text@ == diagnostic(scope@, info_log@),
{
    let mut text = String::from_str(scope);
    text.append(FAILURE_TAG);
    text.append("\n");
    if info_log.unicode_len() > INFO_LOG_LIMIT {
        text.append(info_log.substring_char(0, INFO_LOG_LIMIT));
    } else {
        text.append(info_log);
    }
    text
}

/// The result for a handle, from the status and the log that the device
/// reported.
fn build_result(scope: &str, handle: u32, status: i32, info_log: &str) -> (result: CompileResult)
    ensures
        result@ == outcome(scope@, handle, status, info_log@),
{
    if succeeded(status) {
        CompileResult { handle, succeeded: true, diagnostics: None }
    } else {
        CompileResult {
            handle,
            succeeded: false,
            diagnostics: Some(diagnostic_text(scope, info_log)),
        }
    }
}

/// The commands that compile a stage: hand `source` to the shader object,
/// then compile it.
pub fn compile_shader(shader: u32, source: &str) -> (commands: Vec<Command>)
    ensures
        commands.deep_view() == seq![
            CommandView::ShaderSource { shader, source: source@ },
            CommandView::CompileShader { shader },
        ],
{
    let mut commands: Vec<Command> = Vec::new();
    commands.push(Command::ShaderSource { shader, source: String::from_str(source) });
    commands.push(Command::CompileShader { shader });
    commands
}

/// Reads the compile status that the device reported for `shader`.
///
/// The handle comes back whatever the status. If the status is not success,
/// the result carries a diagnostic made of the compile scope, the failure tag
/// and at most [`INFO_LOG_LIMIT`] characters of `info_log`.
pub fn compile_result(shader: u32, status: i32, info_log: &str) -> (result: CompileResult)
    ensures
        result@ == outcome(COMPILE_FAILURE_SCOPE@, shader, status, info_log@),
{
    build_result(COMPILE_FAILURE_SCOPE, shader, status, info_log)
}

/// The commands that link a program from two compiled stages.
///
/// Before the status is read, both stages are attached, the vertex stage
/// first, and the program is linked. After it, both stages are deleted,
/// whether the program linked or not.
pub fn link_shader(program: u32, vertex_shader: u32, fragment_shader: u32) -> (plan: LinkPlan)
    ensures
        plan@.link == seq![
            CommandView::AttachShader { program, shader: vertex_shader },
            CommandView::AttachShader { program, shader: fragment_shader },
            CommandView::LinkProgram { program },
        ],
        plan@.cleanup == seq![
            CommandView::DeleteShader { shader: vertex_shader },
            CommandView::DeleteShader { shader: fragment_shader },
        ],
{
    let mut link: Vec<Command> = Vec::new();
    link.push(Command::AttachShader { program, shader: vertex_shader });
    link.push(Command::AttachShader { program, shader: fragment_shader });
    link.push(Command::LinkProgram { program });
    let mut cleanup: Vec<Command> = Vec::new();
    cleanup.push(Command::DeleteShader { shader: vertex_shader });
    cleanup.push(Command::DeleteShader { shader: fragment_shader });
    LinkPlan { link, cleanup }
}

/// Reads the link status that the device reported for `program`.
///
/// The handle comes back whatever the status. If the status is not success,
/// the result carries a diagnostic made of the link scope, the failure tag and
/// at most [`INFO_LOG_LIMIT`] characters of `info_log`.
pub fn link_result(program: u32, status: i32, info_log: &str) -> (result: CompileResult)
    ensures
        result@ == outcome(LINK_FAILURE_SCOPE@, program, status, info_log@),
{
    build_result(LINK_FAILURE_SCOPE, program, status, info_log)
}

} // verus!
