use quad_pipeline::clock::perf_to_system;
use quad_pipeline::compute_stage::{AppContext, ComputeStage, RenderTarget, StageState, Viewport};
use quad_pipeline::draw_stage::DrawStage;
use quad_pipeline::error::{Resource, StageError, StartupError};
use quad_pipeline::gl;
use quad_pipeline::gl::{Attribute, GlCall, GlReply, ShaderKind, Uniform};
use quad_pipeline::session::{judge, Session, Verdict};
use quad_pipeline::shader::{compile_shader, link_program};
use web_sys::WebGl2RenderingContext as Gl;

fn context(width: u32, height: u32, boot_ms: u64) -> AppContext {
    AppContext { viewport: Viewport { width, height }, boot_time: perf_to_system(boot_ms) }
}

// A device on which every call succeeds.
fn accept(call: &GlCall) -> GlReply {
    match call {
        GlCall::CreateShader { .. }
        | GlCall::CreateProgram
        | GlCall::CreateFramebuffer
        | GlCall::CreateTexture
        | GlCall::CreateBuffer
        | GlCall::CreateVertexArray => GlReply::Created(true),
        GlCall::GetShaderParameter { .. } | GlCall::GetProgramParameter { .. } => {
            GlReply::Flag(Some(true))
        }
        _ => GlReply::Done,
    }
}

// Runs a session; `device` answers each call. Returns the calls performed.
fn drive(session: &mut Session, device: &dyn Fn(&GlCall) -> GlReply) -> Vec<GlCall> {
    let mut performed = Vec::new();
    while let Some(call) = session.pending() {
        performed.push(call);
        session.resolve(device(&call));
    }
    performed
}

fn drive_stage(stage: &mut ComputeStage, device: &dyn Fn(&GlCall) -> GlReply) -> Vec<GlCall> {
    let mut performed = Vec::new();
    while let Some(call) = stage.pending() {
        performed.push(call);
        stage.resolve(device(&call));
    }
    performed
}

fn expected_startup(width: i32, height: i32) -> Vec<GlCall> {
    vec![
        GlCall::CreateShader { kind: ShaderKind::Vertex },
        GlCall::ShaderSource { shader: ShaderKind::Vertex },
        GlCall::CompileShader { shader: ShaderKind::Vertex },
        GlCall::GetShaderParameter { shader: ShaderKind::Vertex, pname: Gl::COMPILE_STATUS },
        GlCall::CreateShader { kind: ShaderKind::Fragment },
        GlCall::ShaderSource { shader: ShaderKind::Fragment },
        GlCall::CompileShader { shader: ShaderKind::Fragment },
        GlCall::GetShaderParameter { shader: ShaderKind::Fragment, pname: Gl::COMPILE_STATUS },
        GlCall::CreateProgram,
        GlCall::AttachShader { shader: ShaderKind::Vertex },
        GlCall::AttachShader { shader: ShaderKind::Fragment },
        GlCall::LinkProgram,
        GlCall::GetProgramParameter { pname: Gl::LINK_STATUS },
        GlCall::CreateFramebuffer,
        GlCall::CreateTexture,
        GlCall::GetAttribLocation { attribute: Attribute::Position },
        GlCall::CreateBuffer,
        GlCall::BindBuffer { target: Gl::ARRAY_BUFFER },
        GlCall::BufferData {
            target: Gl::ARRAY_BUFFER,
            data: [-1, -1, 0, -1, 1, 0, 1, 1, 0, 1, 1, 0, 1, -1, 0, -1, -1, 0],
            usage: Gl::STATIC_DRAW,
        },
        GlCall::CreateVertexArray,
        GlCall::BindVertexArray,
        GlCall::VertexAttribPointer {
            index: 0,
            size: 3,
            data_type: Gl::FLOAT,
            normalized: false,
            stride: 0,
            offset: 0,
        },
        GlCall::EnableVertexAttribArray { attribute: Attribute::Position },
        GlCall::BindVertexArray,
        GlCall::UseProgram,
        GlCall::Viewport { x: 0, y: 0, width, height },
        GlCall::ActiveTexture { unit: Gl::TEXTURE0 },
        GlCall::BindTexture { target: Gl::TEXTURE_2D },
        GlCall::TexParameteri {
            target: Gl::TEXTURE_2D,
            pname: Gl::TEXTURE_MAG_FILTER,
            param: Gl::LINEAR as i32,
        },
        GlCall::TexParameteri {
            target: Gl::TEXTURE_2D,
            pname: Gl::TEXTURE_MIN_FILTER,
            param: Gl::LINEAR as i32,
        },
        GlCall::TexImage2d {
            target: Gl::TEXTURE_2D,
            level: 0,
            internal_format: Gl::RGBA as i32,
            width,
            height,
            border: 0,
            format: Gl::RGBA,
            data_type: Gl::UNSIGNED_BYTE,
        },
        GlCall::FramebufferTexture2d {
            target: Gl::FRAMEBUFFER,
            attachment: Gl::COLOR_ATTACHMENT1,
            textarget: Gl::TEXTURE_2D,
            level: 0,
        },
    ]
}

#[test]
fn enumerants_are_those_of_webgl() {
    assert_eq!(gl::DEPTH_BUFFER_BIT, Gl::DEPTH_BUFFER_BIT);
    assert_eq!(gl::COLOR_BUFFER_BIT, Gl::COLOR_BUFFER_BIT);
    assert_eq!(gl::TRIANGLES, Gl::TRIANGLES);
    assert_eq!(gl::TEXTURE_2D, Gl::TEXTURE_2D);
    assert_eq!(gl::UNSIGNED_BYTE, Gl::UNSIGNED_BYTE);
    assert_eq!(gl::FLOAT, Gl::FLOAT);
    assert_eq!(gl::RGBA, Gl::RGBA);
    assert_eq!(gl::LINEAR, Gl::LINEAR);
    assert_eq!(gl::TEXTURE_MAG_FILTER, Gl::TEXTURE_MAG_FILTER);
    assert_eq!(gl::TEXTURE_MIN_FILTER, Gl::TEXTURE_MIN_FILTER);
    assert_eq!(gl::TEXTURE0, Gl::TEXTURE0);
    assert_eq!(gl::ARRAY_BUFFER, Gl::ARRAY_BUFFER);
    assert_eq!(gl::STATIC_DRAW, Gl::STATIC_DRAW);
    assert_eq!(gl::FRAGMENT_SHADER, Gl::FRAGMENT_SHADER);
    assert_eq!(gl::VERTEX_SHADER, Gl::VERTEX_SHADER);
    assert_eq!(gl::COMPILE_STATUS, Gl::COMPILE_STATUS);
    assert_eq!(gl::LINK_STATUS, Gl::LINK_STATUS);
    assert_eq!(gl::COLOR_ATTACHMENT1, Gl::COLOR_ATTACHMENT1);
    assert_eq!(gl::FRAMEBUFFER, Gl::FRAMEBUFFER);
}

#[test]
fn shader_kinds_select_their_enumerant() {
    assert_eq!(ShaderKind::Vertex.gl_enum(), Gl::VERTEX_SHADER);
    assert_eq!(ShaderKind::Fragment.gl_enum(), Gl::FRAGMENT_SHADER);
}

#[test]
fn names_are_those_of_the_shader_sources() {
    assert_eq!(Attribute::Position.name(), "position");
    assert_eq!(Uniform::Resolution.name(), "u_resolution");
    assert_eq!(Uniform::Time.name(), "u_time");
}

#[test]
fn compile_plan_creates_sources_compiles_and_asks() {
    assert_eq!(
        compile_shader(ShaderKind::Fragment),
        vec![
            GlCall::CreateShader { kind: ShaderKind::Fragment },
            GlCall::ShaderSource { shader: ShaderKind::Fragment },
            GlCall::CompileShader { shader: ShaderKind::Fragment },
            GlCall::GetShaderParameter {
                shader: ShaderKind::Fragment,
                pname: Gl::COMPILE_STATUS
            },
        ]
    );
}

#[test]
fn link_plan_attaches_both_shaders_and_asks() {
    assert_eq!(
        link_program(ShaderKind::Vertex, ShaderKind::Fragment),
        vec![
            GlCall::CreateProgram,
            GlCall::AttachShader { shader: ShaderKind::Vertex },
            GlCall::AttachShader { shader: ShaderKind::Fragment },
            GlCall::LinkProgram,
            GlCall::GetProgramParameter { pname: Gl::LINK_STATUS },
        ]
    );
}

#[test]
fn accepted_compile_completes_without_a_log_query() {
    let mut session = Session::new(compile_shader(ShaderKind::Vertex));
    let performed = drive(&mut session, &accept);
    assert_eq!(performed, compile_shader(ShaderKind::Vertex));
    assert!(session.is_complete());
    assert_eq!(session.failure(), None);
}

#[test]
fn shader_that_is_not_created_fails_at_once() {
    let mut session = Session::new(compile_shader(ShaderKind::Vertex));
    let performed = drive(&mut session, &|call| match call {
        GlCall::CreateShader { .. } => GlReply::Created(false),
        other => accept(other),
    });
    assert_eq!(performed, vec![GlCall::CreateShader { kind: ShaderKind::Vertex }]);
    assert_eq!(
        session.failure(),
        Some(&StartupError::ShaderCompile {
            kind: ShaderKind::Vertex,
            message: "Unable to create shader object".to_string(),
        })
    );
    assert!(!session.is_complete());
}

#[test]
fn rejected_shader_reports_the_compilers_text() {
    let log = "ERROR: 0:3: 'foo' : undeclared identifier";
    let mut session = Session::new(compile_shader(ShaderKind::Fragment));
    let performed = drive(&mut session, &|call| match call {
        GlCall::GetShaderParameter { .. } => GlReply::Flag(Some(false)),
        GlCall::GetShaderInfoLog { .. } => GlReply::Text(Some(log.to_string())),
        other => accept(other),
    });
    let mut expected = compile_shader(ShaderKind::Fragment);
    expected.push(GlCall::GetShaderInfoLog { shader: ShaderKind::Fragment });
    assert_eq!(performed, expected);
    let error = session.failure().unwrap();
    assert_eq!(
        *error,
        StartupError::ShaderCompile { kind: ShaderKind::Fragment, message: log.to_string() }
    );
    assert_eq!(error.diagnostic(), log);
    assert!(!error.diagnostic().is_empty());
}

#[test]
fn rejected_shader_without_a_log_reports_a_fixed_text() {
    let mut session = Session::new(compile_shader(ShaderKind::Vertex));
    drive(&mut session, &|call| match call {
        GlCall::GetShaderParameter { .. } => GlReply::Flag(Some(false)),
        GlCall::GetShaderInfoLog { .. } => GlReply::Text(None),
        other => accept(other),
    });
    assert_eq!(
        session.failure(),
        Some(&StartupError::ShaderCompile {
            kind: ShaderKind::Vertex,
            message: "Unknown error creating shader".to_string(),
        })
    );
}

#[test]
fn status_that_is_no_boolean_counts_as_rejected() {
    let mut session = Session::new(compile_shader(ShaderKind::Vertex));
    drive(&mut session, &|call| match call {
        GlCall::GetShaderParameter { .. } => GlReply::Flag(None),
        GlCall::GetShaderInfoLog { .. } => GlReply::Text(Some("no status".to_string())),
        other => accept(other),
    });
    assert_eq!(
        session.failure(),
        Some(&StartupError::ShaderCompile {
            kind: ShaderKind::Vertex,
            message: "no status".to_string(),
        })
    );
}

#[test]
fn program_that_is_not_created_fails_at_once() {
    let mut session = Session::new(link_program(ShaderKind::Vertex, ShaderKind::Fragment));
    let performed = drive(&mut session, &|call| match call {
        GlCall::CreateProgram => GlReply::Created(false),
        other => accept(other),
    });
    assert_eq!(performed, vec![GlCall::CreateProgram]);
    assert_eq!(
        session.failure(),
        Some(&StartupError::ProgramLink { message: "Unable to create shader object".to_string() })
    );
}

#[test]
fn rejected_program_reports_the_linkers_text() {
    let log = "varying v_uv not written by vertex shader";
    let mut session = Session::new(link_program(ShaderKind::Vertex, ShaderKind::Fragment));
    let performed = drive(&mut session, &|call| match call {
        GlCall::GetProgramParameter { .. } => GlReply::Flag(Some(false)),
        GlCall::GetProgramInfoLog => GlReply::Text(Some(log.to_string())),
        other => accept(other),
    });
    let mut expected = link_program(ShaderKind::Vertex, ShaderKind::Fragment);
    expected.push(GlCall::GetProgramInfoLog);
    assert_eq!(performed, expected);
    let error = session.failure().unwrap();
    assert_eq!(*error, StartupError::ProgramLink { message: log.to_string() });
    assert_eq!(error.diagnostic(), log);
}

#[test]
fn rejected_program_without_a_log_reports_a_fixed_text() {
    let mut session = Session::new(link_program(ShaderKind::Vertex, ShaderKind::Fragment));
    drive(&mut session, &|call| match call {
        GlCall::GetProgramParameter { .. } => GlReply::Flag(None),
        GlCall::GetProgramInfoLog => GlReply::Text(None),
        other => accept(other),
    });
    assert_eq!(
        session.failure(),
        Some(&StartupError::ProgramLink {
            message: "Unknown error creating program object".to_string()
        })
    );
}

#[test]
fn judge_lets_plain_calls_pass_whatever_they_report() {
    for reply in [
        GlReply::Done,
        GlReply::Raised,
        GlReply::Created(false),
        GlReply::Flag(Some(false)),
        GlReply::Text(None),
    ] {
        assert_eq!(judge(GlCall::UseProgram, reply.clone()), Verdict::Proceed);
        assert_eq!(judge(GlCall::LinkProgram, reply.clone()), Verdict::Proceed);
        assert_eq!(judge(GlCall::Clear { mask: 0 }, reply.clone()), Verdict::Proceed);
        assert_eq!(
            judge(GlCall::GetUniformLocation { uniform: Uniform::Time }, reply.clone()),
            Verdict::Proceed
        );
        // only the compile and link status are read as verdicts
        assert_eq!(
            judge(
                GlCall::GetShaderParameter { shader: ShaderKind::Vertex, pname: 0x8B80 },
                reply.clone()
            ),
            Verdict::Proceed
        );
        assert_eq!(judge(GlCall::GetProgramParameter { pname: 0x8B80 }, reply), Verdict::Proceed);
    }
}

#[test]
fn judge_asks_for_the_log_of_what_failed() {
    assert_eq!(
        judge(
            GlCall::GetShaderParameter { shader: ShaderKind::Fragment, pname: Gl::COMPILE_STATUS },
            GlReply::Flag(Some(false))
        ),
        Verdict::Probe(GlCall::GetShaderInfoLog { shader: ShaderKind::Fragment })
    );
    assert_eq!(
        judge(GlCall::GetProgramParameter { pname: Gl::LINK_STATUS }, GlReply::Done),
        Verdict::Probe(GlCall::GetProgramInfoLog)
    );
    assert_eq!(
        judge(
            GlCall::GetShaderParameter { shader: ShaderKind::Fragment, pname: Gl::COMPILE_STATUS },
            GlReply::Flag(Some(true))
        ),
        Verdict::Proceed
    );
}

#[test]
fn judge_names_the_resource_that_is_missing() {
    let missing = |resource| Verdict::Abort(StartupError::ResourceAllocation { resource });
    assert_eq!(judge(GlCall::CreateBuffer, GlReply::Created(false)), missing(Resource::Buffer));
    assert_eq!(
        judge(GlCall::CreateVertexArray, GlReply::Created(false)),
        missing(Resource::VertexArray)
    );
    assert_eq!(
        judge(GlCall::CreateFramebuffer, GlReply::Created(false)),
        missing(Resource::Framebuffer)
    );
    assert_eq!(judge(GlCall::CreateTexture, GlReply::Done), missing(Resource::Texture));
    let storage = GlCall::TexImage2d {
        target: Gl::TEXTURE_2D,
        level: 0,
        internal_format: Gl::RGBA as i32,
        width: 4,
        height: 4,
        border: 0,
        format: Gl::RGBA,
        data_type: Gl::UNSIGNED_BYTE,
    };
    assert_eq!(judge(storage, GlReply::Raised), missing(Resource::TextureStorage));
    assert_eq!(judge(storage, GlReply::Done), Verdict::Proceed);
    assert_eq!(judge(GlCall::CreateBuffer, GlReply::Created(true)), Verdict::Proceed);
}

#[test]
fn diagnostics_of_missing_resources_are_fixed_phrases() {
    let text = |resource| StartupError::ResourceAllocation { resource }.diagnostic();
    assert_eq!(text(Resource::Buffer), "should have a buffer");
    assert_eq!(text(Resource::VertexArray), "should have a vertex array object");
    assert_eq!(text(Resource::Framebuffer), "should have a framebuffer");
    assert_eq!(text(Resource::Texture), "should have a texture");
    assert_eq!(text(Resource::TextureStorage), "expect tex image 2d result");
    assert_eq!(
        StartupError::SurfaceAcquisition.diagnostic(),
        "should have a canvas in this context"
    );
}

#[test]
fn empty_plan_is_complete_from_the_start() {
    let mut session = Session::new(Vec::new());
    assert_eq!(session.pending(), None);
    assert!(session.is_complete());
    session.resolve(GlReply::Raised);
    assert!(session.is_complete());
    assert_eq!(session.failure(), None);
}

#[test]
fn failed_session_ignores_later_reports() {
    let mut session = Session::new(compile_shader(ShaderKind::Vertex));
    session.resolve(GlReply::Created(false));
    let failure = session.failure().cloned();
    assert!(failure.is_some());
    for reply in [GlReply::Created(true), GlReply::Flag(Some(true)), GlReply::Done] {
        session.resolve(reply);
        assert_eq!(session.pending(), None);
        assert_eq!(session.failure().cloned(), failure);
        assert!(!session.is_complete());
    }
}

#[test]
fn draw_stage_plans_its_set_up_once() {
    let mut stage = DrawStage::new();
    let plan = stage.init().unwrap();
    assert_eq!(plan, expected_startup(1, 1)[15..24].to_vec());
    assert!(stage.is_initialized());
    assert_eq!(stage.init(), Err(StageError::AlreadyInitialized));
    assert!(stage.is_initialized());
}

#[test]
fn new_stage_is_uninitialized_and_asks_for_nothing() {
    let stage = ComputeStage::new(context(800, 600, 0));
    assert_eq!(stage.state(), StageState::Uninitialized);
    assert_eq!(stage.pending(), None);
    assert_eq!(stage.render_target(), None);
    assert_eq!(stage.failure(), None);
    assert_eq!(stage.context(), context(800, 600, 0));
    assert!(!stage.draw_stage().is_initialized());
}

#[test]
fn reports_before_init_change_nothing() {
    let mut stage = ComputeStage::new(context(800, 600, 0));
    stage.resolve(GlReply::Created(false));
    assert_eq!(stage.state(), StageState::Uninitialized);
    assert_eq!(stage.pending(), None);
    assert_eq!(stage.init(), Ok(()));
    assert_eq!(stage.state(), StageState::Initializing);
}

#[test]
fn startup_performs_the_whole_plan_in_order() {
    let mut stage = ComputeStage::new(context(800, 600, 0));
    assert_eq!(stage.init(), Ok(()));
    assert_eq!(stage.state(), StageState::Initializing);
    assert_eq!(stage.render_target(), None);
    let performed = drive_stage(&mut stage, &accept);
    assert_eq!(performed, expected_startup(800, 600));
    assert_eq!(stage.state(), StageState::Ready);
    assert_eq!(stage.failure(), None);
}

#[test]
fn render_target_has_the_size_of_the_viewport() {
    for (w, h) in [(800u32, 600u32), (1, 1), (1920, 1080), (600, 800), (i32::MAX as u32, 2)] {
        let mut stage = ComputeStage::new(context(w, h, 0));
        stage.init().unwrap();
        let performed = drive_stage(&mut stage, &accept);
        assert_eq!(stage.render_target(), Some(RenderTarget { width: w, height: h }));
        let sizes: Vec<(i32, i32)> = performed
            .iter()
            .filter_map(|call| match call {
                GlCall::TexImage2d { width, height, .. } => Some((*width, *height)),
                _ => None,
            })
            .collect();
        assert_eq!(sizes, vec![(w as i32, h as i32)]);
        assert!(performed.contains(&GlCall::Viewport {
            x: 0,
            y: 0,
            width: w as i32,
            height: h as i32
        }));
    }
}

#[test]
fn init_twice_is_refused_and_allocates_nothing_more() {
    let mut stage = ComputeStage::new(context(800, 600, 0));
    assert_eq!(stage.init(), Ok(()));
    // while start-up is under way
    let pending = stage.pending();
    assert_eq!(stage.init(), Err(StageError::AlreadyInitialized));
    assert_eq!(stage.pending(), pending);
    let performed = drive_stage(&mut stage, &accept);
    assert_eq!(performed.len(), 32);
    // and once it is through
    assert_eq!(stage.init(), Err(StageError::AlreadyInitialized));
    assert_eq!(stage.state(), StageState::Ready);
    assert_eq!(stage.pending(), None);
    let creations = performed
        .iter()
        .filter(|call| {
            matches!(
                call,
                GlCall::CreateBuffer
                    | GlCall::CreateVertexArray
                    | GlCall::CreateFramebuffer
                    | GlCall::CreateTexture
                    | GlCall::CreateProgram
            )
        })
        .count();
    assert_eq!(creations, 5);
}

#[test]
fn invalid_fragment_shader_yields_no_program() {
    let mut stage = ComputeStage::new(context(800, 600, 0));
    stage.init().unwrap();
    let performed = drive_stage(&mut stage, &|call| match call {
        GlCall::GetShaderParameter { shader: ShaderKind::Fragment, .. } => {
            GlReply::Flag(Some(false))
        }
        GlCall::GetShaderInfoLog { .. } => GlReply::Text(Some("syntax error".to_string())),
        other => accept(other),
    });
    let mut expected = expected_startup(800, 600)[..8].to_vec();
    expected.push(GlCall::GetShaderInfoLog { shader: ShaderKind::Fragment });
    assert_eq!(performed, expected);
    assert!(!performed.contains(&GlCall::CreateProgram));
    assert!(!performed.contains(&GlCall::LinkProgram));
    assert_eq!(stage.state(), StageState::Failed);
    assert_eq!(stage.render_target(), None);
    let error = stage.failure().unwrap();
    assert_eq!(
        *error,
        StartupError::ShaderCompile {
            kind: ShaderKind::Fragment,
            message: "syntax error".to_string()
        }
    );
    assert!(!error.diagnostic().is_empty());
    // a failed stage stays failed
    stage.resolve(GlReply::Created(true));
    assert_eq!(stage.state(), StageState::Failed);
    assert_eq!(stage.init(), Err(StageError::AlreadyInitialized));
}

#[test]
fn missing_vertex_array_stops_startup_there() {
    let mut stage = ComputeStage::new(context(800, 600, 0));
    stage.init().unwrap();
    let performed = drive_stage(&mut stage, &|call| match call {
        GlCall::CreateVertexArray => GlReply::Created(false),
        other => accept(other),
    });
    assert_eq!(performed, expected_startup(800, 600)[..20].to_vec());
    assert_eq!(
        stage.failure(),
        Some(&StartupError::ResourceAllocation { resource: Resource::VertexArray })
    );
    assert_eq!(stage.state(), StageState::Failed);
}

#[test]
fn texture_storage_that_raises_stops_startup_there() {
    let mut stage = ComputeStage::new(context(800, 600, 0));
    stage.init().unwrap();
    let performed = drive_stage(&mut stage, &|call| match call {
        GlCall::TexImage2d { .. } => GlReply::Raised,
        other => accept(other),
    });
    assert_eq!(performed, expected_startup(800, 600)[..31].to_vec());
    assert_eq!(
        stage.failure(),
        Some(&StartupError::ResourceAllocation { resource: Resource::TextureStorage })
    );
}
