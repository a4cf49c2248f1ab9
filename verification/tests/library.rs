use unrust::engine::world::{WatchAction, WatchPhase, WatchStep};
use unrust::engine::program::ShaderProgramGLState;
use unrust::engine::render::{DepthTest, MaterialState, RenderQueue, ShaderAttrib};
use unrust::engine::sound::{PlayRequest, SoundHandle, SoundSystem, choose_channel};
use unrust::engine::files::AppFileSystem;
use unrust::engine::shader::{PreprocessedShaderCode, Shader, ShaderKind, ShaderKindFs, ShaderKindVs};
use unrust::glsl::defeval::{Eval, EvalContextSimple};
use unrust::glsl::expression::{expression, Expression};
use unrust::glsl::parser::parse;
use unrust::glsl::preprocessor::process::preprocess;
use unrust::glsl::preprocessor::session::Define;
use unrust::glsl::preprocessor::state::PreprocessState;
use unrust::glsl::token::{Constant, Token};
use unrust::uniapp::{AppConfig, KeyDownEvent, KeyUpEvent};
use unrust::webgl::glenum::{BufferKind, Primitives, ShaderKind as GLShaderKind};
use unrust::webgl::{gl_error_message, gl_error_text, WebGLProgram, WebGLUniformLocation};

fn pp(s: &str) -> String {
    preprocess(s, &Vec::new()).unwrap()
}

fn eval(s: &str) -> Result<Constant, String> {
    let v: Vec<char> = s.chars().collect();
    let e = expression(&v, 0).unwrap().0;
    e.eval_constant(&EvalContextSimple::default()).map_err(|e| e.into_string())
}

#[test]
fn object_macro_is_replaced() {
    assert_eq!(pp("#define A 1\nA + A\n"), " 1 + 1 \n");
}

#[test]
fn undef_removes_macro() {
    assert_eq!(pp("#define A 1\n#undef A\nA\n"), " A \n");
}

#[test]
fn ifdef_takes_first_part_when_defined() {
    assert_eq!(pp("#define X\n#ifdef X\na\n#else\nb\n#endif\n"), " a \n");
    assert_eq!(pp("#ifdef X\na\n#else\nb\n#endif\n"), " b \n");
}

#[test]
fn ifndef_is_dual_of_ifdef() {
    assert_eq!(pp("#define X\n#ifndef X\na\n#else\nb\n#endif\n"), " b \n");
    assert_eq!(pp("#ifndef X\na\n#else\nb\n#endif\n"), " a \n");
}

#[test]
fn predefined_macros_apply() {
    let predefs = vec![("A".to_string(), "2".to_string())];
    assert_eq!(preprocess("A\n", &predefs).unwrap(), " 2 \n");
}

#[test]
fn backslash_joins_lines() {
    assert_eq!(pp("#define F(x) x \\\n+ 1\nF(2)\n"), " 2 + 1 \n");
}

#[test]
fn comments_are_removed() {
    assert_eq!(pp("// c\nb\n/* x */\nc\n"), " b \n c \n");
}

#[test]
fn ignored_directives_put_out_nothing() {
    assert_eq!(pp("#version 100\n#pragma x\na\n"), " a \n");
}

#[test]
fn wrong_argument_count_is_an_error() {
    let r = preprocess("#define F(a,b) a\nF(1)\n", &Vec::new());
    assert_eq!(r.unwrap_err().0, "Fail to apply define macro for F, expects 2 args, given 1 args");
}

#[test]
fn ifdef_without_endif_is_an_error() {
    let r = preprocess("#ifdef X\na\n", &Vec::new());
    assert!(r.is_err());
}

#[test]
fn state_define_get_undefine() {
    let mut st = PreprocessState::new();
    let name = "N".to_string();
    assert!(!st.is_defined(&name));
    st.define(name.clone(), Define::Replace(vec![Token::Constant(Constant::Integer(3), "3".to_string())]));
    assert!(st.is_defined(&name));
    match st.get_defined(&name) {
        Some(Define::Replace(ts)) => assert_eq!(ts, vec![Token::Constant(Constant::Integer(3), "3".to_string())]),
        _ => panic!("not defined as a replacement"),
    }
    st.undefine(&name);
    assert!(st.get_defined(&name).is_none());
}

#[test]
fn eval_integer_operations() {
    assert_eq!(eval("-7/2"), Ok(Constant::Integer(-3)));
    assert_eq!(eval("7 % -2"), Ok(Constant::Integer(1)));
    assert_eq!(eval("-7 % 2"), Ok(Constant::Integer(-1)));
    assert_eq!(eval("1 << 3"), Ok(Constant::Integer(8)));
    assert_eq!(eval("-8 >> 1"), Ok(Constant::Integer(-4)));
    assert_eq!(eval("~0"), Ok(Constant::Integer(-1)));
    assert_eq!(eval("1 ? 2 : 3"), Ok(Constant::Integer(2)));
    assert_eq!(eval("0 || 5"), Ok(Constant::Integer(1)));
    assert_eq!(eval("2 && 0"), Ok(Constant::Integer(0)));
    assert_eq!(eval("3 <= 2"), Ok(Constant::Integer(0)));
}

#[test]
fn eval_not() {
    let e = Expression::Not(Box::new(Expression::Constant(Constant::Integer(0))));
    assert_eq!(e.eval_constant(&EvalContextSimple::default()).unwrap(), Constant::Integer(1));
    let e = Expression::Not(Box::new(Expression::Constant(Constant::Integer(4))));
    assert_eq!(e.eval_constant(&EvalContextSimple::default()).unwrap(), Constant::Integer(0));
}

#[test]
fn eval_booleans_are_integers() {
    assert_eq!(eval("true"), Ok(Constant::Integer(1)));
    assert_eq!(eval("false == 0"), Ok(Constant::Integer(1)));
}

#[test]
fn eval_defined() {
    let mut ctx = EvalContextSimple::default();
    ctx.variables.push(("X".to_string(), Constant::Bool(true)));
    let v: Vec<char> = "defined(X)".chars().collect();
    let e = expression(&v, 0).unwrap().0;
    assert_eq!(e.eval_constant(&ctx).unwrap(), Constant::Integer(1));
    let v: Vec<char> = "defined(Y)".chars().collect();
    let e = expression(&v, 0).unwrap().0;
    assert_eq!(e.eval_constant(&ctx).unwrap(), Constant::Integer(0));
    let v: Vec<char> = "X + 1".chars().collect();
    let e = expression(&v, 0).unwrap().0;
    assert_eq!(e.eval_constant(&ctx).unwrap(), Constant::Integer(2));
}

#[test]
fn eval_errors() {
    assert_eq!(eval("a[1]").unwrap_err(), "bracket syntax is not supported in constant expression");
    assert_eq!(eval("a.b").unwrap_err(), "dot syntax is not supported in constant expression");
    assert_eq!(eval("f(1)").unwrap_err(), "function call syntax is not supported in constant expression");
    assert_eq!(eval("1 ^ 2").unwrap_err(), "Operation not supported");
    assert_eq!(eval("a = 1").unwrap_err(), "Not supported operator");
    assert_eq!(eval("1.0 + 1").unwrap_err(), "float arithmetic is not supported in constant expression");
}

#[test]
fn render_constants() {
    assert_eq!(RenderQueue::Opaque.value(), 1000);
    assert_eq!(RenderQueue::Skybox.value(), 2000);
    assert_eq!(RenderQueue::Transparent.value(), 3000);
    assert_eq!(RenderQueue::UI.value(), 5000);
    assert_eq!(ShaderAttrib::Bitangent.value(), 4);
    assert_eq!(DepthTest::default(), DepthTest::Less);
    let m = MaterialState::default();
    assert!(m.cull.is_none() && m.alpha_blending.is_none() && m.depth_write.is_none() && m.depth_test.is_none());
}

#[test]
fn gl_constants() {
    assert_eq!(GLShaderKind::Fragment.value(), 0x8B30);
    assert_eq!(BufferKind::ElementArray.value(), 0x8893);
    assert_eq!(Primitives::Triangles.value(), 0x0004);
}

#[test]
fn gl_error_reports() {
    assert_eq!(gl_error_text(0x0500), "invalid enum");
    assert_eq!(gl_error_text(7), "unknown error");
    assert_eq!(gl_error_message("draw", 0x0502), "GLError: draw 1282 (invalid operation)");
}

#[test]
fn app_config_defaults() {
    let c = AppConfig::new("demo".to_string(), (640, 480));
    assert_eq!(c.title, "demo");
    assert_eq!(c.size, (640, 480));
    assert!(c.vsync && c.show_cursor);
}

#[test]
fn key_events_describe() {
    let d = KeyDownEvent { code: "KeyA".to_string(), shift: true, alt: false, ctrl: true };
    assert_eq!(d.describe(), "shift  ctrl KeyA");
    let u = KeyUpEvent { code: "Space".to_string(), shift: false, alt: true, ctrl: false };
    assert_eq!(u.describe(), " alt  Space");
}

#[test]
fn shader_code_has_version_prefix() {
    let c = PreprocessedShaderCode::new(ShaderKind::Vertex, "a.glsl", "#define N 2\nx = N;\n").unwrap();
    assert_eq!(c.as_string(), "#version 150\n x = 2 ; \n");
    let s: Shader<ShaderKindFs> = Shader::new("b.glsl", "y;\n");
    assert_eq!(s.filename, "b.glsl");
    assert_eq!(s.code.as_string(), "#version 150\n y ; \n");
    let v: Shader<ShaderKindVs> = Shader::from_preprocessed("c.glsl", c);
    assert_eq!(v.code.as_string(), "#version 150\n x = 2 ; \n");
}

#[test]
fn program_caches_locations() {
    let enabled = std::cell::RefCell::new(Vec::new());
    let mut st = ShaderProgramGLState::new(
        WebGLProgram(1),
        |s: &str| if s == "aVertexPosition" { 0 } else if s == "aVertexNormal" { 1 } else { 2 },
        |c: u32| enabled.borrow_mut().push(c),
        |s: &str| WebGLUniformLocation { reference: 7, name: s.to_string() },
    );
    assert_eq!(st.prog, WebGLProgram(1));
    assert_eq!(*enabled.borrow(), vec![0, 1, 2]);
    assert_eq!(st.coord_map.len(), 3);
    assert_eq!(st.get_coord("aVertexPosition", || 9), 0);
    assert_eq!(st.get_coord("aVertexNormal", || 9), 1);
    assert_eq!(st.get_coord("aTextureCoord", || 9), 2);
    let sampler = st.get_uniform("uSampler", || WebGLUniformLocation { reference: 8, name: String::new() });
    assert_eq!(sampler.reference, 7);
    assert_eq!(sampler.name, "uSampler");
    assert_eq!(st.get_coord("pos", || 5), 5);
    assert_eq!(st.get_coord("pos", || 9), 5);
    assert_eq!(st.get_coord("uv", || 9), 9);
    let u = st.get_uniform("m", || WebGLUniformLocation { reference: 3, name: "m".to_string() });
    assert_eq!(u.reference, 3);
    let u2 = st.get_uniform("m", || WebGLUniformLocation { reference: 4, name: "m".to_string() });
    assert_eq!(u2.reference, 3);
}

#[test]
fn preprocessed_vertex_shader_parses() {
    let src = "#ifdef GL_ES\nprecision mediump float;\n#endif\nattribute vec3 aPos;\nuniform mat4 uMVP;\nvoid main(void) {\n  gl_Position = uMVP * vec4(aPos, 1.0);\n}\n";
    let predefs = vec![("GL_ES".to_string(), String::new())];
    let pre = preprocess(src, &predefs).unwrap();
    let unit = parse(&pre).unwrap();
    assert_eq!(unit.func_defs.len(), 1);
    assert_eq!(unit.func_defs[0].0.name, "main");
    assert_eq!(unit.decls.len(), 3);
}

#[test]
fn sound_bookkeeping() {
    use_sound();
}

fn use_sound() {
    let mut snd: SoundSystem<u32> = SoundSystem::new();
    let (a, start_a) = snd.load_sound("a.wav");
    assert_eq!(a, SoundHandle(0));
    assert!(start_a);
    let (a2, start_a2) = snd.load_sound("a.wav");
    assert_eq!(a2, a);
    assert!(!start_a2);
    let (b, start_b) = snd.load_sound("b.wav");
    assert_eq!(b, SoundHandle(1));
    assert!(start_b);

    // a is still loading: the request waits.
    assert!(snd.play_sound(PlayRequest { id: a, settings: 7 }).is_none());
    snd.finish_loading(b);
    // b is loaded: the request comes back to be sent at once.
    let now = snd.play_sound(PlayRequest { id: b, settings: 8 }).unwrap();
    assert_eq!(now.settings, 8);
    assert!(snd.step().is_empty());
    snd.finish_loading(a);
    let sent = snd.step();
    assert_eq!(sent.len(), 1);
    assert_eq!(sent[0].id, a);
    assert_eq!(sent[0].settings, 7);
    assert!(snd.pending_play.is_empty());
}

#[test]
fn sound_handles_count_new_files() {
    let mut snd: SoundSystem<u32> = SoundSystem::new();
    let paths = ["x.wav", "y.wav", "x.wav", "z.wav", "y.wav", "w.wav"];
    let expected = [0, 1, 0, 2, 1, 3];
    for (p, e) in paths.iter().zip(expected.iter()) {
        assert_eq!(snd.load_sound(p).0, SoundHandle(*e));
    }
    assert_eq!(snd.next_handle, 4);
    assert_eq!(snd.cache.len(), 4);
}

#[test]
fn loading_files_are_listed_in_order() {
    let mut fs = AppFileSystem::new();
    fs.start_loading("b.png");
    fs.start_loading("a.png");
    fs.start_loading("b.png");
    fs.start_loading("ab.png");
    assert_eq!(fs.loading_files(), vec!["a.png".to_string(), "ab.png".to_string(), "b.png".to_string()]);
    fs.finish_loading("a.png");
    fs.finish_loading("c.png");
    assert_eq!(fs.loading_files(), vec!["ab.png".to_string(), "b.png".to_string()]);
}

#[test]
fn gl_handles_give_their_references() {
    use_handles();
}

fn use_handles() {
    let c = unrust::webgl::GLContext { reference: 9 };
    assert_eq!(c.into_reference(), 9);
    let r = unrust::webgl::WebGLRenderingContext { common: unrust::webgl::GLContext { reference: 4 } };
    assert_eq!(r.context().reference, 4);
    assert_eq!(unrust::webgl::WebGLBuffer(3).reference(), 3);
    assert_eq!(unrust::webgl::WebGLTexture(5).reference(), 5);
}

#[test]
fn sound_channel_choice() {
    let busy = vec![(false, 5), (false, 1), (false, 3)];
    // The requested channel is taken as it is.
    assert_eq!(choose_channel(&busy, 0, Some(2), 0), (Some(2), 0));
    // A free channel is taken first.
    let one_free = vec![(false, 5), (true, 0), (true, 0)];
    assert_eq!(choose_channel(&one_free, 2, None, 0), (Some(1), 1));
    // Else the round starts after the last channel chosen.
    assert_eq!(choose_channel(&busy, 0, None, 2), (Some(1), 1));
    let low_first = vec![(false, 1), (false, 9), (false, 9)];
    assert_eq!(choose_channel(&low_first, 2, None, 2), (Some(0), 0));
    // Every sound playing has a higher priority: the sound is skipped.
    assert_eq!(choose_channel(&busy, 0, None, 0), (None, 0));
    assert_eq!(choose_channel(&busy, 1, None, 3), (Some(2), 2));
}

#[test]
fn watcher_starts_new_actors_before_stepping() {
    let mut w = WatchStep::new(vec![10, 11], vec![1, 2]);
    assert_eq!(w.next_action(), WatchAction::Start(10));
    // Starting 10 registers 12: it is started in the next batch.
    w.register(12);
    assert_eq!(w.next_action(), WatchAction::Start(11));
    assert_eq!(w.next_action(), WatchAction::Start(12));
    assert_eq!(w.actors, vec![1, 2, 10, 11]);
    assert_eq!(w.next_action(), WatchAction::CheckAlive);
    assert_eq!(w.actors, vec![1, 2, 10, 11, 12]);
    assert_eq!(w.phase, WatchPhase::Checking);
    assert_eq!(w.next_action(), WatchAction::CheckAlive);
    w.set_alive(&vec![true, false, true, true, false]);
    assert_eq!(w.next_action(), WatchAction::Step(1));
    // A step may register an actor: it waits for the next frame.
    w.register(13);
    assert_eq!(w.next_action(), WatchAction::Step(10));
    assert_eq!(w.next_action(), WatchAction::Step(11));
    assert_eq!(w.next_action(), WatchAction::Done);
    assert_eq!(w.next_action(), WatchAction::Done);
    assert_eq!(w.new_actors, vec![13]);
}
