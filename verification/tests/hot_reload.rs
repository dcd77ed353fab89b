use raybox::hot_reload::builder::{web_build_result, BuildMode, BuildResult, Builder};
use raybox::hot_reload::shader_loader::{ShaderCompileResult, ShaderLoader};
use raybox::hot_reload::state::{restore_overlay_mode, save_overlay_mode, OverlayModeState};
use raybox::hot_reload::watcher::{
    changed_shaders, debounce_changes, dedup_changes, has_rust_changes, has_shader_changes, FileChange,
    WatcherConfig,
};
use raybox::input::OverlayMode;

#[test]
fn overlay_mode_survives_a_reload() {
    for mode in [OverlayMode::Off, OverlayMode::App, OverlayMode::Full] {
        assert_eq!(restore_overlay_mode(save_overlay_mode(mode)), mode);
    }
    assert_eq!(save_overlay_mode(OverlayMode::App), OverlayModeState::App);
    assert_eq!(OverlayMode::from(OverlayModeState::Full), OverlayMode::Full);
}

#[test]
fn file_changes_are_classified_by_extension() {
    assert!(matches!(FileChange::from_path("src/main.rs"), Some(FileChange::RustSource(p)) if p == "src/main.rs"));
    assert!(matches!(FileChange::from_path("shaders/sdf.slang"), Some(FileChange::Shader(_))));
    assert!(matches!(FileChange::from_path("shaders/sdf.wgsl"), Some(FileChange::Shader(_))));
    assert!(FileChange::from_path("README.md").is_none());
    assert!(FileChange::from_path("Makefile").is_none());
}

#[test]
fn changes_are_deduplicated_and_summarized() {
    let changes = vec![
        FileChange::Shader("shaders/a.slang".to_string()),
        FileChange::RustSource("src/lib.rs".to_string()),
        FileChange::Shader("shaders/a.slang".to_string()),
        FileChange::Shader("shaders/b.wgsl".to_string()),
    ];
    let unique = dedup_changes(&changes);
    let paths: Vec<&str> = unique.iter().map(|c| c.path()).collect();
    assert_eq!(paths, vec!["shaders/a.slang", "src/lib.rs", "shaders/b.wgsl"]);
    assert!(has_rust_changes(&unique));
    assert!(has_shader_changes(&unique));
    assert_eq!(changed_shaders(&unique), vec!["a".to_string(), "b".to_string()]);
    assert!(!has_rust_changes(&vec![FileChange::Shader("x.wgsl".to_string())]));
}

#[test]
fn changes_wait_for_the_debounce_interval() {
    let changes = vec![FileChange::Shader("a.wgsl".to_string()), FileChange::Shader("a.wgsl".to_string())];
    let (early, reset) = debounce_changes(&changes, 100, 500);
    assert!(early.is_empty());
    assert!(!reset);
    let (ready, reset) = debounce_changes(&changes, 600, 500);
    assert_eq!(ready.len(), 1);
    assert!(reset);
    let config = WatcherConfig::standard();
    assert_eq!(config.watch_paths, vec!["src".to_string(), "shaders".to_string()]);
    assert_eq!(config.debounce_ms, 500);
}

#[test]
fn build_commands_match_the_mode() {
    let builder = Builder::new(".");
    let native = builder.build_command(BuildMode::Native);
    assert_eq!(native.program, "cargo");
    assert_eq!(native.args, vec!["build", "--bin", "demos", "--features", "windowed,overlay"]);
    assert!(native.rustflags.is_none());
    let web = builder.build_command(BuildMode::Web);
    assert_eq!(web.args, vec!["build", "--lib", "--target", "wasm32-unknown-unknown", "--release"]);
    assert_eq!(web.rustflags.as_deref(), Some("--cfg=web_sys_unstable_apis"));
    assert_eq!(builder.wasm_bindgen_command().program, "wasm-bindgen");
    assert_eq!(builder.shader_compile_command().args, vec!["build", "--lib"]);
}

#[test]
fn web_build_joins_both_steps() {
    let ok = |out: &str, ms| BuildResult { success: true, stdout: out.to_string(), stderr: String::new(), duration_ms: ms };
    let joined = web_build_result(ok("cargo", 10), BuildResult { success: false, ..ok("bindgen", 5) });
    assert!(!joined.success);
    assert_eq!(joined.stdout, "cargo\nbindgen");
    assert_eq!(joined.stderr, "\n");
    assert_eq!(joined.duration_ms, 15);
    let failed = BuildResult::failed_to_run("Failed to run build command: ", "no cargo", 3);
    let kept = web_build_result(failed, ok("bindgen", 5));
    assert!(!kept.success);
    assert_eq!(kept.stderr, "Failed to run build command: no cargo");
    assert_eq!(kept.duration_ms, 3);
}

#[test]
fn shader_paths_and_outcomes() {
    let loader = ShaderLoader::new("shaders");
    assert_eq!(loader.input_path("sdf"), "shaders/sdf.slang");
    assert_eq!(ShaderLoader::output_path("sdf"), "/tmp/sdf.wgsl");
    let args = loader.slangc_args("sdf");
    assert_eq!(args[0], "shaders/sdf.slang");
    assert_eq!(args[6], "/tmp/sdf.wgsl");
    assert_eq!(args[10], "fs_main");
    assert_eq!(ShaderCompileResult::compiled("code".to_string()).into_wgsl(), Ok("code".to_string()));
    assert_eq!(
        ShaderCompileResult::source_not_found("shaders/x.slang").into_wgsl(),
        Err("Shader source not found: shaders/x.slang".to_string())
    );
    let silent = ShaderCompileResult { success: false, wgsl_source: None, error: None };
    assert_eq!(silent.into_wgsl(), Err("Unknown compilation error".to_string()));
    let empty = ShaderCompileResult { success: true, wgsl_source: None, error: None };
    assert_eq!(empty.into_wgsl(), Err("No WGSL source produced".to_string()));
    assert_eq!(
        ShaderCompileResult::compile_failed("bad").into_wgsl(),
        Err("Shader compilation failed:\nbad".to_string())
    );
}
