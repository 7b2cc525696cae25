use bindgen_install::invoke::{
    wasm_artifact_path, wasm_bindgen_build, wasm_bindgen_build_outcome, BuildRequest, InvokeError,
};

fn build_request(target: &str, debug: bool, disable_dts: bool) -> BuildRequest {
    BuildRequest {
        target_directory: String::from("/project/target"),
        crate_name: String::from("demo"),
        out_dir: String::from("/project/pkg"),
        disable_dts,
        target: String::from(target),
        debug,
    }
}

#[test]
fn artifact_path_follows_profile() {
    let release = build_request("browser", false, false);
    assert_eq!(
        wasm_artifact_path(&release),
        "/project/target/wasm32-unknown-unknown/release/demo.wasm"
    );
    let debug = build_request("browser", true, false);
    assert_eq!(
        wasm_artifact_path(&debug),
        "/project/target/wasm32-unknown-unknown/debug/demo.wasm"
    );
}

#[test]
fn argument_list_is_exact_for_release() {
    let req = build_request("browser", false, false);
    let invocation = wasm_bindgen_build("/cache/wasm-bindgen-0.2.74", true, &req).unwrap();
    assert_eq!(invocation.program, "/cache/wasm-bindgen-0.2.74/wasm-bindgen");
    assert_eq!(
        invocation.args,
        [
            "/project/target/wasm32-unknown-unknown/release/demo.wasm",
            "--out-dir",
            "/project/pkg",
            "--typescript",
            "--browser",
        ]
    );
}

#[test]
fn debug_appends_the_debug_flag() {
    let req = build_request("browser", true, true);
    let invocation = wasm_bindgen_build("/cache/wasm-bindgen-0.2.74", true, &req).unwrap();
    assert_eq!(
        invocation.args,
        [
            "/project/target/wasm32-unknown-unknown/debug/demo.wasm",
            "--out-dir",
            "/project/pkg",
            "--no-typescript",
            "--browser",
            "--debug",
        ]
    );
}

#[test]
fn nodejs_target_mode_selects_nodejs_flag() {
    let req = build_request("nodejs", false, false);
    let invocation = wasm_bindgen_build("/handle", true, &req).unwrap();
    assert!(invocation.args.contains(&String::from("--nodejs")));
    assert!(!invocation.args.contains(&String::from("--browser")));
}

#[test]
fn no_modules_target_mode_selects_no_modules_flag() {
    let req = build_request("no-modules", false, false);
    let invocation = wasm_bindgen_build("/handle", true, &req).unwrap();
    assert!(invocation.args.contains(&String::from("--no-modules")));
}

#[test]
fn unrecognized_target_mode_falls_back_to_browser() {
    for mode in ["web", "nodejs ", "NodeJS", ""] {
        let req = build_request(mode, false, false);
        let invocation = wasm_bindgen_build("/handle", true, &req).unwrap();
        assert!(invocation.args.contains(&String::from("--browser")));
    }
}

#[test]
fn missing_binary_fails_before_any_spawn() {
    let req = build_request("browser", false, false);
    let result = wasm_bindgen_build("/empty-handle", false, &req);
    assert!(matches!(result, Err(InvokeError::ToolNotFoundInHandle)));
}

#[test]
fn successful_run_is_ok() {
    assert!(wasm_bindgen_build_outcome(true, String::new()).is_ok());
}

#[test]
fn failed_run_carries_the_diagnostic() {
    let result = wasm_bindgen_build_outcome(false, String::from("exit status 1"));
    match result {
        Err(InvokeError::ToolInvocationFailed { diagnostic }) => {
            assert_eq!(diagnostic, "exit status 1");
        }
        _ => panic!("expected the invocation failure to surface"),
    }
}
