use horus::launch::{plan, Launch, CREATE_FLAG, WINDOW_SIDE, WINDOW_TITLE};

fn args(words: &[&str]) -> Vec<String> {
    words.iter().map(|w| w.to_string()).collect()
}

#[test]
fn no_argument_runs_the_default_shader() {
    assert_eq!(plan(&args(&[])), Launch::RunDefault);
}

#[test]
fn a_path_runs_that_shader() {
    assert_eq!(
        plan(&args(&["waves.wgsl"])),
        Launch::RunFile { path: "waves.wgsl".to_string() }
    );
    assert_eq!(
        plan(&args(&["shaders/fire.wgsl", "ignored"])),
        Launch::RunFile { path: "shaders/fire.wgsl".to_string() }
    );
}

#[test]
fn create_flag_with_a_name() {
    assert_eq!(CREATE_FLAG, "-c");
    assert_eq!(
        plan(&args(&["-c", "waves"])),
        Launch::CreateShader { file_name: "waves.wgsl".to_string() }
    );
}

#[test]
fn create_flag_without_a_name() {
    assert_eq!(
        plan(&args(&["-c"])),
        Launch::CreateShader { file_name: "fragment.wgsl".to_string() }
    );
}

#[test]
fn the_flag_is_matched_exactly() {
    assert_eq!(
        plan(&args(&["arc-check.wgsl"])),
        Launch::RunFile { path: "arc-check.wgsl".to_string() }
    );
    assert_eq!(plan(&args(&["-create"])), Launch::RunFile { path: "-create".to_string() });
    assert_eq!(plan(&args(&["--c"])), Launch::RunFile { path: "--c".to_string() });
    assert_eq!(plan(&args(&[""])), Launch::RunFile { path: String::new() });
}

#[test]
fn each_launch_is_announced() {
    assert_eq!(plan(&args(&["-c", "waves"])).announcement(), "[Horus] Created waves.wgsl");
    assert_eq!(plan(&args(&["-c"])).announcement(), "[Horus] Created fragment.wgsl");
    assert_eq!(plan(&args(&["fire.wgsl"])).announcement(), "[Horus] Running fire.wgsl");
    assert_eq!(
        plan(&args(&[])).announcement(),
        "[Horus] Use \"-c filename\" to create a new shader\n[Horus] Pass in an existing shader to run it"
    );
}

#[test]
fn the_window_opens_square() {
    assert_eq!(WINDOW_TITLE, "Horus");
    assert_eq!(WINDOW_SIDE, 700);
}
