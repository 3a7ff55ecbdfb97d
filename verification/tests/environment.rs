use cptb::environment::{
    build_build_args, build_dir_name, build_generate_args, build_search_path, build_shell_launch,
    KitError, Platform,
};
use cptb::kit::ResolvedKit;

fn full_kit() -> ResolvedKit {
    ResolvedKit::new(
        Some("/gcc/bin".to_string()),
        Some("/cmake/bin".to_string()),
        Some("Ninja".to_string()),
    )
}

#[test]
fn search_path_puts_cmake_before_toolchain_before_inherited() {
    let path = build_search_path(&full_kit(), "/usr/bin", Platform::Windows);
    assert_eq!(path, Ok("/cmake/bin;/gcc/bin;/usr/bin".to_string()));
}

#[test]
fn search_path_uses_the_platform_separator() {
    let path = build_search_path(&full_kit(), "/usr/bin", Platform::Unix);
    assert_eq!(path, Ok("/cmake/bin:/gcc/bin:/usr/bin".to_string()));
}

#[test]
fn search_path_keeps_an_empty_inherited_path() {
    let path = build_search_path(&full_kit(), "", Platform::Windows);
    assert_eq!(path, Ok("/cmake/bin;/gcc/bin;".to_string()));
}

#[test]
fn search_path_is_the_same_when_built_twice() {
    let first = build_search_path(&full_kit(), "/usr/bin:/bin", Platform::Unix);
    let second = build_search_path(&full_kit(), "/usr/bin:/bin", Platform::Unix);
    assert_eq!(first, second);
    assert_eq!(first, Ok("/cmake/bin:/gcc/bin:/usr/bin:/bin".to_string()));
}

#[test]
fn search_path_needs_a_toolchain_dir() {
    let kit = ResolvedKit::new(None, Some("/cmake/bin".to_string()), None);
    let path = build_search_path(&kit, "/usr/bin", Platform::Unix);
    assert_eq!(path, Err(KitError::ToolchainDirRequired));
}

#[test]
fn search_path_needs_a_cmake_dir() {
    let kit = ResolvedKit::new(Some("/gcc/bin".to_string()), None, None);
    let path = build_search_path(&kit, "/usr/bin", Platform::Unix);
    assert_eq!(path, Err(KitError::CmakeDirRequired));
}

#[test]
fn search_path_of_nothing_asks_for_the_toolchain_dir() {
    let kit = ResolvedKit::new(None, None, None);
    let path = build_search_path(&kit, "/usr/bin", Platform::Windows);
    assert_eq!(path, Err(KitError::ToolchainDirRequired));
}

#[test]
fn kit_error_messages() {
    assert_eq!(KitError::ToolchainDirRequired.message(), "A toolchain dir is required");
    assert_eq!(KitError::CmakeDirRequired.message(), "A cmake dir is required");
}

#[test]
fn platform_constants() {
    assert_eq!(Platform::Windows.path_separator(), ";");
    assert_eq!(Platform::Unix.path_separator(), ":");
    assert_eq!(Platform::Windows.prompt_variable(), "PROMPT");
    assert_eq!(Platform::Unix.prompt_variable(), "PS1");
    assert_eq!(Platform::Windows.default_prompt(), "$P$G");
    assert_eq!(Platform::Unix.default_prompt(), "> ");
    assert_eq!(Platform::Windows.default_shell(), "cmd");
    assert_eq!(Platform::Unix.default_shell(), "/bin/sh");
}

#[test]
fn generate_args_without_generator_and_debug() {
    let args = build_generate_args(".", "build", None, false);
    assert_eq!(args, vec!["-S", ".", "-B", "build"]);
}

#[test]
fn generate_args_with_generator_and_debug() {
    let args = build_generate_args(".", "build-debug", Some("X"), true);
    assert_eq!(
        args,
        vec!["-S", ".", "-B", "build-debug", "-G", "X", "-D", "CMAKE_BUILD_TYPE=Debug"]
    );
}

#[test]
fn generate_args_with_generator_only() {
    let args = build_generate_args("src", "out", Some("Unix Makefiles"), false);
    assert_eq!(args, vec!["-S", "src", "-B", "out", "-G", "Unix Makefiles"]);
}

#[test]
fn generate_args_with_debug_only() {
    let args = build_generate_args("src", "out", None, true);
    assert_eq!(args, vec!["-S", "src", "-B", "out", "-D", "CMAKE_BUILD_TYPE=Debug"]);
}

#[test]
fn build_args_name_the_build_dir() {
    assert_eq!(build_build_args("build"), vec!["--build", "build"]);
    assert_eq!(build_build_args("build-debug"), vec!["--build", "build-debug"]);
}

#[test]
fn build_dir_follows_the_configuration() {
    assert_eq!(build_dir_name(false), "build");
    assert_eq!(build_dir_name(true), "build-debug");
}

#[test]
fn shell_launch_on_windows() {
    let launch = build_shell_launch(
        &full_kit(),
        Platform::Windows,
        "C:\\Windows",
        Some("$P$G "),
        Some("/bin/zsh"),
    )
    .unwrap();
    assert_eq!(launch.program, "cmd");
    assert_eq!(launch.path_variable, "/cmake/bin;/gcc/bin;C:\\Windows");
    assert_eq!(launch.prompt_variable, "PROMPT");
    assert_eq!(launch.prompt, "(cptb build) $P$G ");
}

#[test]
fn shell_launch_on_windows_without_prompt() {
    let launch =
        build_shell_launch(&full_kit(), Platform::Windows, "C:\\Windows", None, None).unwrap();
    assert_eq!(launch.program, "cmd");
    assert_eq!(launch.prompt, "(cptb build) $P$G");
}

#[test]
fn shell_launch_on_unix() {
    let launch =
        build_shell_launch(&full_kit(), Platform::Unix, "/usr/bin", Some("$ "), Some("/bin/zsh"))
            .unwrap();
    assert_eq!(launch.program, "/bin/zsh");
    assert_eq!(launch.path_variable, "/cmake/bin:/gcc/bin:/usr/bin");
    assert_eq!(launch.prompt_variable, "PS1");
    assert_eq!(launch.prompt, "(cptb build) $ ");
}

#[test]
fn shell_launch_on_unix_with_defaults() {
    let launch = build_shell_launch(&full_kit(), Platform::Unix, "/usr/bin", None, None).unwrap();
    assert_eq!(launch.program, "/bin/sh");
    assert_eq!(launch.prompt, "(cptb build) > ");
}

#[test]
fn shell_launch_needs_both_dirs() {
    let no_toolchain = ResolvedKit::new(None, Some("/cmake/bin".to_string()), None);
    let launch = build_shell_launch(&no_toolchain, Platform::Unix, "/usr/bin", None, None);
    assert_eq!(launch.err(), Some(KitError::ToolchainDirRequired));
    let no_cmake = ResolvedKit::new(Some("/gcc/bin".to_string()), None, None);
    let launch = build_shell_launch(&no_cmake, Platform::Unix, "/usr/bin", None, None);
    assert_eq!(launch.err(), Some(KitError::CmakeDirRequired));
}
