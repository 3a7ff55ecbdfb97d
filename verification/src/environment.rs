use crate::kit::ResolvedKit;
use crate::kit::ResolvedKitView;
use vstd::prelude::*;
use vstd::string::StringExecFns;

verus! {

/// The two families of platforms that differ in how a search path is written
/// and in how an interactive shell is started.
#[derive(Clone, Copy, PartialEq, Eq, Structural, Debug)]
pub enum Platform {
    Windows,
    Unix,
}

impl Platform {
    /// The text that separates the directories of a search path.
    pub open spec fn path_separator_spec(self) -> Seq<char> {
        match self {
            Platform::Windows => ";"@,
            Platform::Unix => ":"@,
        }
    }

    /// The text that separates the directories of a search path.
    pub fn path_separator(self) -> (separator: &'static str)
        ensures
            separator@ == self.path_separator_spec(),
    {
        match self {
            Platform::Windows => ";",
            Platform::Unix => ":",
        }
    }

    /// The environment variable that holds the shell's prompt.
    pub open spec fn prompt_variable_spec(self) -> Seq<char> {
        match self {
            Platform::Windows => "PROMPT"@,
            Platform::Unix => "PS1"@,
        }
    }

    /// The environment variable that holds the shell's prompt.
    pub fn prompt_variable(self) -> (name: &'static str)
        ensures
            name@ == self.prompt_variable_spec(),
    {
        match self {
            Platform::Windows => "PROMPT",
            Platform::Unix => "PS1",
        }
    }

    /// The prompt of a shell whose prompt variable is not set.
    pub open spec fn default_prompt_spec(self) -> Seq<char> {
        match self {
            Platform::Windows => "$P$G"@,
            Platform::Unix => "> "@,
        }
    }

    /// The prompt of a shell whose prompt variable is not set.
    pub fn default_prompt(self) -> (prompt: &'static str)
        ensures
            prompt@ == self.default_prompt_spec(),
    {
        match self {
            Platform::Windows => "$P$G",
            Platform::Unix => "> ",
        }
    }

    /// The shell to start where the user has not named one.
    pub open spec fn default_shell_spec(self) -> Seq<char> {
        match self {
            Platform::Windows => "cmd"@,
            Platform::Unix => "/bin/sh"@,
        }
    }

    /// The shell to start where the user has not named one.
    pub fn default_shell(self) -> (shell: &'static str)
        ensures
            shell@ == self.default_shell_spec(),
    {
        match self {
            Platform::Windows => "cmd",
            Platform::Unix => "/bin/sh",
        }
    }
}

/// A part of a resolved kit that a build cannot do without and that was not
/// resolved.
#[derive(Clone, Copy, PartialEq, Eq, Structural, Debug)]
pub enum KitError {
    ToolchainDirRequired,
    CmakeDirRequired,
}

impl KitError {
    /// The message for the user.
    pub open spec fn message_spec(self) -> Seq<char> {
        match self {
            KitError::ToolchainDirRequired => "A toolchain dir is required"@,
            KitError::CmakeDirRequired => "A cmake dir is required"@,
        }
    }

    /// The message for the user.
    pub fn message(self) -> (text: &'static str)
        ensures
            text@ == self.message_spec(),
    {
        match self {
            KitError::ToolchainDirRequired => "A toolchain dir is required",
            KitError::CmakeDirRequired => "A cmake dir is required",
        }
    }
}

/// The three parts of a search path in their order, with the platform's
/// separator between them.
pub open spec fn joined_path(
    build_tool_dir: Seq<char>,
    toolchain_dir: Seq<char>,
    inherited_path: Seq<char>,
    platform: Platform,
) -> Seq<char> {
    build_tool_dir + platform.path_separator_spec() + toolchain_dir
        + platform.path_separator_spec() + inherited_path
}

/// The search path for a build with `kit`: the CMake directory, the toolchain
/// directory and the inherited path, in this order. Without a toolchain
/// directory, or else without a CMake directory, there is no such path.
pub open spec fn search_path_spec(
    kit: ResolvedKitView,
    inherited_path: Seq<char>,
    platform: Platform,
) -> Result<Seq<char>, KitError> {
    match (kit.toolchain_dir, kit.build_tool_dir) {
        (None, _) => Err(KitError::ToolchainDirRequired),
        (Some(_), None) => Err(KitError::CmakeDirRequired),
        (Some(toolchain_dir), Some(build_tool_dir)) => Ok(
            joined_path(build_tool_dir, toolchain_dir, inherited_path, platform),
        ),
    }
}

/// Whether `path` is what `search_path_spec` gives, text for text.
pub open spec fn is_search_path(
    path: Result<String, KitError>,
    kit: ResolvedKitView,
    inherited_path: Seq<char>,
    platform: Platform,
) -> bool {
    match path {
        Ok(text) => search_path_spec(kit, inherited_path, platform) == Ok::<Seq<char>, KitError>(
            text@,
        ),
        Err(error) => search_path_spec(kit, inherited_path, platform) == Err::<
            Seq<char>,
            KitError,
        >(error),
    }
}

/// Builds the search path under which the build tool of `kit` is run: its own
/// directory shadows the toolchain's, which shadows what was inherited. A kit
/// without a toolchain directory or without a CMake directory is refused.
pub fn build_search_path(kit: &ResolvedKit, inherited_path: &str, platform: Platform) -> (path:
    Result<String, KitError>)
    ensures
        is_search_path(path, kit@, inherited_path@, platform),
        kit@.toolchain_dir is None <==> path == Err::<String, KitError>(
            KitError::ToolchainDirRequired,
        ),
        kit@.toolchain_dir is Some && kit@.build_tool_dir is None <==> path == Err::<
            String,
            KitError,
        >(KitError::CmakeDirRequired),
        kit@.toolchain_dir is Some && kit@.build_tool_dir is Some <==> path is Ok,
{
    let toolchain_dir = match kit.toolchain_dir() {
        Some(dir) => dir,
        None => return Err(KitError::ToolchainDirRequired),
    };
    let mut path = match kit.build_tool_dir() {
        Some(dir) => dir,
        None => return Err(KitError::CmakeDirRequired),
    };
    path.append(platform.path_separator());
    path.append(toolchain_dir.as_str());
    path.append(platform.path_separator());
    path.append(inherited_path);
    Ok(path)
}

/// With both directories resolved, the search path starts with the CMake
/// directory, goes on with the toolchain directory and ends with the
/// inherited path, and the platform's separator stands between them.
pub proof fn lemma_search_path_order(
    kit: ResolvedKitView,
    inherited_path: Seq<char>,
    platform: Platform,
)
    requires
        kit.toolchain_dir is Some,
        kit.build_tool_dir is Some,
    ensures
        search_path_spec(kit, inherited_path, platform) == Ok::<Seq<char>, KitError>(
            kit.build_tool_dir->0 + platform.path_separator_spec() + kit.toolchain_dir->0
                + platform.path_separator_spec() + inherited_path,
        ),
        (kit.build_tool_dir->0).is_prefix_of(search_path_spec(kit, inherited_path, platform)->Ok_0),
        inherited_path.is_suffix_of(search_path_spec(kit, inherited_path, platform)->Ok_0),
{
    let separator = platform.path_separator_spec();
    let build_tool_dir = kit.build_tool_dir->0;
    let toolchain_dir = kit.toolchain_dir->0;
    let path = joined_path(build_tool_dir, toolchain_dir, inherited_path, platform);
    assert(path == build_tool_dir + (separator + toolchain_dir + separator + inherited_path));
    assert(path.subrange(0, build_tool_dir.len() as int) =~= build_tool_dir);
    assert(path.subrange(path.len() - inherited_path.len(), path.len() as int)
        =~= inherited_path);
}

/// Two search paths built from the same kit, inherited path and platform are
/// the same text, or the same refusal.
pub proof fn lemma_search_path_repeatable(
    kit: ResolvedKitView,
    inherited_path: Seq<char>,
    platform: Platform,
    first: Result<String, KitError>,
    second: Result<String, KitError>,
)
    requires
        is_search_path(first, kit, inherited_path, platform),
        is_search_path(second, kit, inherited_path, platform),
    ensures
        first is Ok <==> second is Ok,
        first is Ok ==> first->Ok_0@ == second->Ok_0@,
        first is Err ==> first->Err_0 == second->Err_0,
{
}

/// The arguments of the generate step: the source and the build directory,
/// then the generator if one is configured, then the debug configuration if
/// it is asked for.
pub open spec fn generate_args_spec(
    source_dir: Seq<char>,
    build_dir: Seq<char>,
    generator: Option<Seq<char>>,
    debug_build: bool,
) -> Seq<Seq<char>> {
    seq!["-S"@, source_dir, "-B"@, build_dir] + (match generator {
        Some(name) => seq!["-G"@, name],
        None => Seq::empty(),
    }) + (if debug_build {
        seq!["-D"@, "CMAKE_BUILD_TYPE=Debug"@]
    } else {
        Seq::empty()
    })
}

/// Builds the arguments of the generate step. No generator is named unless
/// one is given: the build tool then picks its own.
pub fn build_generate_args(
    source_dir: &str,
    build_dir: &str,
    generator: Option<&str>,
    debug_build: bool,
) -> (args: Vec<String>)
    ensures
        args.deep_view() == generate_args_spec(
            source_dir@,
            build_dir@,
            generator.deep_view(),
            debug_build,
        ),
{
    let mut args: Vec<String> = Vec::new();
    args.push("-S".to_owned());
    args.push(source_dir.to_owned());
    args.push("-B".to_owned());
    args.push(build_dir.to_owned());
    if let Some(name) = generator {
        args.push("-G".to_owned());
        args.push(name.to_owned());
    }
    if debug_build {
        args.push("-D".to_owned());
        args.push("CMAKE_BUILD_TYPE=Debug".to_owned());
    }
    args
}

/// Without a generator and without the debug configuration, the arguments
/// are the source and the build directory with their flags, and nothing else.
pub proof fn lemma_generate_args_plain(source_dir: Seq<char>, build_dir: Seq<char>)
    ensures
        generate_args_spec(source_dir, build_dir, None, false) == seq![
            "-S"@,
            source_dir,
            "-B"@,
            build_dir,
        ],
{
}

/// With a generator and the debug configuration, the arguments are the
/// source and the build directory, then the generator, then the debug
/// configuration, each behind its flag.
pub proof fn lemma_generate_args_full(
    source_dir: Seq<char>,
    build_dir: Seq<char>,
    generator: Seq<char>,
)
    ensures
        generate_args_spec(source_dir, build_dir, Some(generator), true) == seq![
            "-S"@,
            source_dir,
            "-B"@,
            build_dir,
            "-G"@,
            generator,
            "-D"@,
            "CMAKE_BUILD_TYPE=Debug"@,
        ],
{
}

/// The arguments of the build step.
pub open spec fn build_args_spec(build_dir: Seq<char>) -> Seq<Seq<char>> {
    seq!["--build"@, build_dir]
}

/// Builds the arguments of the build step.
pub fn build_build_args(build_dir: &str) -> (args: Vec<String>)
    ensures
        args.deep_view() == build_args_spec(build_dir@),
{
    let mut args: Vec<String> = Vec::new();
    args.push("--build".to_owned());
    args.push(build_dir.to_owned());
    args
}

/// The directory, below the project's root, that a build is generated into.
pub open spec fn build_dir_name_spec(debug_build: bool) -> Seq<char> {
    if debug_build {
        "build-debug"@
    } else {
        "build"@
    }
}

/// The build directory for the requested configuration.
pub fn build_dir_name(debug_build: bool) -> (dir: &'static str)
    ensures
        dir@ == build_dir_name_spec(debug_build),
{
    if debug_build {
        "build-debug"
    } else {
        "build"
    }
}

/// How to start an interactive shell that sees the build environment.
#[derive(Debug)]
pub struct ShellLaunch {
    /// The shell to run.
    pub program: String,
    /// The value of the search path inside the shell.
    pub path_variable: String,
    /// The name of the variable that holds the prompt.
    pub prompt_variable: String,
    /// The prompt inside the shell.
    pub prompt: String,
}

/// A `ShellLaunch` as plain text.
pub struct ShellLaunchView {
    pub program: Seq<char>,
    pub path_variable: Seq<char>,
    pub prompt_variable: Seq<char>,
    pub prompt: Seq<char>,
}

impl View for ShellLaunch {
    type V = ShellLaunchView;

    open spec fn view(&self) -> ShellLaunchView {
        ShellLaunchView {
            program: self.program@,
            path_variable: self.path_variable@,
            prompt_variable: self.prompt_variable@,
            prompt: self.prompt@,
        }
    }
}

/// The prompt inside the build shell: the mark of the build environment
/// before the prompt that was in use, or before the platform's own.
pub open spec fn build_prompt_spec(platform: Platform, current_prompt: Option<Seq<char>>) -> Seq<
    char,
> {
    "(cptb build) "@ + (match current_prompt {
        Some(prompt) => prompt,
        None => platform.default_prompt_spec(),
    })
}

/// The shell that is started: on Windows always the command interpreter,
/// elsewhere the user's shell, or the platform's own where none is named.
pub open spec fn shell_program_spec(platform: Platform, user_shell: Option<Seq<char>>) -> Seq<
    char,
> {
    match (platform, user_shell) {
        (Platform::Unix, Some(shell)) => shell,
        _ => platform.default_shell_spec(),
    }
}

/// The launch of an interactive shell for `kit`, or the part of the kit that
/// is missing for it.
pub open spec fn shell_launch_spec(
    kit: ResolvedKitView,
    platform: Platform,
    inherited_path: Seq<char>,
    current_prompt: Option<Seq<char>>,
    user_shell: Option<Seq<char>>,
) -> Result<ShellLaunchView, KitError> {
    match search_path_spec(kit, inherited_path, platform) {
        Ok(path) => Ok(
            ShellLaunchView {
                program: shell_program_spec(platform, user_shell),
                path_variable: path,
                prompt_variable: platform.prompt_variable_spec(),
                prompt: build_prompt_spec(platform, current_prompt),
            },
        ),
        Err(error) => Err(error),
    }
}

/// Prepares the launch of an interactive shell in which the build tool and
/// the toolchain of `kit` are found first. `current_prompt` is the value of
/// the platform's prompt variable and `user_shell` the shell that the user
/// has chosen, each where it is set.
pub fn build_shell_launch(
    kit: &ResolvedKit,
    platform: Platform,
    inherited_path: &str,
    current_prompt: Option<&str>,
    user_shell: Option<&str>,
) -> (launch: Result<ShellLaunch, KitError>)
    ensures
        match launch {
            Ok(shell) => shell_launch_spec(
                kit@,
                platform,
                inherited_path@,
                current_prompt.deep_view(),
                user_shell.deep_view(),
            ) == Ok::<ShellLaunchView, KitError>(shell@),
            Err(error) => shell_launch_spec(
                kit@,
                platform,
                inherited_path@,
                current_prompt.deep_view(),
                user_shell.deep_view(),
            ) == Err::<ShellLaunchView, KitError>(error),
        },
{
    let path_variable = match build_search_path(kit, inherited_path, platform) {
        Ok(path) => path,
        Err(error) => return Err(error),
    };
    let mut prompt = "(cptb build) ".to_owned();
    match current_prompt {
        Some(current) => prompt.append(current),
        None => prompt.append(platform.default_prompt()),
    }
    let program = match (platform, user_shell) {
        (Platform::Unix, Some(shell)) => shell.to_owned(),
        _ => platform.default_shell().to_owned(),
    };
    Ok(
        ShellLaunch {
            program,
            path_variable,
            prompt_variable: platform.prompt_variable().to_owned(),
            prompt,
        },
    )
}

} // verus!
