use crate::environment::build_args_spec;
use crate::environment::build_build_args;
use crate::environment::build_generate_args;
use crate::environment::build_search_path;
use crate::environment::generate_args_spec;
use crate::environment::search_path_spec;
use crate::environment::KitError;
use crate::environment::Platform;
use crate::kit::resolve;
use crate::kit::resolve_spec;
use crate::kit::ResolvedKit;
use crate::kit::ResolvedKitView;
use crate::settings::Settings;
use vstd::prelude::*;

verus! {

/// One run of the build tool: what to start, with which arguments, and the
/// search path to start it under.
#[derive(Debug)]
pub struct Invocation {
    pub program: String,
    pub arguments: Vec<String>,
    pub path_variable: String,
}

/// An `Invocation` as plain text.
pub struct InvocationView {
    pub program: Seq<char>,
    pub arguments: Seq<Seq<char>>,
    pub path_variable: Seq<char>,
}

impl View for Invocation {
    type V = InvocationView;

    open spec fn view(&self) -> InvocationView {
        InvocationView {
            program: self.program@,
            arguments: self.arguments.deep_view(),
            path_variable: self.path_variable@,
        }
    }
}

/// The environment of a kit, ready for the runs of CMake: the generator to
/// name, if any, and the search path to run under.
#[derive(Debug)]
pub struct CmakeBuilder {
    generator: Option<String>,
    path_variable: String,
}

/// A `CmakeBuilder` as plain text.
pub struct CmakeBuilderView {
    pub generator: Option<Seq<char>>,
    pub path_variable: Seq<char>,
}

impl View for CmakeBuilder {
    type V = CmakeBuilderView;

    closed spec fn view(&self) -> CmakeBuilderView {
        CmakeBuilderView {
            generator: self.generator.deep_view(),
            path_variable: self.path_variable@,
        }
    }
}

/// The builder for a resolved kit: the kit's generator and its search path,
/// or the part of the kit that is missing.
pub open spec fn builder_spec(
    kit: ResolvedKitView,
    inherited_path: Seq<char>,
    platform: Platform,
) -> Result<CmakeBuilderView, KitError> {
    match search_path_spec(kit, inherited_path, platform) {
        Ok(path) => Ok(
            CmakeBuilderView { generator: kit.build_tool_generator, path_variable: path },
        ),
        Err(error) => Err(error),
    }
}

/// Whether `builder` is what `builder_spec` gives.
pub open spec fn is_builder(
    builder: Result<CmakeBuilder, KitError>,
    kit: ResolvedKitView,
    inherited_path: Seq<char>,
    platform: Platform,
) -> bool {
    match builder {
        Ok(made) => builder_spec(kit, inherited_path, platform) == Ok::<
            CmakeBuilderView,
            KitError,
        >(made@),
        Err(error) => builder_spec(kit, inherited_path, platform) == Err::<
            CmakeBuilderView,
            KitError,
        >(error),
    }
}

impl CmakeBuilder {
    /// The builder for a kit that is resolved already.
    pub fn from_resolved_kit(kit: &ResolvedKit, inherited_path: &str, platform: Platform) -> (builder:
        Result<CmakeBuilder, KitError>)
        ensures
            is_builder(builder, kit@, inherited_path@, platform),
    {
        match build_search_path(kit, inherited_path, platform) {
            Ok(path_variable) => Ok(
                CmakeBuilder { generator: kit.build_tool_generator(), path_variable },
            ),
            Err(error) => Err(error),
        }
    }

    /// The builder for the active kit of `settings`.
    pub fn from_settings(settings: &Settings, inherited_path: &str, platform: Platform) -> (builder:
        Result<CmakeBuilder, KitError>)
        ensures
            is_builder(
                builder,
                resolve_spec(settings@.kits, settings@.default_kit),
                inherited_path@,
                platform,
            ),
    {
        CmakeBuilder::from_toolchain(
            settings,
            settings.default_kit.as_str(),
            inherited_path,
            platform,
        )
    }

    /// The builder for the kit `toolchain_id` of `settings`. A kit that is
    /// unknown, or whose compiler or CMake installation is, is refused with
    /// the directory that could not be resolved.
    pub fn from_toolchain(
        settings: &Settings,
        toolchain_id: &str,
        inherited_path: &str,
        platform: Platform,
    ) -> (builder: Result<CmakeBuilder, KitError>)
        ensures
            is_builder(
                builder,
                resolve_spec(settings@.kits, toolchain_id@),
                inherited_path@,
                platform,
            ),
    {
        let kit = resolve(&settings.kits, toolchain_id);
        CmakeBuilder::from_resolved_kit(&kit, inherited_path, platform)
    }

    /// The run that generates the build system of `source_dir` in `build_dir`.
    pub fn generate(&self, source_dir: &str, build_dir: &str, debug_build: bool) -> (run:
        Invocation)
        ensures
            run@ == (InvocationView {
                program: "cmake"@,
                arguments: generate_args_spec(
                    source_dir@,
                    build_dir@,
                    self@.generator,
                    debug_build,
                ),
                path_variable: self@.path_variable,
            }),
    {
        let generator = match &self.generator {
            Some(name) => Some(name.as_str()),
            None => None,
        };
        Invocation {
            program: "cmake".to_owned(),
            arguments: build_generate_args(source_dir, build_dir, generator, debug_build),
            path_variable: self.path_variable.clone(),
        }
    }

    /// The run that builds what was generated in `build_dir`.
    pub fn build(&self, build_dir: &str) -> (run: Invocation)
        ensures
            run@ == (InvocationView {
                program: "cmake"@,
                arguments: build_args_spec(build_dir@),
                path_variable: self@.path_variable,
            }),
    {
        Invocation {
            program: "cmake".to_owned(),
            arguments: build_build_args(build_dir),
            path_variable: self.path_variable.clone(),
        }
    }
}

} // verus!
