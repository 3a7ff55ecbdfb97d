use crate::settings::CatalogView;
use crate::settings::CptbSettings;
use crate::settings::KitsFileStructure;
use vstd::prelude::*;

verus! {

/// What a kit comes to once its two references are followed into the catalog.
/// A reference that leads nowhere leaves its part empty.
#[derive(Debug)]
pub struct ResolvedKit {
    toolchain_dir: Option<String>,
    build_tool_dir: Option<String>,
    build_tool_generator: Option<String>,
}

/// A resolved kit as plain text.
pub struct ResolvedKitView {
    pub toolchain_dir: Option<Seq<char>>,
    pub build_tool_dir: Option<Seq<char>>,
    pub build_tool_generator: Option<Seq<char>>,
}

impl View for ResolvedKit {
    type V = ResolvedKitView;

    closed spec fn view(&self) -> ResolvedKitView {
        ResolvedKitView {
            toolchain_dir: self.toolchain_dir.deep_view(),
            build_tool_dir: self.build_tool_dir.deep_view(),
            build_tool_generator: self.build_tool_generator.deep_view(),
        }
    }
}

/// The resolution of `kit_id` against `catalog`: the path of the compiler the
/// kit names, the path of the CMake installation it names, and that
/// installation's generator, each where the kit and the entry exist.
pub open spec fn resolve_spec(catalog: CatalogView, kit_id: Seq<char>) -> ResolvedKitView {
    ResolvedKitView {
        toolchain_dir: catalog.toolchain_dir(kit_id),
        build_tool_dir: catalog.cmake_dir(kit_id),
        build_tool_generator: catalog.cmake_generator(kit_id),
    }
}

impl ResolvedKitView {
    /// Nothing was resolved.
    pub open spec fn is_empty(self) -> bool {
        self.toolchain_dir is None && self.build_tool_dir is None && self.build_tool_generator
            is None
    }
}

impl ResolvedKit {
    /// A resolved kit made of the given parts.
    pub fn new(
        toolchain_dir: Option<String>,
        build_tool_dir: Option<String>,
        build_tool_generator: Option<String>,
    ) -> (kit: ResolvedKit)
        ensures
            kit@ == (ResolvedKitView {
                toolchain_dir: toolchain_dir.deep_view(),
                build_tool_dir: build_tool_dir.deep_view(),
                build_tool_generator: build_tool_generator.deep_view(),
            }),
    {
        ResolvedKit { toolchain_dir, build_tool_dir, build_tool_generator }
    }

    /// The directory of the kit's compiler, if the kit and the compiler exist.
    pub fn toolchain_dir(&self) -> (dir: Option<String>)
        ensures
            dir.deep_view() == self@.toolchain_dir,
    {
        match &self.toolchain_dir {
            Some(dir) => Some(dir.clone()),
            None => None,
        }
    }

    /// The directory of the kit's CMake installation, if the kit and the
    /// installation exist.
    pub fn build_tool_dir(&self) -> (dir: Option<String>)
        ensures
            dir.deep_view() == self@.build_tool_dir,
    {
        match &self.build_tool_dir {
            Some(dir) => Some(dir.clone()),
            None => None,
        }
    }

    /// The generator that the kit's CMake installation declares, if any.
    pub fn build_tool_generator(&self) -> (generator: Option<String>)
        ensures
            generator.deep_view() == self@.build_tool_generator,
    {
        match &self.build_tool_generator {
            Some(generator) => Some(generator.clone()),
            None => None,
        }
    }
}

/// Resolves the kit `kit_id` against the catalog. A kit or an entry that is
/// missing is no error here: the part that depends on it is left empty.
pub fn resolve(catalog: &KitsFileStructure, kit_id: &str) -> (kit: ResolvedKit)
    ensures
        kit@ == resolve_spec(catalog@, kit_id@),
        catalog@.has_compiler_of(kit_id@) ==> kit@.toolchain_dir is Some,
        catalog@.has_cmake_of(kit_id@) ==> kit@.build_tool_dir is Some,
        !catalog@.kits.contains_key(kit_id@) ==> kit@.is_empty(),
{
    ResolvedKit {
        toolchain_dir: catalog.toolchain_dir(kit_id),
        build_tool_dir: catalog.cmake_dir(kit_id),
        build_tool_generator: catalog.cmake_generator(kit_id),
    }
}

/// Resolves the kit that the selection names.
pub fn resolve_default(catalog: &KitsFileStructure, selection: &CptbSettings) -> (kit: ResolvedKit)
    ensures
        kit@ == resolve_spec(catalog@, selection.default_kit@),
{
    resolve(catalog, selection.default_kit.as_str())
}

/// A kit whose compiler and CMake installation are both in the catalog
/// resolves to both directories, and to the generator exactly as the
/// installation declares it.
pub proof fn lemma_resolve_complete_kit(catalog: CatalogView, kit_id: Seq<char>)
    requires
        catalog.kits.contains_key(kit_id),
        catalog.compilers.contains_key(catalog.kits[kit_id].compiler),
        catalog.cmake.contains_key(catalog.kits[kit_id].cmake),
    ensures
        resolve_spec(catalog, kit_id).toolchain_dir == Some(
            catalog.compilers[catalog.kits[kit_id].compiler].path,
        ),
        resolve_spec(catalog, kit_id).build_tool_dir == Some(
            catalog.cmake[catalog.kits[kit_id].cmake].path,
        ),
        resolve_spec(catalog, kit_id).build_tool_generator
            == catalog.cmake[catalog.kits[kit_id].cmake].generator,
{
}

/// A kit that the catalog does not hold resolves to nothing at all.
pub proof fn lemma_resolve_unknown_kit(catalog: CatalogView, kit_id: Seq<char>)
    requires
        !catalog.kits.contains_key(kit_id),
    ensures
        resolve_spec(catalog, kit_id).is_empty(),
{
}

} // verus!
