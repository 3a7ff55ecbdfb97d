use crate::error::CptbError;
use crate::id_map::IdMap;
use vstd::prelude::*;

verus! {

/// A CMake installation and the generator it uses by default.
#[derive(Debug)]
pub struct CMakeEntry {
    pub name: String,
    pub path: String,
    pub generator: Option<String>,
}

/// What a `CMakeEntry` holds, as plain text.
pub struct CMakeEntryView {
    pub name: Seq<char>,
    pub path: Seq<char>,
    pub generator: Option<Seq<char>>,
}

impl View for CMakeEntry {
    type V = CMakeEntryView;

    open spec fn view(&self) -> CMakeEntryView {
        CMakeEntryView {
            name: self.name@,
            path: self.path@,
            generator: self.generator.deep_view(),
        }
    }
}

/// A compiler installation.
#[derive(Debug)]
pub struct CompilerEntry {
    pub name: String,
    pub path: String,
}

/// What a `CompilerEntry` holds, as plain text.
pub struct CompilerEntryView {
    pub name: Seq<char>,
    pub path: Seq<char>,
}

impl View for CompilerEntry {
    type V = CompilerEntryView;

    open spec fn view(&self) -> CompilerEntryView {
        CompilerEntryView { name: self.name@, path: self.path@ }
    }
}

/// A named pairing of a compiler and a CMake installation, each given by its
/// identifier in the catalog.
#[derive(Debug)]
pub struct KitEntry {
    pub name: String,
    pub compiler: String,
    pub cmake: String,
}

/// What a `KitEntry` holds, as plain text.
pub struct KitEntryView {
    pub name: Seq<char>,
    pub compiler: Seq<char>,
    pub cmake: Seq<char>,
}

impl View for KitEntry {
    type V = KitEntryView;

    open spec fn view(&self) -> KitEntryView {
        KitEntryView { name: self.name@, compiler: self.compiler@, cmake: self.cmake@ }
    }
}

/// The catalog: every known compiler, CMake installation and kit, by identifier.
#[derive(Debug)]
pub struct KitsFileStructure {
    pub compilers: IdMap<CompilerEntry>,
    pub cmake: IdMap<CMakeEntry>,
    pub kits: IdMap<KitEntry>,
}

/// The catalog as three mathematical maps.
pub struct CatalogView {
    pub compilers: Map<Seq<char>, CompilerEntryView>,
    pub cmake: Map<Seq<char>, CMakeEntryView>,
    pub kits: Map<Seq<char>, KitEntryView>,
}

impl View for KitsFileStructure {
    type V = CatalogView;

    open spec fn view(&self) -> CatalogView {
        CatalogView { compilers: self.compilers@, cmake: self.cmake@, kits: self.kits@ }
    }
}

impl CatalogView {
    /// The kit `kit_id` exists and names a compiler of the catalog.
    pub open spec fn has_compiler_of(self, kit_id: Seq<char>) -> bool {
        self.kits.contains_key(kit_id) && self.compilers.contains_key(self.kits[kit_id].compiler)
    }

    /// The kit `kit_id` exists and names a CMake installation of the catalog.
    pub open spec fn has_cmake_of(self, kit_id: Seq<char>) -> bool {
        self.kits.contains_key(kit_id) && self.cmake.contains_key(self.kits[kit_id].cmake)
    }

    /// The path of the compiler that the kit names, where both exist.
    pub open spec fn toolchain_dir(self, kit_id: Seq<char>) -> Option<Seq<char>> {
        if self.has_compiler_of(kit_id) {
            Some(self.compilers[self.kits[kit_id].compiler].path)
        } else {
            None
        }
    }

    /// The path of the CMake installation that the kit names, where both exist.
    pub open spec fn cmake_dir(self, kit_id: Seq<char>) -> Option<Seq<char>> {
        if self.has_cmake_of(kit_id) {
            Some(self.cmake[self.kits[kit_id].cmake].path)
        } else {
            None
        }
    }

    /// The generator of the CMake installation that the kit names, where both
    /// exist and the installation declares one.
    pub open spec fn cmake_generator(self, kit_id: Seq<char>) -> Option<Seq<char>> {
        if self.has_cmake_of(kit_id) {
            self.cmake[self.kits[kit_id].cmake].generator
        } else {
            None
        }
    }
}

impl KitsFileStructure {
    /// A catalog without entries.
    pub fn new() -> (catalog: KitsFileStructure)
        ensures
            catalog@.compilers == Map::<Seq<char>, CompilerEntryView>::empty(),
            catalog@.cmake == Map::<Seq<char>, CMakeEntryView>::empty(),
            catalog@.kits == Map::<Seq<char>, KitEntryView>::empty(),
            catalog.compilers.ids() == Seq::<Seq<char>>::empty(),
            catalog.cmake.ids() == Seq::<Seq<char>>::empty(),
            catalog.kits.ids() == Seq::<Seq<char>>::empty(),
    {
        KitsFileStructure { compilers: IdMap::new(), cmake: IdMap::new(), kits: IdMap::new() }
    }

    /// The directory of the CMake installation that the kit `kit_id` names.
    pub fn cmake_dir(&self, kit_id: &str) -> (dir: Option<String>)
        ensures
            dir.deep_view() == self@.cmake_dir(kit_id@),
    {
        let kit = self.kits.get(kit_id)?;
        let cmake_entry = self.cmake.get(kit.cmake.as_str())?;
        Some(cmake_entry.path.clone())
    }

    /// The generator of the CMake installation that the kit `kit_id` names.
    pub fn cmake_generator(&self, kit_id: &str) -> (generator: Option<String>)
        ensures
            generator.deep_view() == self@.cmake_generator(kit_id@),
    {
        let kit = self.kits.get(kit_id)?;
        let cmake_entry = self.cmake.get(kit.cmake.as_str())?;
        match &cmake_entry.generator {
            Some(generator) => Some(generator.clone()),
            None => None,
        }
    }

    /// The directory of the compiler that the kit `kit_id` names.
    pub fn toolchain_dir(&self, kit_id: &str) -> (dir: Option<String>)
        ensures
            dir.deep_view() == self@.toolchain_dir(kit_id@),
    {
        let kit = self.kits.get(kit_id)?;
        let compiler_entry = self.compilers.get(kit.compiler.as_str())?;
        Some(compiler_entry.path.clone())
    }
}

/// The selection document: which kit is active unless another is asked for.
#[derive(Debug)]
pub struct CptbSettings {
    pub default_kit: String,
}

/// The catalog together with the identifier of the active kit.
#[derive(Debug)]
pub struct Settings {
    pub kits: KitsFileStructure,
    pub default_kit: String,
}

/// `Settings` as a catalog of maps and the active kit's identifier.
pub struct SettingsView {
    pub kits: CatalogView,
    pub default_kit: Seq<char>,
}

impl View for Settings {
    type V = SettingsView;

    open spec fn view(&self) -> SettingsView {
        SettingsView { kits: self.kits@, default_kit: self.default_kit@ }
    }
}

/// The two documents of a settings directory.
#[derive(Clone, Copy, PartialEq, Eq, Structural, Debug)]
pub enum SettingsDocument {
    /// The catalog of compilers, CMake installations and kits.
    Kits,
    /// The selection of the active kit.
    Selection,
}

impl SettingsDocument {
    /// The name of the document's file inside the settings directory.
    pub open spec fn file_name_spec(self) -> Seq<char> {
        match self {
            SettingsDocument::Kits => "kits.json"@,
            SettingsDocument::Selection => "settings.json"@,
        }
    }

    /// The name of the document's file inside the settings directory.
    pub fn file_name(self) -> (name: &'static str)
        ensures
            name@ == self.file_name_spec(),
    {
        match self {
            SettingsDocument::Kits => "kits.json",
            SettingsDocument::Selection => "settings.json",
        }
    }
}

/// A settings document that could not be loaded, and why.
#[derive(Debug)]
pub struct LoadError {
    pub document: SettingsDocument,
    pub cause: CptbError,
}

impl Settings {
    /// Puts the two documents of a settings directory together, each given as
    /// the outcome of loading it. Where both failed to load, the catalog is
    /// the one that is reported.
    pub fn from_path(
        kits: Result<KitsFileStructure, CptbError>,
        selection: Result<CptbSettings, CptbError>,
    ) -> (settings: Result<Settings, LoadError>)
        ensures
            match (kits, selection) {
                (Err(cause), _) => settings == Err::<Settings, LoadError>(
                    LoadError { document: SettingsDocument::Kits, cause },
                ),
                (Ok(_), Err(cause)) => settings == Err::<Settings, LoadError>(
                    LoadError { document: SettingsDocument::Selection, cause },
                ),
                (Ok(catalog), Ok(chosen)) => settings == Ok::<Settings, LoadError>(
                    Settings { kits: catalog, default_kit: chosen.default_kit },
                ),
            },
    {
        let catalog = match kits {
            Ok(catalog) => catalog,
            Err(cause) => return Err(LoadError { document: SettingsDocument::Kits, cause }),
        };
        let chosen = match selection {
            Ok(chosen) => chosen,
            Err(cause) => return Err(
                LoadError { document: SettingsDocument::Selection, cause },
            ),
        };
        Ok(Settings { kits: catalog, default_kit: chosen.default_kit })
    }

    /// The directory of the CMake installation of the active kit.
    pub fn default_cmake_dir(&self) -> (dir: Option<String>)
        ensures
            dir.deep_view() == self@.kits.cmake_dir(self@.default_kit),
    {
        self.kits.cmake_dir(self.default_kit.as_str())
    }

    /// The generator of the CMake installation of the active kit.
    pub fn default_cmake_generator(&self) -> (generator: Option<String>)
        ensures
            generator.deep_view() == self@.kits.cmake_generator(self@.default_kit),
    {
        self.kits.cmake_generator(self.default_kit.as_str())
    }

    /// The directory of the compiler of the active kit.
    pub fn default_toolchain_dir(&self) -> (dir: Option<String>)
        ensures
            dir.deep_view() == self@.kits.toolchain_dir(self@.default_kit),
    {
        self.kits.toolchain_dir(self.default_kit.as_str())
    }
}

} // verus!
