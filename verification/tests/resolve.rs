use cptb::id_map::IdMap;
use cptb::kit::{resolve, resolve_default, ResolvedKit};
use cptb::settings::{
    CMakeEntry, CompilerEntry, CptbSettings, KitEntry, KitsFileStructure, Settings,
};

fn compiler(name: &str, path: &str) -> CompilerEntry {
    CompilerEntry { name: name.to_string(), path: path.to_string() }
}

fn cmake(name: &str, path: &str, generator: Option<&str>) -> CMakeEntry {
    CMakeEntry {
        name: name.to_string(),
        path: path.to_string(),
        generator: generator.map(|g| g.to_string()),
    }
}

fn kit(name: &str, compiler: &str, cmake: &str) -> KitEntry {
    KitEntry { name: name.to_string(), compiler: compiler.to_string(), cmake: cmake.to_string() }
}

fn sample_catalog() -> KitsFileStructure {
    let mut catalog = KitsFileStructure::new();
    catalog.compilers.insert("gcc".to_string(), compiler("GCC", "/gcc/bin"));
    catalog.cmake.insert("cm1".to_string(), cmake("CMake1", "/cmake/bin", Some("Ninja")));
    catalog.cmake.insert("cm2".to_string(), cmake("CMake2", "/cmake2/bin", None));
    catalog.kits.insert("k1".to_string(), kit("Default", "gcc", "cm1"));
    catalog.kits.insert("plain".to_string(), kit("No generator", "gcc", "cm2"));
    catalog.kits.insert("no-compiler".to_string(), kit("Dangling compiler", "clang", "cm1"));
    catalog.kits.insert("no-cmake".to_string(), kit("Dangling CMake", "gcc", "cm9"));
    catalog
}

#[test]
fn new_catalog_is_empty() {
    let catalog = KitsFileStructure::new();
    assert_eq!(catalog.compilers.len(), 0);
    assert_eq!(catalog.cmake.len(), 0);
    assert_eq!(catalog.kits.len(), 0);
    assert_eq!(catalog.toolchain_dir("k1"), None);
}

#[test]
fn resolve_follows_both_references() {
    let catalog = sample_catalog();
    let resolved = resolve(&catalog, "k1");
    assert_eq!(resolved.toolchain_dir(), Some("/gcc/bin".to_string()));
    assert_eq!(resolved.build_tool_dir(), Some("/cmake/bin".to_string()));
    assert_eq!(resolved.build_tool_generator(), Some("Ninja".to_string()));
}

#[test]
fn resolve_keeps_an_undeclared_generator_empty() {
    let catalog = sample_catalog();
    let resolved = resolve(&catalog, "plain");
    assert_eq!(resolved.toolchain_dir(), Some("/gcc/bin".to_string()));
    assert_eq!(resolved.build_tool_dir(), Some("/cmake2/bin".to_string()));
    assert_eq!(resolved.build_tool_generator(), None);
}

#[test]
fn resolve_unknown_kit_gives_nothing() {
    let catalog = sample_catalog();
    let resolved = resolve(&catalog, "missing");
    assert_eq!(resolved.toolchain_dir(), None);
    assert_eq!(resolved.build_tool_dir(), None);
    assert_eq!(resolved.build_tool_generator(), None);
}

#[test]
fn resolve_tolerates_a_dangling_compiler() {
    let catalog = sample_catalog();
    let resolved = resolve(&catalog, "no-compiler");
    assert_eq!(resolved.toolchain_dir(), None);
    assert_eq!(resolved.build_tool_dir(), Some("/cmake/bin".to_string()));
    assert_eq!(resolved.build_tool_generator(), Some("Ninja".to_string()));
}

#[test]
fn resolve_tolerates_a_dangling_cmake() {
    let catalog = sample_catalog();
    let resolved = resolve(&catalog, "no-cmake");
    assert_eq!(resolved.toolchain_dir(), Some("/gcc/bin".to_string()));
    assert_eq!(resolved.build_tool_dir(), None);
    assert_eq!(resolved.build_tool_generator(), None);
}

#[test]
fn resolve_default_uses_the_selection() {
    let catalog = sample_catalog();
    let selection = CptbSettings { default_kit: "k1".to_string() };
    let resolved = resolve_default(&catalog, &selection);
    assert_eq!(resolved.toolchain_dir(), Some("/gcc/bin".to_string()));
    assert_eq!(resolved.build_tool_dir(), Some("/cmake/bin".to_string()));
    assert_eq!(resolved.build_tool_generator(), Some("Ninja".to_string()));
}

#[test]
fn resolve_default_of_an_unknown_selection_gives_nothing() {
    let catalog = sample_catalog();
    let selection = CptbSettings { default_kit: "k2".to_string() };
    let resolved = resolve_default(&catalog, &selection);
    assert_eq!(resolved.toolchain_dir(), None);
    assert_eq!(resolved.build_tool_dir(), None);
    assert_eq!(resolved.build_tool_generator(), None);
}

#[test]
fn resolved_kit_hands_its_parts_back() {
    let resolved = ResolvedKit::new(
        Some("/t".to_string()),
        Some("/b".to_string()),
        Some("Unix Makefiles".to_string()),
    );
    assert_eq!(resolved.toolchain_dir(), Some("/t".to_string()));
    assert_eq!(resolved.build_tool_dir(), Some("/b".to_string()));
    assert_eq!(resolved.build_tool_generator(), Some("Unix Makefiles".to_string()));
}

#[test]
fn catalog_lookups_by_kit() {
    let catalog = sample_catalog();
    assert_eq!(catalog.cmake_dir("k1"), Some("/cmake/bin".to_string()));
    assert_eq!(catalog.cmake_generator("k1"), Some("Ninja".to_string()));
    assert_eq!(catalog.cmake_generator("plain"), None);
    assert_eq!(catalog.toolchain_dir("k1"), Some("/gcc/bin".to_string()));
    assert_eq!(catalog.cmake_dir("no-cmake"), None);
    assert_eq!(catalog.toolchain_dir("no-compiler"), None);
}

#[test]
fn settings_default_accessors() {
    let settings = Settings { kits: sample_catalog(), default_kit: "k1".to_string() };
    assert_eq!(settings.default_cmake_dir(), Some("/cmake/bin".to_string()));
    assert_eq!(settings.default_cmake_generator(), Some("Ninja".to_string()));
    assert_eq!(settings.default_toolchain_dir(), Some("/gcc/bin".to_string()));
}

#[test]
fn settings_default_accessors_of_an_unknown_kit() {
    let settings = Settings { kits: sample_catalog(), default_kit: "nope".to_string() };
    assert_eq!(settings.default_cmake_dir(), None);
    assert_eq!(settings.default_cmake_generator(), None);
    assert_eq!(settings.default_toolchain_dir(), None);
}

#[test]
fn id_map_starts_empty() {
    let map: IdMap<CompilerEntry> = IdMap::new();
    assert_eq!(map.len(), 0);
    assert!(!map.contains_key("gcc"));
    assert!(map.get("gcc").is_none());
}

#[test]
fn id_map_keeps_first_insertion_order() {
    let mut map: IdMap<CompilerEntry> = IdMap::new();
    map.insert("b".to_string(), compiler("B", "/b"));
    map.insert("a".to_string(), compiler("A", "/a"));
    map.insert("b".to_string(), compiler("B2", "/b2"));
    assert_eq!(map.len(), 2);
    assert_eq!(map.entry_at(0).0, "b");
    assert_eq!(map.entry_at(0).1.path, "/b2");
    assert_eq!(map.entry_at(1).0, "a");
    assert!(map.contains_key("a"));
    assert!(!map.contains_key("c"));
    assert_eq!(map.get("a").map(|c| c.name.as_str()), Some("A"));
    assert_eq!(map.get("b").map(|c| c.name.as_str()), Some("B2"));
}

#[test]
fn id_map_tells_ids_apart_exactly() {
    let mut map: IdMap<CompilerEntry> = IdMap::new();
    map.insert("gcc".to_string(), compiler("GCC", "/gcc"));
    assert!(!map.contains_key("gc"));
    assert!(!map.contains_key("gcc "));
    assert!(!map.contains_key("GCC"));
    assert!(!map.contains_key(""));
}
