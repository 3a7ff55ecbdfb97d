use crate::settings::CatalogView;
use crate::settings::KitsFileStructure;
use vstd::prelude::*;
use vstd::string::StringExecFns;

verus! {

/// The lines that open the listing.
pub open spec fn header_lines() -> Seq<Seq<char>> {
    seq!["Configured toolchains:"@, ""@]
}

/// The lines on the compiler that a kit names: its identifier, then its name
/// and path, or one line that says that the catalog does not hold it.
pub open spec fn compiler_lines(catalog: CatalogView, compiler_id: Seq<char>) -> Seq<Seq<char>> {
    seq!["    Compiler"@ + " ("@ + compiler_id + ")"@] + (if catalog.compilers.contains_key(
        compiler_id,
    ) {
        seq![
            "        Name: "@ + catalog.compilers[compiler_id].name,
            "        Path: "@ + catalog.compilers[compiler_id].path,
        ]
    } else {
        seq!["        No compiler with this id is configured"@]
    })
}

/// The lines on the CMake installation that a kit names: its identifier,
/// then its name and path, or one line that says that the catalog does not
/// hold it.
pub open spec fn cmake_lines(catalog: CatalogView, cmake_id: Seq<char>) -> Seq<Seq<char>> {
    seq!["    CMake"@ + " ("@ + cmake_id + ")"@] + (if catalog.cmake.contains_key(cmake_id) {
        seq![
            "        Name: "@ + catalog.cmake[cmake_id].name,
            "        Path: "@ + catalog.cmake[cmake_id].path,
        ]
    } else {
        seq!["        No CMake with this id is configured"@]
    })
}

/// The lines on one kit of the catalog: its name and identifier, its
/// compiler, its CMake installation, and an empty line.
pub open spec fn kit_lines(catalog: CatalogView, kit_id: Seq<char>) -> Seq<Seq<char>> {
    seq![catalog.kits[kit_id].name + " ("@ + kit_id + ")"@] + compiler_lines(
        catalog,
        catalog.kits[kit_id].compiler,
    ) + cmake_lines(catalog, catalog.kits[kit_id].cmake) + seq![""@]
}

/// The listing of the kits `kit_ids`, in their order, below the header.
pub open spec fn listing_lines(catalog: CatalogView, kit_ids: Seq<Seq<char>>) -> Seq<Seq<char>>
    decreases kit_ids.len(),
{
    if kit_ids.len() == 0 {
        header_lines()
    } else {
        listing_lines(catalog, kit_ids.drop_last()) + kit_lines(catalog, kit_ids.last())
    }
}

/// Two pieces of text in a row.
fn joined(first: &str, second: &str) -> (text: String)
    ensures
        text@ == first@ + second@,
{
    let mut text = first.to_owned();
    text.append(second);
    text
}

/// A piece of text between round brackets, behind a label.
fn labelled(label: &str, text: &str) -> (line: String)
    ensures
        line@ == label@ + " ("@ + text@ + ")"@,
{
    let mut line = label.to_owned();
    line.append(" (");
    line.append(text);
    line.append(")");
    line
}

/// Adds the lines on the compiler `compiler_id` to `lines`.
fn push_compiler_lines(lines: &mut Vec<String>, catalog: &KitsFileStructure, compiler_id: &str)
    ensures
        final(lines).deep_view() == old(lines).deep_view() + compiler_lines(
            catalog@,
            compiler_id@,
        ),
{
    let ghost before = lines.deep_view();
    lines.push(labelled("    Compiler", compiler_id));
    match catalog.compilers.get(compiler_id) {
        Some(compiler) => {
            lines.push(joined("        Name: ", compiler.name.as_str()));
            lines.push(joined("        Path: ", compiler.path.as_str()));
        },
        None => {
            lines.push("        No compiler with this id is configured".to_owned());
        },
    }
    assert(lines.deep_view() =~= before + compiler_lines(catalog@, compiler_id@));
}

/// Adds the lines on the CMake installation `cmake_id` to `lines`.
fn push_cmake_lines(lines: &mut Vec<String>, catalog: &KitsFileStructure, cmake_id: &str)
    ensures
        final(lines).deep_view() == old(lines).deep_view() + cmake_lines(catalog@, cmake_id@),
{
    let ghost before = lines.deep_view();
    lines.push(labelled("    CMake", cmake_id));
    match catalog.cmake.get(cmake_id) {
        Some(cmake) => {
            lines.push(joined("        Name: ", cmake.name.as_str()));
            lines.push(joined("        Path: ", cmake.path.as_str()));
        },
        None => {
            lines.push("        No CMake with this id is configured".to_owned());
        },
    }
    assert(lines.deep_view() =~= before + cmake_lines(catalog@, cmake_id@));
}

/// Adds the lines on the kit `kit_id` to `lines`.
fn push_kit_lines(lines: &mut Vec<String>, catalog: &KitsFileStructure, kit_id: &str)
    requires
        catalog@.kits.contains_key(kit_id@),
    ensures
        final(lines).deep_view() == old(lines).deep_view() + kit_lines(catalog@, kit_id@),
{
    let ghost before = lines.deep_view();
    if let Some(kit) = catalog.kits.get(kit_id) {
        lines.push(labelled(kit.name.as_str(), kit_id));
        let ghost title = seq![catalog@.kits[kit_id@].name + " ("@ + kit_id@ + ")"@];
        let ghost compiler = compiler_lines(catalog@, catalog@.kits[kit_id@].compiler);
        let ghost cmake = cmake_lines(catalog@, catalog@.kits[kit_id@].cmake);
        assert(lines.deep_view() =~= before + title);
        push_compiler_lines(lines, catalog, kit.compiler.as_str());
        push_cmake_lines(lines, catalog, kit.cmake.as_str());
        lines.push("".to_owned());
        assert(lines.deep_view() =~= before + title + compiler + cmake + seq![""@]);
    }
}

/// Lists every kit of the catalog with the compiler and the CMake
/// installation that it names, as the lines to print. The kits come in the
/// order in which the catalog holds them. A kit that names an entry which
/// the catalog lacks is listed like the others, with a line that says so.
pub fn toolchain_list(catalog: &KitsFileStructure) -> (lines: Vec<String>)
    ensures
        lines.deep_view() == listing_lines(catalog@, catalog.kits.ids()),
{
    let mut lines: Vec<String> = Vec::new();
    lines.push("Configured toolchains:".to_owned());
    lines.push("".to_owned());
    let count: usize = catalog.kits.len();
    let mut i: usize = 0;
    while i < count
        invariant
            i <= count,
            count == catalog.kits.ids().len(),
            lines.deep_view() == listing_lines(catalog@, catalog.kits.ids().take(i as int)),
        decreases count - i,
    {
        let (kit_id, _) = catalog.kits.entry_at(i);
        push_kit_lines(&mut lines, catalog, kit_id.as_str());
        proof {
            let listed = catalog.kits.ids().take(i as int + 1);
            assert(listed.drop_last() =~= catalog.kits.ids().take(i as int));
        }
        i += 1;
    }
    assert(catalog.kits.ids().take(count as int) =~= catalog.kits.ids());
    lines
}

} // verus!
