//! The native source builder.
//!
//! When bundling is requested the engine is compiled from a vendored copy
//! of its sources into one statically linkable archive.  The vendored tree
//! is recognized by its version-control metadata directory and fetched on
//! demand — a best-effort step whose failure is tolerated, because the
//! compilation that follows fails loudly if sources are truly missing.  A
//! native configure step then produces the platform-specific generated
//! headers, and the fixed, exhaustive list of compilation units below is
//! compiled with warnings suppressed (the vendored code is not held to the
//! host project's lint standard).  Any missing unit, unresolvable include
//! or compiler error aborts the whole build: this path is fail-fast, with
//! no partial success and no retry.

use vstd::prelude::*;

verus! {

/// The vendored engine source tree, relative to the build working
/// directory.
pub const VENDORED_SOURCE_DIR: &'static str = "libyang";

/// The version-control metadata directory whose presence identifies an
/// already-fetched vendored tree.
pub const VENDORED_TREE_MARKER: &'static str = "libyang/.git";

/// The name of the archive the compiled units are linked into.
pub const ARCHIVE_NAME: &'static str = "yang3";

/// How many compilation units the archive is built from.
pub const N_COMPILATION_UNITS: usize = 76;

/// How many include search paths the compiler is given.
pub const N_INCLUDE_DIRS: usize = 5;

pub open spec fn spec_unit(i: int) -> Seq<char> {
    if i == 0 {
        "libyang/compat/compat.c"@
    } else if i == 1 {
        "libyang/src/context.c"@
    } else if i == 2 {
        "libyang/src/dict.c"@
    } else if i == 3 {
        "libyang/src/diff.c"@
    } else if i == 4 {
        "libyang/src/hash_table.c"@
    } else if i == 5 {
        "libyang/src/in.c"@
    } else if i == 6 {
        "libyang/src/json.c"@
    } else if i == 7 {
        "libyang/src/log.c"@
    } else if i == 8 {
        "libyang/src/lyb.c"@
    } else if i == 9 {
        "libyang/src/ly_common.c"@
    } else if i == 10 {
        "libyang/src/out.c"@
    } else if i == 11 {
        "libyang/src/parser_common.c"@
    } else if i == 12 {
        "libyang/src/parser_json.c"@
    } else if i == 13 {
        "libyang/src/parser_lyb.c"@
    } else if i == 14 {
        "libyang/src/parser_xml.c"@
    } else if i == 15 {
        "libyang/src/parser_yang.c"@
    } else if i == 16 {
        "libyang/src/parser_yin.c"@
    } else if i == 17 {
        "libyang/src/path.c"@
    } else if i == 18 {
        "libyang/src/plugins.c"@
    } else if i == 19 {
        "libyang/src/plugins_exts.c"@
    } else if i == 20 {
        "libyang/src/plugins_exts/metadata.c"@
    } else if i == 21 {
        "libyang/src/plugins_exts/nacm.c"@
    } else if i == 22 {
        "libyang/src/plugins_exts/schema_mount.c"@
    } else if i == 23 {
        "libyang/src/plugins_exts/structure.c"@
    } else if i == 24 {
        "libyang/src/plugins_exts/yangdata.c"@
    } else if i == 25 {
        "libyang/src/plugins_types.c"@
    } else if i == 26 {
        "libyang/src/plugins_types/binary.c"@
    } else if i == 27 {
        "libyang/src/plugins_types/bits.c"@
    } else if i == 28 {
        "libyang/src/plugins_types/boolean.c"@
    } else if i == 29 {
        "libyang/src/plugins_types/date_and_time.c"@
    } else if i == 30 {
        "libyang/src/plugins_types/decimal64.c"@
    } else if i == 31 {
        "libyang/src/plugins_types/empty.c"@
    } else if i == 32 {
        "libyang/src/plugins_types/enumeration.c"@
    } else if i == 33 {
        "libyang/src/plugins_types/hex_string.c"@
    } else if i == 34 {
        "libyang/src/plugins_types/identityref.c"@
    } else if i == 35 {
        "libyang/src/plugins_types/instanceid.c"@
    } else if i == 36 {
        "libyang/src/plugins_types/instanceid_keys.c"@
    } else if i == 37 {
        "libyang/src/plugins_types/integer.c"@
    } else if i == 38 {
        "libyang/src/plugins_types/ipv4_address.c"@
    } else if i == 39 {
        "libyang/src/plugins_types/ipv4_address_no_zone.c"@
    } else if i == 40 {
        "libyang/src/plugins_types/ipv4_prefix.c"@
    } else if i == 41 {
        "libyang/src/plugins_types/ipv6_address.c"@
    } else if i == 42 {
        "libyang/src/plugins_types/ipv6_address_no_zone.c"@
    } else if i == 43 {
        "libyang/src/plugins_types/ipv6_prefix.c"@
    } else if i == 44 {
        "libyang/src/plugins_types/leafref.c"@
    } else if i == 45 {
        "libyang/src/plugins_types/lyds_tree.c"@
    } else if i == 46 {
        "libyang/src/plugins_types/node_instanceid.c"@
    } else if i == 47 {
        "libyang/src/plugins_types/time_period.c"@
    } else if i == 48 {
        "libyang/src/plugins_types/string.c"@
    } else if i == 49 {
        "libyang/src/plugins_types/union.c"@
    } else if i == 50 {
        "libyang/src/plugins_types/xpath1.0.c"@
    } else if i == 51 {
        "libyang/src/printer_data.c"@
    } else if i == 52 {
        "libyang/src/printer_json.c"@
    } else if i == 53 {
        "libyang/src/printer_lyb.c"@
    } else if i == 54 {
        "libyang/src/printer_schema.c"@
    } else if i == 55 {
        "libyang/src/printer_tree.c"@
    } else if i == 56 {
        "libyang/src/printer_xml.c"@
    } else if i == 57 {
        "libyang/src/printer_yang.c"@
    } else if i == 58 {
        "libyang/src/printer_yin.c"@
    } else if i == 59 {
        "libyang/src/schema_compile_amend.c"@
    } else if i == 60 {
        "libyang/src/schema_compile.c"@
    } else if i == 61 {
        "libyang/src/schema_compile_node.c"@
    } else if i == 62 {
        "libyang/src/schema_features.c"@
    } else if i == 63 {
        "libyang/src/set.c"@
    } else if i == 64 {
        "libyang/src/tree_data.c"@
    } else if i == 65 {
        "libyang/src/tree_data_common.c"@
    } else if i == 66 {
        "libyang/src/tree_data_free.c"@
    } else if i == 67 {
        "libyang/src/tree_data_hash.c"@
    } else if i == 68 {
        "libyang/src/tree_data_new.c"@
    } else if i == 69 {
        "libyang/src/tree_data_sorted.c"@
    } else if i == 70 {
        "libyang/src/tree_schema.c"@
    } else if i == 71 {
        "libyang/src/tree_schema_common.c"@
    } else if i == 72 {
        "libyang/src/tree_schema_free.c"@
    } else if i == 73 {
        "libyang/src/validation.c"@
    } else if i == 74 {
        "libyang/src/xml.c"@
    } else if i == 75 {
        "libyang/src/xpath.c"@
    } else {
        Seq::empty()
    }
}

fn unit_name(i: usize) -> (s: &'static str)
    requires
        i < N_COMPILATION_UNITS,
    ensures
        s@ == spec_unit(i as int),
{
    match i {
        0 => "libyang/compat/compat.c",
        1 => "libyang/src/context.c",
        2 => "libyang/src/dict.c",
        3 => "libyang/src/diff.c",
        4 => "libyang/src/hash_table.c",
        5 => "libyang/src/in.c",
        6 => "libyang/src/json.c",
        7 => "libyang/src/log.c",
        8 => "libyang/src/lyb.c",
        9 => "libyang/src/ly_common.c",
        10 => "libyang/src/out.c",
        11 => "libyang/src/parser_common.c",
        12 => "libyang/src/parser_json.c",
        13 => "libyang/src/parser_lyb.c",
        14 => "libyang/src/parser_xml.c",
        15 => "libyang/src/parser_yang.c",
        16 => "libyang/src/parser_yin.c",
        17 => "libyang/src/path.c",
        18 => "libyang/src/plugins.c",
        19 => "libyang/src/plugins_exts.c",
        20 => "libyang/src/plugins_exts/metadata.c",
        21 => "libyang/src/plugins_exts/nacm.c",
        22 => "libyang/src/plugins_exts/schema_mount.c",
        23 => "libyang/src/plugins_exts/structure.c",
        24 => "libyang/src/plugins_exts/yangdata.c",
        25 => "libyang/src/plugins_types.c",
        26 => "libyang/src/plugins_types/binary.c",
        27 => "libyang/src/plugins_types/bits.c",
        28 => "libyang/src/plugins_types/boolean.c",
        29 => "libyang/src/plugins_types/date_and_time.c",
        30 => "libyang/src/plugins_types/decimal64.c",
        31 => "libyang/src/plugins_types/empty.c",
        32 => "libyang/src/plugins_types/enumeration.c",
        33 => "libyang/src/plugins_types/hex_string.c",
        34 => "libyang/src/plugins_types/identityref.c",
        35 => "libyang/src/plugins_types/instanceid.c",
        36 => "libyang/src/plugins_types/instanceid_keys.c",
        37 => "libyang/src/plugins_types/integer.c",
        38 => "libyang/src/plugins_types/ipv4_address.c",
        39 => "libyang/src/plugins_types/ipv4_address_no_zone.c",
        40 => "libyang/src/plugins_types/ipv4_prefix.c",
        41 => "libyang/src/plugins_types/ipv6_address.c",
        42 => "libyang/src/plugins_types/ipv6_address_no_zone.c",
        43 => "libyang/src/plugins_types/ipv6_prefix.c",
        44 => "libyang/src/plugins_types/leafref.c",
        45 => "libyang/src/plugins_types/lyds_tree.c",
        46 => "libyang/src/plugins_types/node_instanceid.c",
        47 => "libyang/src/plugins_types/time_period.c",
        48 => "libyang/src/plugins_types/string.c",
        49 => "libyang/src/plugins_types/union.c",
        50 => "libyang/src/plugins_types/xpath1.0.c",
        51 => "libyang/src/printer_data.c",
        52 => "libyang/src/printer_json.c",
        53 => "libyang/src/printer_lyb.c",
        54 => "libyang/src/printer_schema.c",
        55 => "libyang/src/printer_tree.c",
        56 => "libyang/src/printer_xml.c",
        57 => "libyang/src/printer_yang.c",
        58 => "libyang/src/printer_yin.c",
        59 => "libyang/src/schema_compile_amend.c",
        60 => "libyang/src/schema_compile.c",
        61 => "libyang/src/schema_compile_node.c",
        62 => "libyang/src/schema_features.c",
        63 => "libyang/src/set.c",
        64 => "libyang/src/tree_data.c",
        65 => "libyang/src/tree_data_common.c",
        66 => "libyang/src/tree_data_free.c",
        67 => "libyang/src/tree_data_hash.c",
        68 => "libyang/src/tree_data_new.c",
        69 => "libyang/src/tree_data_sorted.c",
        70 => "libyang/src/tree_schema.c",
        71 => "libyang/src/tree_schema_common.c",
        72 => "libyang/src/tree_schema_free.c",
        73 => "libyang/src/validation.c",
        74 => "libyang/src/xml.c",
        _ => "libyang/src/xpath.c",
    }
}

/// The fixed, ordered list of the engine's compilation units.
///
/// The list is exhaustive by design: omitting a required unit would leave
/// unresolved symbols at final link time — a build-time failure, not a
/// runtime one.
pub fn compilation_units() -> (units: Vec<&'static str>)
    ensures
        units@.len() == N_COMPILATION_UNITS,
        forall|i: int| 0 <= i < N_COMPILATION_UNITS ==> units@[i]@ == spec_unit(i),
{
    let mut units: Vec<&'static str> = Vec::new();
    let mut i: usize = 0;
    while i < N_COMPILATION_UNITS
        invariant
            i <= N_COMPILATION_UNITS,
            units@.len() == i,
            forall|j: int| 0 <= j < i ==> units@[j]@ == spec_unit(j),
        decreases N_COMPILATION_UNITS - i,
    {
        units.push(unit_name(i));
        i = i + 1;
    }
    units
}

/// The i-th include search path: the compat, src and source-root
/// directories of the configure step's output under `build_dir`, then the
/// vendored source root and its plugin-extensions subdirectory.
pub open spec fn spec_include_dir(build_dir: Seq<char>, i: int) -> Seq<char> {
    if i == 0 {
        build_dir + "/build/compat"@
    } else if i == 1 {
        build_dir + "/build/src"@
    } else if i == 2 {
        build_dir + "/build/libyang"@
    } else if i == 3 {
        "libyang/src"@
    } else if i == 4 {
        "libyang/src/plugins_exts"@
    } else {
        Seq::empty()
    }
}

/// The include search paths for compiling the units, resolved across the
/// configure step's output directory (`build_dir`), the vendored source
/// root and the plugin-extensions subdirectory.
pub fn include_dirs(build_dir: &str) -> (dirs: Vec<String>)
    ensures
        dirs@.len() == N_INCLUDE_DIRS,
        forall|i: int| 0 <= i < N_INCLUDE_DIRS ==> dirs@[i]@ == spec_include_dir(build_dir@, i),
{
    let mut dirs: Vec<String> = Vec::new();
    dirs.push(build_dir.to_owned().concat("/build/compat"));
    dirs.push(build_dir.to_owned().concat("/build/src"));
    dirs.push(build_dir.to_owned().concat("/build/libyang"));
    dirs.push("libyang/src".to_owned());
    dirs.push("libyang/src/plugins_exts".to_owned());
    dirs
}

/// Whether the vendored tree must be fetched before anything else: exactly
/// when its version-control marker is absent.  The fetch itself is
/// best-effort — its failure does not abort the build, the compilation of
/// the units is what fails loudly when sources are missing.
pub fn should_fetch_sources(marker_present: bool) -> (fetch: bool)
    ensures
        fetch == !marker_present,
{
    !marker_present
}

/// Everything the bundled build does, in order: fetch the vendored tree if
/// its marker is absent, run the native configure step on the source
/// directory, then compile the fixed unit list with the resolved include
/// paths and warnings suppressed into the named archive.
pub struct NativeBuildPlan {
    pub fetch_sources: bool,
    pub source_dir: &'static str,
    pub include_dirs: Vec<String>,
    pub units: Vec<&'static str>,
    pub suppress_warnings: bool,
    pub archive_name: &'static str,
}

/// Plans the bundled build of the engine, given whether the vendored
/// tree's marker is present and the configure step's output directory.
pub fn plan_native_build(marker_present: bool, build_dir: &str) -> (p: NativeBuildPlan)
    ensures
        p.fetch_sources == !marker_present,
        p.source_dir@ == VENDORED_SOURCE_DIR@,
        p.include_dirs@.len() == N_INCLUDE_DIRS,
        forall|i: int|
            0 <= i < N_INCLUDE_DIRS ==> p.include_dirs@[i]@ == spec_include_dir(build_dir@, i),
        p.units@.len() == N_COMPILATION_UNITS,
        forall|i: int| 0 <= i < N_COMPILATION_UNITS ==> p.units@[i]@ == spec_unit(i),
        p.suppress_warnings,
        p.archive_name@ == ARCHIVE_NAME@,
{
    NativeBuildPlan {
        fetch_sources: should_fetch_sources(marker_present),
        source_dir: VENDORED_SOURCE_DIR,
        include_dirs: include_dirs(build_dir),
        units: compilation_units(),
        suppress_warnings: true,
        archive_name: ARCHIVE_NAME,
    }
}

} // verus!
