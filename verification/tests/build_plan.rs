use yang2::config::{plan_build, BuildConfig};
use yang2::link::{resolve_links, LinkMethod};
use yang2::native_build::{
    compilation_units, include_dirs, plan_native_build, should_fetch_sources, ARCHIVE_NAME,
    N_COMPILATION_UNITS, VENDORED_SOURCE_DIR, VENDORED_TREE_MARKER,
};
use yang2::signatures::{
    plan_signatures, SignatureSource, HEADER_ENTRY_POINT, PREGENERATED_ARTIFACT,
    SIGNATURE_OUT_FILE,
};

#[test]
fn generation_requested_parses_the_header() {
    let cfg = BuildConfig { generate_signatures: true, bundled: false };
    let p = plan_signatures(&cfg);
    match p.source {
        SignatureSource::Generated { header } => assert_eq!(header, "wrapper.h"),
        SignatureSource::Pregenerated { .. } => panic!("expected the generation path"),
    }
    assert_eq!(p.out_file, "libyang3.rs");
    assert_eq!(p.rerun_if_changed, Some("wrapper.h"));
}

#[test]
fn generation_not_requested_copies_the_pinned_artifact() {
    let cfg = BuildConfig { generate_signatures: false, bundled: false };
    let p = plan_signatures(&cfg);
    match p.source {
        SignatureSource::Generated { .. } => panic!("expected the pregenerated path"),
        SignatureSource::Pregenerated { artifact } => {
            assert_eq!(
                artifact,
                "pre-generated-bindings/libyang3-f313632a8ff45d7bba4be29ea9dc83ab5b533807.rs"
            );
            assert_eq!(artifact, PREGENERATED_ARTIFACT);
        }
    }
    assert_eq!(p.out_file, SIGNATURE_OUT_FILE);
    assert_eq!(p.rerun_if_changed, None);
    assert_eq!(HEADER_ENTRY_POINT, "wrapper.h");
}

#[test]
fn native_build_runs_exactly_when_bundling_is_requested() {
    for generate_signatures in [false, true] {
        let bundled_plan = plan_build(&BuildConfig { generate_signatures, bundled: true });
        assert!(bundled_plan.build_native);
        let system_plan = plan_build(&BuildConfig { generate_signatures, bundled: false });
        assert!(!system_plan.build_native);
    }
}

#[test]
fn compilation_unit_list_is_exhaustive() {
    let units = compilation_units();
    assert_eq!(units.len(), N_COMPILATION_UNITS);
    assert_eq!(units.len(), 76);
    assert_eq!(units[0], "libyang/compat/compat.c");
    assert_eq!(units[75], "libyang/src/xpath.c");

    // One unit from each functional area the binding's consumers reach:
    // context management, schema compilation, data parsing, printing,
    // validation and path evaluation.
    for required in [
        "libyang/src/context.c",
        "libyang/src/schema_compile.c",
        "libyang/src/tree_schema.c",
        "libyang/src/parser_xml.c",
        "libyang/src/parser_json.c",
        "libyang/src/parser_yang.c",
        "libyang/src/printer_xml.c",
        "libyang/src/printer_json.c",
        "libyang/src/tree_data.c",
        "libyang/src/validation.c",
        "libyang/src/xpath.c",
        "libyang/src/lyb.c",
    ] {
        assert!(units.contains(&required), "missing unit: {required}");
    }
}

#[test]
fn include_paths_cover_generated_headers_and_vendored_tree() {
    let dirs = include_dirs("/work/out");
    assert_eq!(
        dirs,
        vec![
            "/work/out/build/compat".to_string(),
            "/work/out/build/src".to_string(),
            "/work/out/build/libyang".to_string(),
            "libyang/src".to_string(),
            "libyang/src/plugins_exts".to_string(),
        ]
    );
}

#[test]
fn vendored_tree_is_fetched_only_when_its_marker_is_absent() {
    assert!(should_fetch_sources(false));
    assert!(!should_fetch_sources(true));
    assert_eq!(VENDORED_TREE_MARKER, "libyang/.git");
}

#[test]
fn native_build_plan_is_complete() {
    let p = plan_native_build(false, "/work/out");
    assert!(p.fetch_sources);
    assert_eq!(p.source_dir, VENDORED_SOURCE_DIR);
    assert_eq!(p.source_dir, "libyang");
    assert_eq!(p.include_dirs.len(), 5);
    assert_eq!(p.units.len(), 76);
    assert!(p.suppress_warnings);
    assert_eq!(p.archive_name, "yang3");
    assert_eq!(p.archive_name, ARCHIVE_NAME);

    let present = plan_native_build(true, "/work/out");
    assert!(!present.fetch_sources);
}

#[test]
fn bundled_build_links_archive_then_discovered_regex_library() {
    let (targets, warned) =
        resolve_links(true, Some(vec!["pcre2-8".to_string(), "pcre2-posix".to_string()]));
    assert!(!warned);
    assert_eq!(targets.len(), 3);
    assert_eq!(targets[0].name, "yang3");
    assert_eq!(targets[0].method, LinkMethod::BuiltArchive);
    assert_eq!(targets[1].name, "pcre2-8");
    assert_eq!(targets[1].method, LinkMethod::PackageProbe);
    assert_eq!(targets[2].name, "pcre2-posix");
    assert_eq!(targets[2].method, LinkMethod::PackageProbe);
}

#[test]
fn bundled_build_falls_back_to_bare_regex_name_with_warning() {
    let (targets, warned) = resolve_links(true, None);
    assert!(warned);
    assert_eq!(targets.len(), 2);
    assert_eq!(targets[0].name, "yang3");
    assert_eq!(targets[0].method, LinkMethod::BuiltArchive);
    assert_eq!(targets[1].name, "pcre2-8");
    assert_eq!(targets[1].method, LinkMethod::BareFallback);
}

#[test]
fn system_build_links_discovered_engine() {
    let (targets, warned) = resolve_links(false, Some(vec!["yang".to_string()]));
    assert!(!warned);
    assert_eq!(targets.len(), 1);
    assert_eq!(targets[0].name, "yang");
    assert_eq!(targets[0].method, LinkMethod::PackageProbe);
}

#[test]
fn system_build_falls_back_to_bare_engine_name_with_warning() {
    let (targets, warned) = resolve_links(false, None);
    assert!(warned);
    assert_eq!(targets.len(), 1);
    assert_eq!(targets[0].name, "yang");
    assert_eq!(targets[0].method, LinkMethod::BareFallback);
}

#[test]
fn discovery_failure_never_leaves_zero_link_targets() {
    for bundled in [false, true] {
        let (targets, warned) = resolve_links(bundled, None);
        assert!(warned);
        assert!(!targets.is_empty());
        assert!(targets.iter().any(|t| t.method == LinkMethod::BareFallback));
    }
}
