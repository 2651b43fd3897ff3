//! The build-time configuration and the top-level build plan.
//!
//! The two flags are resolved once, before anything else runs, and every
//! mutual-exclusion decision of the build is taken here or in the modules
//! this one delegates to — never re-checked piecemeal along the way.

use vstd::prelude::*;

verus! {

/// The build-time configuration, fixed for the whole of one build
/// invocation: whether signatures are generated from the engine's header
/// instead of copied from the committed artifact, and whether the engine is
/// built from vendored sources instead of discovered on the host system.
/// The two choices are independent of each other.
pub struct BuildConfig {
    pub generate_signatures: bool,
    pub bundled: bool,
}

/// The resolved decisions of one build invocation: how the signature
/// artifact is produced, and whether the engine is compiled from the
/// vendored sources before linking.  The native-build and link steps that
/// follow take their own inputs (marker presence, configure output
/// directory, probe outcome) only at the time they run.
pub struct BuildPlan {
    pub signature: crate::signatures::SignaturePlan,
    pub build_native: bool,
}

/// Resolves the whole build configuration in one place.
///
/// The signature-source decision and the bundled-vs-system decision are
/// taken here, once, and nowhere re-examined: the signature plan follows
/// the generation flag, and the engine is built from source when and only
/// when bundling is requested.
pub fn plan_build(cfg: &BuildConfig) -> (p: BuildPlan)
    ensures
        crate::signatures::signature_plan_ok(*cfg, p.signature),
        p.build_native == cfg.bundled,
{
    BuildPlan { signature: crate::signatures::plan_signatures(cfg), build_native: cfg.bundled }
}

} // verus!
