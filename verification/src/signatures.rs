//! The signature source selector.
//!
//! The calling language needs a text artifact describing the native
//! engine's callable surface.  Exactly one of two sources supplies it:
//! generating it on the fly by parsing the engine's public header, or
//! copying a committed artifact pinned to one engine version by a
//! content-derived identifier.  Either way the engine's enumerations are
//! represented as plain integer constants, keeping the ABI loosely coupled
//! across engine versions.

use crate::config::BuildConfig;
use vstd::prelude::*;

verus! {

/// The header entry point parsed when generation is requested.
pub const HEADER_ENTRY_POINT: &'static str = "wrapper.h";

/// The committed signature artifact, pinned to one engine version by a
/// content-derived identifier in its name.
pub const PREGENERATED_ARTIFACT: &'static str =
    "pre-generated-bindings/libyang3-f313632a8ff45d7bba4be29ea9dc83ab5b533807.rs";

/// The one output file the selector writes, relative to the build output
/// directory.
pub const SIGNATURE_OUT_FILE: &'static str = "libyang3.rs";

/// Where the signature artifact comes from: parsed out of the engine's
/// header now, or copied from the version-pinned committed file.
pub enum SignatureSource {
    Generated { header: &'static str },
    Pregenerated { artifact: &'static str },
}

/// The selector's full decision: the source to draw from, the one file to
/// write, and the rebuild trigger to declare — the header's modification,
/// and only when the header is actually parsed.
pub struct SignaturePlan {
    pub source: SignatureSource,
    pub out_file: &'static str,
    pub rerun_if_changed: Option<&'static str>,
}

/// What the selector promises of its plan: the source follows the
/// configuration flag — the header is parsed when and only when generation
/// is requested, the pinned artifact is copied otherwise — the one output
/// file is the fixed one, and a rebuild trigger on the header is declared
/// exactly when the header is parsed.
pub open spec fn signature_plan_ok(cfg: BuildConfig, p: SignaturePlan) -> bool {
    &&& cfg.generate_signatures ==> (p.source matches SignatureSource::Generated { header }
        && header@ == HEADER_ENTRY_POINT@)
    &&& !cfg.generate_signatures ==> (p.source matches SignatureSource::Pregenerated { artifact }
        && artifact@ == PREGENERATED_ARTIFACT@)
    &&& p.out_file@ == SIGNATURE_OUT_FILE@
    &&& (p.rerun_if_changed matches Some(h) <==> cfg.generate_signatures)
    &&& cfg.generate_signatures ==> (p.rerun_if_changed matches Some(h) && h@
        == HEADER_ENTRY_POINT@)
}

/// Selects the signature source for this configuration.
///
/// Generation is used when and only when it is requested; otherwise the
/// pinned artifact is copied.  Never both, never neither.  Failure of the
/// chosen step (header parse failure, missing artifact) is fatal to the
/// build; there is no fallback from one source to the other.
pub fn plan_signatures(cfg: &BuildConfig) -> (p: SignaturePlan)
    ensures
        signature_plan_ok(*cfg, p),
{
    if cfg.generate_signatures {
        SignaturePlan {
            source: SignatureSource::Generated { header: HEADER_ENTRY_POINT },
            out_file: SIGNATURE_OUT_FILE,
            rerun_if_changed: Option::Some(HEADER_ENTRY_POINT),
        }
    } else {
        SignaturePlan {
            source: SignatureSource::Pregenerated { artifact: PREGENERATED_ARTIFACT },
            out_file: SIGNATURE_OUT_FILE,
            rerun_if_changed: Option::None,
        }
    }
}

/// Exactly one signature source is ever selected: every source value is
/// generated or pregenerated, never both, never neither.
pub proof fn lemma_signature_source_exclusive(s: SignatureSource)
    ensures
        (s is Generated) != (s is Pregenerated),
{
}

} // verus!
