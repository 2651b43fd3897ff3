//! The link resolver.
//!
//! It runs last and emits the final set of link targets, so that the
//! produced binary resolves every native symbol.  When the engine was built
//! from vendored sources the fresh archive is linked and the supporting
//! regex library is resolved by system package discovery; otherwise the
//! engine itself is resolved by discovery.  Discovery failure is the one
//! recoverable build-time error: it degrades to a warning plus a bare
//! library-name link directive, never to an abort — the final native link
//! is the authoritative check and fails clearly if the bare name is wrong.

use crate::native_build::ARCHIVE_NAME;
use vstd::prelude::*;

verus! {

/// The system package probed for the engine when it was not bundled.
pub const ENGINE_PACKAGE: &'static str = "libyang";

/// The bare library name linked when discovery of the engine fails.
pub const ENGINE_FALLBACK_LIB: &'static str = "yang";

/// The system package probed for the engine's regex/Unicode dependency
/// after a bundled build.
pub const SUPPORT_PACKAGE: &'static str = "libpcre2-8";

/// The bare library name linked when discovery of the regex/Unicode
/// dependency fails.
pub const SUPPORT_FALLBACK_LIB: &'static str = "pcre2-8";

/// How one link target was resolved.
#[derive(Clone, Copy, Debug, PartialEq, Eq, Structural)]
pub enum LinkMethod {
    /// The archive freshly built from the vendored sources.
    BuiltArchive,
    /// A library reported by system package discovery.
    PackageProbe,
    /// The bare fallback name, emitted with a warning after discovery
    /// failed.
    BareFallback,
}

/// One external library the final binary links, with the discovery method
/// that resolved its name.  Every target carries some linkable name even
/// when discovery failed: the fallback always supplies one.
pub struct LinkTarget {
    pub name: String,
    pub method: LinkMethod,
}

/// The mathematical value of one link target.
pub ghost struct LinkTargetView {
    pub name: Seq<char>,
    pub method: LinkMethod,
}

impl View for LinkTarget {
    type V = LinkTargetView;

    open spec fn view(&self) -> LinkTargetView {
        LinkTargetView { name: self.name@, method: self.method }
    }
}

/// The views of a sequence of link targets.
pub open spec fn targets_view(s: Seq<LinkTarget>) -> Seq<LinkTargetView> {
    s.map(|i: int, t: LinkTarget| t@)
}

/// The character sequences of an optional list of owned library names.
pub open spec fn opt_names_view(p: Option<Vec<String>>) -> Option<Seq<Seq<char>>> {
    match p {
        Option::None => Option::None,
        Option::Some(v) => Option::Some(v@.map(|i: int, s: String| s@)),
    }
}

/// The targets resolved by one package-discovery step: the discovered
/// libraries when the probe succeeded, the given bare fallback name when it
/// failed.
pub open spec fn spec_discovery_links(probe: Option<Seq<Seq<char>>>, fallback: Seq<char>) -> Seq<
    LinkTargetView,
> {
    match probe {
        Option::None => seq![LinkTargetView { name: fallback, method: LinkMethod::BareFallback }],
        Option::Some(names) => names.map(
            |i: int, n: Seq<char>| LinkTargetView { name: n, method: LinkMethod::PackageProbe },
        ),
    }
}

/// The archive target alone when the engine was bundled, nothing otherwise.
pub open spec fn spec_archive_prefix(bundled: bool) -> Seq<LinkTargetView> {
    if bundled {
        seq![LinkTargetView { name: ARCHIVE_NAME@, method: LinkMethod::BuiltArchive }]
    } else {
        Seq::empty()
    }
}

/// Every link target the resolver emits for one build: the fresh archive
/// plus the discovered (or fallen-back) regex dependency when bundling
/// occurred, the discovered (or fallen-back) engine itself otherwise.
pub open spec fn spec_links(bundled: bool, probe: Option<Seq<Seq<char>>>) -> Seq<LinkTargetView> {
    spec_archive_prefix(bundled) + spec_discovery_links(
        probe,
        if bundled {
            SUPPORT_FALLBACK_LIB@
        } else {
            ENGINE_FALLBACK_LIB@
        },
    )
}

/// Resolves the final link targets.
///
/// `probe` is the outcome of the one package-discovery step this build
/// performs — the library names the discovered package links, or `None`
/// when discovery failed.  The second component of the result says whether
/// a discovery-failure warning must be emitted; it is set exactly when the
/// bare fallback was used.
pub fn resolve_links(bundled: bool, probe: Option<Vec<String>>) -> (r: (Vec<LinkTarget>, bool))
    ensures
        targets_view(r.0@) == spec_links(bundled, opt_names_view(probe)),
        r.1 == (probe is None),
{
    let mut targets: Vec<LinkTarget> = Vec::new();
    if bundled {
        targets.push(
            LinkTarget { name: ARCHIVE_NAME.to_owned(), method: LinkMethod::BuiltArchive },
        );
    }
    proof {
        assert(targets_view(targets@) =~= spec_archive_prefix(bundled));
    }
    match probe {
        Option::None => {
            let fallback = if bundled {
                SUPPORT_FALLBACK_LIB
            } else {
                ENGINE_FALLBACK_LIB
            };
            targets.push(LinkTarget { name: fallback.to_owned(), method: LinkMethod::BareFallback });
            proof {
                assert(targets_view(targets@) =~= spec_links(bundled, Option::None));
            }
            (targets, true)
        },
        Option::Some(names) => {
            let off: usize = if bundled {
                1
            } else {
                0
            };
            let n = names.len();
            let mut i: usize = 0;
            while i < n
                invariant
                    i <= n,
                    n == names@.len(),
                    off == spec_archive_prefix(bundled).len(),
                    targets@.len() == off + i,
                    bundled ==> targets@[0]@ == (LinkTargetView {
                        name: ARCHIVE_NAME@,
                        method: LinkMethod::BuiltArchive,
                    }),
                    forall|j: int|
                        0 <= j < i ==> (#[trigger] targets@[off + j])@ == (LinkTargetView {
                            name: names@[j]@,
                            method: LinkMethod::PackageProbe,
                        }),
                decreases n - i,
            {
                targets.push(
                    LinkTarget { name: names[i].clone(), method: LinkMethod::PackageProbe },
                );
                i = i + 1;
            }
            proof {
                let gnames = names@.map(|k: int, s: String| s@);
                let s = spec_links(bundled, Option::Some(gnames));
                assert(s.len() == off + n);
                assert forall|k: int| 0 <= k < s.len() implies targets_view(targets@)[k] == s[k] by {
                    if k < off {
                        assert(targets@[0]@ == s[0]);
                    } else {
                        let j = k - off;
                        assert(targets@[off + j]@ == (LinkTargetView {
                            name: names@[j]@,
                            method: LinkMethod::PackageProbe,
                        }));
                        assert(gnames[j] == names@[j]@);
                        assert(s[k] == (LinkTargetView {
                            name: gnames[j],
                            method: LinkMethod::PackageProbe,
                        }));
                    }
                }
                assert(targets_view(targets@) =~= s);
            }
            (targets, false)
        },
    }
}

/// Exactly one engine-linking strategy executes: the freshly built archive
/// stands among the targets — in front, where the engine's target always
/// stands — when and only when bundling occurred; otherwise no target is an
/// archive and the engine is resolved by discovery or fallback alone.
pub proof fn lemma_link_strategy_exclusive(bundled: bool, probe: Option<Seq<Seq<char>>>)
    ensures
        bundled ==> spec_links(bundled, probe).len() >= 1 && spec_links(bundled, probe)[0].method
            is BuiltArchive,
        !bundled ==> forall|i: int|
            0 <= i < spec_links(bundled, probe).len() ==> ((#[trigger] spec_links(
                bundled,
                probe,
            )[i]).method is PackageProbe || spec_links(bundled, probe)[i].method is BareFallback),
{
    match probe {
        Option::None => {
        },
        Option::Some(names) => {
            if !bundled {
                assert(spec_links(bundled, probe) =~= names.map(
                    |i: int, n: Seq<char>| LinkTargetView {
                        name: n,
                        method: LinkMethod::PackageProbe,
                    },
                ));
            }
        },
    }
}

/// Package-discovery failure still leaves the build linkable: at least one
/// target is emitted, and one of them is the bare fallback directive.
pub proof fn lemma_fallback_on_discovery_failure(bundled: bool)
    ensures
        spec_links(bundled, Option::None).len() >= 1,
        exists|i: int|
            0 <= i < spec_links(bundled, Option::None).len() && (#[trigger] spec_links(
                bundled,
                Option::None,
            )[i]).method is BareFallback,
{
    if bundled {
        assert(spec_links(true, Option::None)[1].method is BareFallback);
    } else {
        assert(spec_links(false, Option::None)[0].method is BareFallback);
    }
}

} // verus!
