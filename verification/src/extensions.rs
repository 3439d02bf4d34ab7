use vstd::prelude::*;

use crate::names::{
    contains_name, distinct_names, gpdp2_extension, lemma_portability_names_distinct,
    portability_enumeration_extension, spec_gpdp2_extension,
    spec_portability_enumeration_extension, views_of,
};
use crate::version::{portability_macos_version, spec_portability_macos_version, Version};

verus! {

/// The platform hosting the window system.
#[derive(Clone, Copy, Debug, PartialEq, Eq, Structural)]
pub enum Platform {
    MacOs,
    Other,
}

/// Instance creation flags derived from the platform.
#[derive(Clone, Copy, Debug, PartialEq, Eq, Structural)]
pub struct PlatformFlags {
    pub enumerate_portability: bool,
}

impl PlatformFlags {
    pub open spec fn spec_empty() -> PlatformFlags {
        PlatformFlags { enumerate_portability: false }
    }

    pub fn empty() -> (f: PlatformFlags)
        ensures
            f == PlatformFlags::spec_empty(),
    {
        PlatformFlags { enumerate_portability: false }
    }
}

/// Portability extensions are required exactly on macOS from the threshold
/// runtime version on.
pub open spec fn portability_gated(platform: Platform, runtime_version: Version) -> bool {
    platform == Platform::MacOs && runtime_version.spec_ge(spec_portability_macos_version())
}

/// The resolved extension sequence: the window-supplied list, in order, with
/// the two portability extensions appended when portability is gated in.
pub open spec fn spec_resolved_extensions(
    window_extensions: Seq<Seq<char>>,
    runtime_version: Version,
    platform: Platform,
) -> Seq<Seq<char>> {
    if portability_gated(platform, runtime_version) {
        window_extensions + seq![
            spec_gpdp2_extension(),
            spec_portability_enumeration_extension(),
        ]
    } else {
        window_extensions
    }
}

/// The resolved creation flags: portability enumeration iff gated in.
pub open spec fn spec_resolved_flags(runtime_version: Version, platform: Platform) -> PlatformFlags {
    PlatformFlags { enumerate_portability: portability_gated(platform, runtime_version) }
}

/// An acceptable window-supplied extension list: duplicate-free and not
/// already holding a portability extension, so that appending never
/// introduces a duplicate.
pub open spec fn acceptable_window_list(window_extensions: Seq<Seq<char>>) -> bool {
    &&& distinct_names(window_extensions)
    &&& !window_extensions.contains(spec_gpdp2_extension())
    &&& !window_extensions.contains(spec_portability_enumeration_extension())
}

/// Decides whether a window-supplied extension list is acceptable, so that a
/// caller that cannot establish it otherwise can test before resolving.
pub fn acceptable_window_extensions(window_extensions: &Vec<String>) -> (b: bool)
    ensures
        b == acceptable_window_list(views_of(window_extensions@)),
{
    let gpdp2 = gpdp2_extension();
    let portability = portability_enumeration_extension();
    if contains_name(window_extensions, &gpdp2)
        || contains_name(window_extensions, &portability) {
        return false;
    }
    let ghost views = views_of(window_extensions@);
    let mut i: usize = 0;
    while i < window_extensions.len()
        invariant
            i <= window_extensions.len(),
            views == views_of(window_extensions@),
            forall|k: int, l: int| 0 <= k < l < views.len() && k < i ==> views[k] != views[l],
        decreases window_extensions.len() - i,
    {
        let mut j: usize = i + 1;
        while j < window_extensions.len()
            invariant
                i < j <= window_extensions.len(),
                views == views_of(window_extensions@),
                forall|l: int| i < l < j ==> views[i as int] != views[l],
            decreases window_extensions.len() - j,
        {
            if window_extensions[i] == window_extensions[j] {
                assert(views[i as int] == views[j as int]);
                return false;
            }
            j += 1;
        }
        i += 1;
    }
    true
}

/// Computes the extension sequence and creation flags for an instance, from
/// the window system's mandatory list, the runtime version and the platform.
pub fn resolve(
    window_extensions: &Vec<String>,
    runtime_version: Version,
    platform: Platform,
) -> (r: (Vec<String>, PlatformFlags))
    requires
        acceptable_window_list(views_of(window_extensions@)),
    ensures
        views_of(r.0@) == spec_resolved_extensions(
            views_of(window_extensions@),
            runtime_version,
            platform,
        ),
        r.1 == spec_resolved_flags(runtime_version, platform),
        distinct_names(views_of(r.0@)),
{
    let mut resolved: Vec<String> = Vec::new();
    let mut i: usize = 0;
    while i < window_extensions.len()
        invariant
            i <= window_extensions.len(),
            resolved@.len() == i,
            forall|k: int| 0 <= k < i ==> resolved@[k] == window_extensions@[k],
        decreases window_extensions.len() - i,
    {
        resolved.push(window_extensions[i].clone());
        i += 1;
    }
    assert(views_of(resolved@) =~= views_of(window_extensions@));

    let threshold = portability_macos_version();
    if platform == Platform::MacOs && runtime_version.at_least(&threshold) {
        resolved.push(gpdp2_extension());
        resolved.push(portability_enumeration_extension());
        proof {
            lemma_portability_names_distinct();
            assert(views_of(resolved@) =~= spec_resolved_extensions(
                views_of(window_extensions@),
                runtime_version,
                platform,
            ));
            lemma_resolved_distinct(views_of(window_extensions@), runtime_version, platform);
        }
        (resolved, PlatformFlags { enumerate_portability: true })
    } else {
        (resolved, PlatformFlags { enumerate_portability: false })
    }
}

/// Law: the resolved sequence begins with exactly the window-supplied list,
/// in order, and what is appended introduces no duplicate.
pub proof fn lemma_extension_ordering(
    window_extensions: Seq<Seq<char>>,
    runtime_version: Version,
    platform: Platform,
)
    requires
        acceptable_window_list(window_extensions),
    ensures
        spec_resolved_extensions(window_extensions, runtime_version, platform).len()
            >= window_extensions.len(),
        spec_resolved_extensions(window_extensions, runtime_version, platform).subrange(
            0,
            window_extensions.len() as int,
        ) == window_extensions,
        distinct_names(spec_resolved_extensions(window_extensions, runtime_version, platform)),
{
    assert(spec_resolved_extensions(window_extensions, runtime_version, platform).subrange(
        0,
        window_extensions.len() as int,
    ) =~= window_extensions);
    lemma_resolved_distinct(window_extensions, runtime_version, platform);
}

/// An acceptable window list resolves to a duplicate-free sequence.
pub proof fn lemma_resolved_distinct(
    window_extensions: Seq<Seq<char>>,
    runtime_version: Version,
    platform: Platform,
)
    requires
        acceptable_window_list(window_extensions),
    ensures
        distinct_names(spec_resolved_extensions(window_extensions, runtime_version, platform)),
{
    let resolved = spec_resolved_extensions(window_extensions, runtime_version, platform);
    if portability_gated(platform, runtime_version) {
        lemma_portability_names_distinct();
        assert forall|i: int, j: int| 0 <= i < j < resolved.len() implies resolved[i]
            != resolved[j] by {
            if j < window_extensions.len() {
            } else if i < window_extensions.len() {
                assert(window_extensions.contains(window_extensions[i]));
            }
        }
    }
}

/// Law: the portability extensions and the portability flag are present in
/// the result iff the platform is macOS and the runtime version is at least
/// the threshold; otherwise both are absent.
pub proof fn lemma_portability_gating(
    window_extensions: Seq<Seq<char>>,
    runtime_version: Version,
    platform: Platform,
)
    requires
        acceptable_window_list(window_extensions),
    ensures
        spec_resolved_flags(runtime_version, platform).enumerate_portability <==> (platform
            == Platform::MacOs && runtime_version.spec_ge(spec_portability_macos_version())),
        spec_resolved_extensions(window_extensions, runtime_version, platform).contains(
            spec_gpdp2_extension(),
        ) <==> portability_gated(platform, runtime_version),
        spec_resolved_extensions(window_extensions, runtime_version, platform).contains(
            spec_portability_enumeration_extension(),
        ) <==> portability_gated(platform, runtime_version),
{
    let resolved = spec_resolved_extensions(window_extensions, runtime_version, platform);
    if portability_gated(platform, runtime_version) {
        assert(resolved[window_extensions.len() as int] == spec_gpdp2_extension());
        assert(resolved[window_extensions.len() as int + 1]
            == spec_portability_enumeration_extension());
    } else {
        assert(resolved == window_extensions);
    }
}

} // verus!
