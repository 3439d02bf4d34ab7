use vstd::prelude::*;

use crate::extensions::{
    acceptable_window_list, lemma_portability_gating, resolve, spec_resolved_extensions,
    spec_resolved_flags, Platform, PlatformFlags,
};
use crate::names::{
    application_name, contains_name, distinct_names, engine_name, spec_application_name,
    spec_engine_name, spec_gpdp2_extension, spec_portability_enumeration_extension,
    spec_validation_layer, validation_layer, views_of,
};
use crate::version::Version;

verus! {

/// Everything that can go wrong while bootstrapping the application.
#[derive(Clone, Copy, Debug, PartialEq, Eq, Structural)]
pub enum BootstrapError {
    /// The dynamic loader cannot locate or bind the graphics runtime.
    RuntimeLoad,
    /// Layer or version enumeration failed.
    RuntimeQuery,
    /// Validation was requested but the runtime does not offer the
    /// validation layer.
    ValidationLayerUnavailable,
    /// The runtime rejected the creation request; carries its diagnostic
    /// code.
    InstanceCreation { code: i32 },
    /// The window system could not provide a window.
    WindowCreation,
    /// An operation was invoked in a lifecycle state that forbids it
    /// (render after destroy, or a second destroy).
    LifecycleViolation,
}

impl BootstrapError {
    /// A short description of the error, for the terminating message.
    pub fn describe(&self) -> (s: String)
        ensures
            match *self {
                BootstrapError::RuntimeLoad => s@ == "cannot load the graphics runtime"@,
                BootstrapError::RuntimeQuery => s@ == "cannot query the graphics runtime"@,
                BootstrapError::ValidationLayerUnavailable => s@
                    == "validation layer requested but not supported"@,
                BootstrapError::InstanceCreation { .. } => s@
                    == "the runtime rejected the instance creation request"@,
                BootstrapError::WindowCreation => s@ == "cannot create the window"@,
                BootstrapError::LifecycleViolation => s@
                    == "operation invoked in a lifecycle state that forbids it"@,
            },
    {
        match self {
            BootstrapError::RuntimeLoad => "cannot load the graphics runtime".to_owned(),
            BootstrapError::RuntimeQuery => "cannot query the graphics runtime".to_owned(),
            BootstrapError::ValidationLayerUnavailable => {
                "validation layer requested but not supported".to_owned()
            },
            BootstrapError::InstanceCreation { .. } => {
                "the runtime rejected the instance creation request".to_owned()
            },
            BootstrapError::WindowCreation => "cannot create the window".to_owned(),
            BootstrapError::LifecycleViolation => {
                "operation invoked in a lifecycle state that forbids it".to_owned()
            },
        }
    }
}

/// The validation layer is among the available layers.
pub open spec fn validation_available(available_layers: Seq<Seq<char>>) -> bool {
    available_layers.contains(spec_validation_layer())
}

/// Negotiation refuses to proceed exactly when validation was requested but
/// the runtime does not offer the validation layer.
pub open spec fn spec_negotiation_fails(
    available_layers: Seq<Seq<char>>,
    validation_requested: bool,
) -> bool {
    validation_requested && !validation_available(available_layers)
}

/// The layer list submitted with the request: just the validation layer when
/// it was requested (and found available), otherwise empty.
pub open spec fn spec_selected_layers(validation_requested: bool) -> Seq<Seq<char>> {
    if validation_requested {
        seq![spec_validation_layer()]
    } else {
        Seq::empty()
    }
}

/// The fixed application, engine and target API version carried by every
/// creation request.
pub open spec fn spec_metadata_version() -> Version {
    Version { major: 1, minor: 0, patch: 0 }
}

/// An immutable instance creation request: application and engine identity,
/// target API version, resolved extensions and layers, and platform flags.
#[derive(Clone, Debug)]
pub struct InstanceCreationRequest {
    pub application_name: String,
    pub application_version: Version,
    pub engine_name: String,
    pub engine_version: Version,
    pub api_version: Version,
    pub extensions: Vec<String>,
    pub layers: Vec<String>,
    pub flags: PlatformFlags,
}

impl InstanceCreationRequest {
    /// If the flags request portability enumeration, the extension sequence
    /// already holds the two portability extensions; extensions are
    /// duplicate-free.
    pub open spec fn well_formed(self) -> bool {
        &&& self.flags.enumerate_portability ==> {
            &&& views_of(self.extensions@).contains(spec_gpdp2_extension())
            &&& views_of(self.extensions@).contains(spec_portability_enumeration_extension())
        }
        &&& distinct_names(views_of(self.extensions@))
    }
}

/// Composes an instance creation request from the probed runtime facts and
/// the window system's mandatory extension list.
///
/// Fails with `ValidationLayerUnavailable` exactly when validation was
/// requested but the validation layer is absent from the available set; no
/// request is produced then, so no creation call can follow from it.
pub fn build(
    available_layers: &Vec<String>,
    validation_requested: bool,
    window_extensions: &Vec<String>,
    runtime_version: Version,
    platform: Platform,
) -> (r: Result<InstanceCreationRequest, BootstrapError>)
    requires
        acceptable_window_list(views_of(window_extensions@)),
    ensures
        r is Err <==> spec_negotiation_fails(views_of(available_layers@), validation_requested),
        match r {
            Ok(req) => {
                &&& views_of(req.layers@) == spec_selected_layers(validation_requested)
                &&& views_of(req.extensions@) == spec_resolved_extensions(
                    views_of(window_extensions@),
                    runtime_version,
                    platform,
                )
                &&& req.flags == spec_resolved_flags(runtime_version, platform)
                &&& req.application_name@ == spec_application_name()
                &&& req.application_version == spec_metadata_version()
                &&& req.engine_name@ == spec_engine_name()
                &&& req.engine_version == spec_metadata_version()
                &&& req.api_version == spec_metadata_version()
                &&& req.well_formed()
            },
            Err(e) => e == BootstrapError::ValidationLayerUnavailable,
        },
{
    let validation = validation_layer();
    if validation_requested && !contains_name(available_layers, &validation) {
        return Err(BootstrapError::ValidationLayerUnavailable);
    }

    let layers: Vec<String> = if validation_requested {
        vec![validation]
    } else {
        Vec::new()
    };
    assert(views_of(layers@) =~= spec_selected_layers(validation_requested));

    let (extensions, flags) = resolve(window_extensions, runtime_version, platform);

    proof {
        lemma_portability_gating(views_of(window_extensions@), runtime_version, platform);
    }
    let metadata_version = Version::new(1, 0, 0);
    Ok(
        InstanceCreationRequest {
            application_name: application_name(),
            application_version: metadata_version,
            engine_name: engine_name(),
            engine_version: metadata_version,
            api_version: metadata_version,
            extensions,
            layers,
            flags,
        },
    )
}

} // verus!
