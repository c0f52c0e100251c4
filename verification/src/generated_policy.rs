use vstd::prelude::*;

use crate::artifact::{
    MetalArtifactLookupError, MetalArtifactRegistry, MetalArtifactSupportError,
    MetalComponentArtifact, MetalGeneratedRouteKind,
};

verus! {

#[derive(Copy, Clone, Debug, PartialEq, Eq)]
pub enum UnsupportedGeneratedComponentReason {
    ArtifactNotRegistered,
    SchemaMismatch { expected: u16, found: u16 },
    UnsupportedRoute(MetalGeneratedRouteKind),
}

#[derive(Copy, Clone, Debug, PartialEq, Eq)]
pub struct UnsupportedGeneratedComponent<'a> {
    pub component_name: &'a str,
    pub reason: UnsupportedGeneratedComponentReason,
}

/// Whether a generated route runs through a registered artifact or is rejected.
#[derive(Copy, Clone, Debug, PartialEq, Eq)]
pub enum MetalGeneratedRoutePolicy<'a> {
    UseRegisteredArtifact(MetalComponentArtifact),
    Reject(UnsupportedGeneratedComponent<'a>),
}

/// The policy decision for a registry answer.
pub open spec fn spec_route_policy<'a>(
    answer: Result<MetalComponentArtifact, MetalArtifactSupportError<'a>>,
    component_name: &'a str,
) -> MetalGeneratedRoutePolicy<'a> {
    match answer {
        Ok(artifact) => MetalGeneratedRoutePolicy::UseRegisteredArtifact(artifact),
        Err(MetalArtifactSupportError::Lookup(
            MetalArtifactLookupError::SchemaMismatch { expected, found },
        )) => MetalGeneratedRoutePolicy::Reject(
            UnsupportedGeneratedComponent {
                component_name,
                reason: UnsupportedGeneratedComponentReason::SchemaMismatch { expected, found },
            },
        ),
        Err(MetalArtifactSupportError::Lookup(
            MetalArtifactLookupError::UnknownComponent { component_name },
        )) => MetalGeneratedRoutePolicy::Reject(
            UnsupportedGeneratedComponent {
                component_name,
                reason: UnsupportedGeneratedComponentReason::ArtifactNotRegistered,
            },
        ),
        Err(MetalArtifactSupportError::UnsupportedGeneratedRoute { component_name, route }) => {
            MetalGeneratedRoutePolicy::Reject(
                UnsupportedGeneratedComponent {
                    component_name,
                    reason: UnsupportedGeneratedComponentReason::UnsupportedRoute(route),
                },
            )
        },
    }
}

/// Decides whether `component_name` may use `route` through a registered artifact.
pub fn resolve_generated_route_policy<'a>(
    registry: &MetalArtifactRegistry,
    expected_schema_version: u16,
    component_name: &'a str,
    route: MetalGeneratedRouteKind,
) -> (r: MetalGeneratedRoutePolicy<'a>)
    ensures
        r == spec_route_policy(
            registry.spec_artifact_supporting_generated_route(
                component_name,
                expected_schema_version,
                route,
            ),
            component_name,
        ),
{
    match registry.artifact_supporting_generated_route(component_name, expected_schema_version, route) {
        Ok(artifact) => MetalGeneratedRoutePolicy::UseRegisteredArtifact(artifact),
        Err(
            MetalArtifactSupportError::Lookup(
                MetalArtifactLookupError::SchemaMismatch { expected, found },
            ),
        ) => MetalGeneratedRoutePolicy::Reject(
            UnsupportedGeneratedComponent {
                component_name,
                reason: UnsupportedGeneratedComponentReason::SchemaMismatch { expected, found },
            },
        ),
        Err(
            MetalArtifactSupportError::Lookup(
                MetalArtifactLookupError::UnknownComponent { component_name },
            ),
        ) => MetalGeneratedRoutePolicy::Reject(
            UnsupportedGeneratedComponent {
                component_name,
                reason: UnsupportedGeneratedComponentReason::ArtifactNotRegistered,
            },
        ),
        Err(MetalArtifactSupportError::UnsupportedGeneratedRoute { component_name, route }) => {
            MetalGeneratedRoutePolicy::Reject(
                UnsupportedGeneratedComponent {
                    component_name,
                    reason: UnsupportedGeneratedComponentReason::UnsupportedRoute(route),
                },
            )
        },
    }
}

} // verus!
