//! Validation for the service CRUD surface: a new service needs at least one
//! topic, and a cloud-backed one needs its cluster and region coordinates.

use vstd::prelude::*;
use crate::domain::{ProviderType, ServiceDetails};

verus! {

/// Why a service request is rejected.
#[derive(Clone, Copy, Debug, PartialEq, Eq, Structural)]
pub enum ServiceInputError {
    EmptyTopics,
    MissingCluster,
    MissingRegion,
}

/// The text each rejection answers with.
pub open spec fn service_input_message(e: ServiceInputError) -> Seq<char> {
    match e {
        ServiceInputError::EmptyTopics => "Field 'topics' cannot be empty"@,
        ServiceInputError::MissingCluster => "Field 'cluster' is required"@,
        ServiceInputError::MissingRegion => "Field 'region' is required"@,
    }
}

impl ServiceInputError {
    pub fn message(&self) -> (r: &'static str)
        ensures
            r@ == service_input_message(*self),
    {
        match self {
            ServiceInputError::EmptyTopics => "Field 'topics' cannot be empty",
            ServiceInputError::MissingCluster => "Field 'cluster' is required",
            ServiceInputError::MissingRegion => "Field 'region' is required",
        }
    }
}

/// Validate a new service: at least one topic; a local-container service
/// carries no coordinates, a cloud one must name cluster and region.
pub fn validate_service_input(
    provider_type: ProviderType,
    topics: &Vec<String>,
    cluster: Option<String>,
    region: Option<String>,
) -> (r: Result<ServiceDetails, ServiceInputError>)
    ensures
        topics@.len() == 0 ==> r == Err::<ServiceDetails, ServiceInputError>(
            ServiceInputError::EmptyTopics,
        ),
        topics@.len() > 0 && provider_type is DockerLocal ==> (r matches Ok(d) && d.cluster is None
            && d.region is None),
        topics@.len() > 0 && provider_type is AWSFargate && cluster is None ==> r == Err::<
            ServiceDetails,
            ServiceInputError,
        >(ServiceInputError::MissingCluster),
        topics@.len() > 0 && provider_type is AWSFargate && cluster is Some && region is None ==> r
            == Err::<ServiceDetails, ServiceInputError>(ServiceInputError::MissingRegion),
        topics@.len() > 0 && provider_type is AWSFargate && cluster is Some && region is Some ==> (
        r matches Ok(d) && d.cluster == cluster && d.region == region),
{
    if topics.len() == 0 {
        return Err(ServiceInputError::EmptyTopics);
    }
    match provider_type {
        ProviderType::DockerLocal => Ok(ServiceDetails { cluster: None, region: None }),
        ProviderType::AWSFargate => {
            match cluster {
                None => Err(ServiceInputError::MissingCluster),
                Some(c) => {
                    match region {
                        None => Err(ServiceInputError::MissingRegion),
                        Some(g) => Ok(ServiceDetails { cluster: Some(c), region: Some(g) }),
                    }
                },
            }
        },
    }
}

} // verus!
