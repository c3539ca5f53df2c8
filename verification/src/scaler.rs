//! Scaler arithmetic and scaler bookkeeping: what desired instance count a
//! scale-up or scale-down call must ask the provider for. The provider calls
//! themselves (a container runtime, a cloud API) live in the shell; it reads
//! the current count, asks these functions for the target, and applies it.

use vstd::prelude::*;
use vstd::string::StringExecFns;
use crate::domain::{ProviderType, ServiceDetails};

verus! {

/// Why a scaler call cannot be made or failed.
#[derive(Debug)]
pub enum ServiceScalerError {
    CommandError(String),
    GenericError(String),
    InvalidService(String),
}

impl ServiceScalerError {
    pub fn to_str(&self) -> (r: String)
        ensures
            self matches ServiceScalerError::CommandError(m) ==> r@
                == "ServiceScalerError::CommandError: "@ + m@,
            self matches ServiceScalerError::GenericError(m) ==> r@
                == "ServiceScalerError::GenericError: "@ + m@,
            self matches ServiceScalerError::InvalidService(m) ==> r@
                == "ServiceScalerError::InvalidService: "@ + m@,
    {
        match self {
            ServiceScalerError::CommandError(m) => "ServiceScalerError::CommandError: ".to_owned().concat(
                m.as_str(),
            ),
            ServiceScalerError::GenericError(m) => "ServiceScalerError::GenericError: ".to_owned().concat(
                m.as_str(),
            ),
            ServiceScalerError::InvalidService(m) => "ServiceScalerError::InvalidService: ".to_owned().concat(
                m.as_str(),
            ),
        }
    }
}

/// A provider's view of one service.
#[derive(Debug)]
pub struct ServiceScalerInfo {
    pub name: String,
    pub instances: u64,
    pub provider_type: ProviderType,
    pub desired_count: Option<i32>,
    pub running_count: Option<i32>,
    pub pending_count: Option<i32>,
}

impl ServiceScalerInfo {
    pub fn docker(name: String, instances: u64) -> (r: ServiceScalerInfo)
        ensures
            r == (ServiceScalerInfo {
                name,
                instances,
                provider_type: ProviderType::DockerLocal,
                desired_count: None,
                running_count: None,
                pending_count: None,
            }),
    {
        ServiceScalerInfo {
            name,
            instances,
            provider_type: ProviderType::DockerLocal,
            desired_count: None,
            running_count: None,
            pending_count: None,
        }
    }

    pub fn fargate(
        name: String,
        instances: u64,
        desired_count: i32,
        running_count: i32,
        pending_count: i32,
    ) -> (r: ServiceScalerInfo)
        ensures
            r == (ServiceScalerInfo {
                name,
                instances,
                provider_type: ProviderType::AWSFargate,
                desired_count: Some(desired_count),
                running_count: Some(running_count),
                pending_count: Some(pending_count),
            }),
    {
        ServiceScalerInfo {
            name,
            instances,
            provider_type: ProviderType::AWSFargate,
            desired_count: Some(desired_count),
            running_count: Some(running_count),
            pending_count: Some(pending_count),
        }
    }
}

/// A negative scale amount adds nothing.
pub open spec fn added_instances(amount: i32) -> int {
    if amount >= 0 {
        amount as int
    } else {
        0
    }
}

/// How many instances a scale-down call removes: a negative amount is read
/// as the largest possible one.
pub open spec fn removed_instances(amount: i32) -> int {
    if amount >= 0 {
        amount as int
    } else {
        u64::MAX as int
    }
}

/// The instance count a local-container scale-down aims for.
pub open spec fn docker_scale_down_target(current_count: int, amount: i32) -> int {
    if current_count >= removed_instances(amount) {
        current_count - removed_instances(amount)
    } else {
        0
    }
}

/// Scales a service that runs as local containers: the shell counts the
/// running containers and applies the target these planners return.
#[derive(Clone, Copy, Debug)]
pub struct DockerScaler;

impl DockerScaler {
    pub fn new() -> (r: DockerScaler)
        ensures
            r == (DockerScaler {  }),
    {
        DockerScaler {  }
    }

    /// The container count to scale up to, or nothing when the call would
    /// not change it.
    pub fn plan_scale_up(&self, current_count: u64, amount: i32) -> (r: Option<u64>)
        requires
            current_count + added_instances(amount) <= u64::MAX,
        ensures
            current_count + added_instances(amount) == current_count ==> r is None,
            current_count + added_instances(amount) != current_count ==> r == Some(
                (current_count + added_instances(amount)) as u64,
            ),
    {
        let add: u64 = if amount >= 0 {
            amount as u64
        } else {
            0
        };
        let target = current_count + add;
        if target == current_count {
            None
        } else {
            Some(target)
        }
    }

    /// The container count to scale down to (never below zero), or nothing
    /// when the call would not change it.
    pub fn plan_scale_down(&self, current_count: u64, amount: i32) -> (r: Option<u64>)
        ensures
            docker_scale_down_target(current_count as int, amount) == current_count ==> r is None,
            docker_scale_down_target(current_count as int, amount) != current_count ==> r == Some(
                docker_scale_down_target(current_count as int, amount) as u64,
            ),
    {
        let sub: u64 = if amount >= 0 {
            amount as u64
        } else {
            u64::MAX
        };
        let target = current_count.saturating_sub(sub);
        if target == current_count {
            None
        } else {
            Some(target)
        }
    }
}

/// The desired count a cloud-container scale-down aims for: the saturating
/// difference, floored at zero.
pub open spec fn fargate_scale_down_target(desired: int, amount: int) -> int {
    let t = desired - amount;
    let clamped = if t > 0x7fff_ffff {
        0x7fff_ffff
    } else if t < -0x8000_0000 {
        -0x8000_0000
    } else {
        t
    };
    if clamped > 0 {
        clamped
    } else {
        0
    }
}

/// Scales a service that runs as cloud container tasks: the shell reads the
/// provider's desired count and applies the target these planners return.
#[derive(Clone, Copy, Debug)]
pub struct FargateScaler;

impl FargateScaler {
    pub fn new() -> (r: FargateScaler)
        ensures
            r == (FargateScaler {  }),
    {
        FargateScaler {  }
    }

    /// The desired count to scale up to, or nothing when the call would not
    /// change it.
    pub fn plan_scale_up(&self, desired_count: i32, amount: i32) -> (r: Option<i32>)
        requires
            i32::MIN <= desired_count + amount <= i32::MAX,
        ensures
            amount == 0 ==> r is None,
            amount != 0 ==> r == Some((desired_count + amount) as i32),
    {
        let target = desired_count + amount;
        if target == desired_count {
            None
        } else {
            Some(target)
        }
    }

    /// The desired count to scale down to (never below zero), or nothing
    /// when the call would not change it.
    pub fn plan_scale_down(&self, desired_count: i32, amount: i32) -> (r: Option<i32>)
        ensures
            fargate_scale_down_target(desired_count as int, amount as int) == desired_count ==> r
                is None,
            fargate_scale_down_target(desired_count as int, amount as int) != desired_count ==> r
                == Some(fargate_scale_down_target(desired_count as int, amount as int) as i32),
    {
        let t: i64 = desired_count as i64 - amount as i64;
        let clamped: i64 = if t > 0x7fff_ffff {
            0x7fff_ffff
        } else if t < -0x8000_0000 {
            -0x8000_0000
        } else {
            t
        };
        let target: i32 = if clamped > 0 {
            clamped as i32
        } else {
            0
        };
        if target == desired_count {
            None
        } else {
            Some(target)
        }
    }
}

/// A forced scale-down (the largest possible amount, as the cooldown reaper
/// issues it) always aims for zero instances: for a cloud service whatever
/// its desired count was, and for a local service with any realistic
/// container count.
pub proof fn lemma_forced_scale_down_reaches_zero(desired_count: i32, current_count: u64)
    requires
        current_count <= 0x7fff_ffff,
    ensures
        fargate_scale_down_target(desired_count as int, 0x7fff_ffff) == 0,
        docker_scale_down_target(current_count as int, 0x7fff_ffffi32) == 0,
{
}

/// Which provider the registry holds a scaler for: the local-container
/// scaler exists only in local mode, the cloud scaler otherwise.
pub fn scaler_available(local_mode: bool, provider_type: ProviderType) -> (r: bool)
    ensures
        r == if local_mode {
            provider_type is DockerLocal
        } else {
            provider_type is AWSFargate
        },
{
    if local_mode {
        matches!(provider_type, ProviderType::DockerLocal)
    } else {
        matches!(provider_type, ProviderType::AWSFargate)
    }
}

/// A service's cooldown deadline is cleared by the scale-down paths exactly
/// when the provider reports a desired count of zero.
pub fn should_clear_descale(desired_count: Option<i32>) -> (r: bool)
    ensures
        r == (desired_count matches Some(d) && d == 0),
{
    match desired_count {
        Some(d) => d == 0,
        None => false,
    }
}

/// The cluster and region a cloud service lives in; a cloud scaler call
/// cannot be made without them.
pub fn service_cluster_region(details: &ServiceDetails) -> (r: Result<
    (&String, &String),
    ServiceScalerError,
>)
    ensures
        details.region is None ==> (r matches Err(ServiceScalerError::InvalidService(m)) && m@
            == "Region not found"@),
        details.region is Some && details.cluster is None ==> (r matches Err(
            ServiceScalerError::InvalidService(m),
        ) && m@ == "Cluster not found"@),
        details.region is Some && details.cluster is Some ==> (r matches Ok((c, g)) && *c
            == details.cluster->0 && *g == details.region->0),
{
    match &details.region {
        None => Err(ServiceScalerError::InvalidService("Region not found".to_owned())),
        Some(region) => {
            match &details.cluster {
                None => Err(ServiceScalerError::InvalidService("Cluster not found".to_owned())),
                Some(cluster) => Ok((cluster, region)),
            }
        },
    }
}

/// How many newline bytes a text holds.
pub open spec fn newline_count(bytes: Seq<u8>) -> int
    decreases bytes.len(),
{
    if bytes.len() == 0 {
        0
    } else {
        newline_count(bytes.drop_last()) + if bytes.last() == 10u8 {
            1int
        } else {
            0int
        }
    }
}

/// How many lines a command's output holds: one per newline, plus a final
/// unterminated line if any.
pub open spec fn line_count(bytes: Seq<u8>) -> int {
    if bytes.len() == 0 {
        0
    } else {
        newline_count(bytes) + if bytes.last() == 10u8 {
            0int
        } else {
            1int
        }
    }
}

pub proof fn lemma_newline_count_bound(bytes: Seq<u8>)
    ensures
        0 <= newline_count(bytes) <= bytes.len(),
    decreases bytes.len(),
{
    if bytes.len() > 0 {
        lemma_newline_count_bound(bytes.drop_last());
    }
}

/// Count the lines of a command's raw output — the local-container scaler
/// reads its instance count as the number of container ids printed, one per
/// line.
pub fn count_output_lines(bytes: &[u8]) -> (n: usize)
    ensures
        n == line_count(bytes@),
{
    proof {
        lemma_newline_count_bound(bytes@);
    }
    let len = bytes.len();
    let mut newlines: usize = 0;
    let mut i: usize = 0;
    while i < len
        invariant
            len == bytes@.len(),
            i <= len,
            newlines == newline_count(bytes@.take(i as int)),
            newlines <= i,
        decreases len - i,
    {
        proof {
            assert(bytes@.take(i + 1).drop_last() =~= bytes@.take(i as int));
            assert(bytes@.take(i + 1).last() == bytes@[i as int]);
            lemma_newline_count_bound(bytes@.take(i as int));
        }
        if bytes[i] == 10u8 {
            newlines = newlines + 1;
        }
        i = i + 1;
    }
    proof {
        assert(bytes@.take(len as int) =~= bytes@);
    }
    if len == 0 {
        0
    } else if bytes[len - 1] == 10u8 {
        newlines
    } else {
        proof {
            assert(bytes@.drop_last() =~= bytes@.take(len - 1));
            lemma_newline_count_bound(bytes@.drop_last());
            assert(newline_count(bytes@) == newline_count(bytes@.drop_last()));
        }
        newlines + 1
    }
}

} // verus!
