//! Setting up the object storage that holds bundle archives: which region to
//! reach it in, and what to do when the bucket is missing.
use vstd::prelude::*;

use crate::types::AwsClientConfig;

verus! {

/// The storage configuration the command line gives: one exists only where a
/// region is named, with the custom endpoint if one is given too.
pub fn aws_client_config(endpoint: Option<String>, region: Option<String>) -> (res: Option<AwsClientConfig>)
    ensures
        match region {
            None => res is None,
            Some(r) => res matches Some(c) && c.region@ == r@ && match endpoint {
                Some(e) => c.endpoint matches Some(ce) && ce@ == e@,
                None => c.endpoint is None,
            },
        },
{
    match (endpoint, region) {
        (endpoint, Some(region)) => Some(AwsClientConfig { endpoint, region }),
        _ => None,
    }
}

/// Where the storage region comes from.
pub enum RegionSource {
    /// A region at a custom endpoint
    Custom { region: String, endpoint: String },
    /// A region given by name
    Named(String),
    /// The region the environment names (`AWS_REGION`, `AWS_ENDPOINT`)
    FromEnv,
}

/// The region source a configuration asks for: a custom endpoint where one is
/// given, else the named region; without configuration, the environment.
pub fn region_source(cfg: Option<AwsClientConfig>) -> (res: RegionSource)
    ensures
        match cfg {
            Some(c) => match c.endpoint {
                Some(e) => res matches RegionSource::Custom { region, endpoint } && region@ == c.region@ && endpoint@ == e@,
                None => res matches RegionSource::Named(r) && r@ == c.region@,
            },
            None => res is FromEnv,
        },
{
    match cfg {
        Some(AwsClientConfig { endpoint: Some(endpoint), region }) => RegionSource::Custom { region, endpoint },
        Some(AwsClientConfig { endpoint: None, region }) => RegionSource::Named(region),
        None => RegionSource::FromEnv,
    }
}

/// What to do with the bucket once it is known whether it exists.
#[derive(Debug, Clone, Copy, PartialEq, Eq, Structural)]
pub enum BucketAction {
    /// It exists: use it
    UseExisting,
    /// It is missing and may be created: create it (private, path style)
    Create,
    /// It is missing and may not be created: warn, and use it anyway
    WarnMissing,
}

/// What to do with the bucket, given whether it exists and whether a missing
/// one may be created.
pub open spec fn bucket_action_of(exists: bool, should_create: bool) -> BucketAction {
    if exists {
        BucketAction::UseExisting
    } else if should_create {
        BucketAction::Create
    } else {
        BucketAction::WarnMissing
    }
}

/// What to do with the bucket: create it only where it is missing and creation
/// is asked for.
pub fn bucket_action(exists: bool, should_create: bool) -> (res: BucketAction)
    ensures
        res == bucket_action_of(exists, should_create),
{
    if !exists && should_create {
        BucketAction::Create
    } else if !exists {
        BucketAction::WarnMissing
    } else {
        BucketAction::UseExisting
    }
}

} // verus!
