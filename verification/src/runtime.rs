//! Setting up the address cache that connections are made from.
//!
//! The cache comes from the cache directory; where that fails, from the
//! list that is bundled with the program, reordered; where the endpoint is
//! fixed, it is that one address and nothing is read or written.

use crate::address_cache::{
    cache_from_file, static_cache, AddressCache, AddressCacheError, AddressCacheView, AddressFile,
};
use crate::endpoint::ApiEndpoint;
use crate::error::ErrorKind;
use vstd::prelude::*;

verus! {

/// Why there is no runtime.
#[derive(Clone, Copy, Debug, PartialEq, Eq, Structural)]
pub enum Error {
    /// Failed to load the address cache.
    AddressCacheError(AddressCacheError),
}

impl Error {
    /// The kind of this failure.
    pub fn kind(&self) -> (kind: ErrorKind)
        ensures
            kind == ErrorKind::Io,
    {
        ErrorKind::Io
    }
}

/// What connections to the API are made from.
#[derive(Debug)]
pub struct MullvadRpcRuntime {
    pub address_cache: AddressCache,
}

/// What to do next while the runtime is set up.
#[derive(Debug)]
pub enum CacheStartup {
    /// Read the list in the cache directory, then report with
    /// `cache_file_loaded`.
    ReadCacheFile { write_changes: bool, has_resource_dir: bool },
    /// Read the bundled list, then report with `bundled_file_loaded`.
    /// `error` says why the list in the cache directory was of no use.
    ReadBundledFile { write_changes: bool, error: AddressCacheError },
    /// The runtime stands, or cannot be had.
    Done(Result<MullvadRpcRuntime, Error>),
}

/// A step of the set-up, as plain values.
pub enum StartupView {
    ReadCacheFile { write_changes: bool, has_resource_dir: bool },
    ReadBundledFile { write_changes: bool, error: AddressCacheError },
    Done(Result<AddressCacheView, Error>),
}

impl View for CacheStartup {
    type V = StartupView;

    open spec fn view(&self) -> StartupView {
        match *self {
            CacheStartup::ReadCacheFile { write_changes, has_resource_dir } => {
                StartupView::ReadCacheFile { write_changes, has_resource_dir }
            },
            CacheStartup::ReadBundledFile { write_changes, error } => {
                StartupView::ReadBundledFile { write_changes, error }
            },
            CacheStartup::Done(Ok(runtime)) => StartupView::Done(Ok(runtime.address_cache@)),
            CacheStartup::Done(Err(error)) => StartupView::Done(Err(error)),
        }
    }
}

/// The first step: with a fixed endpoint the runtime stands at once;
/// otherwise the list in the cache directory is read.
pub open spec fn startup(api: ApiEndpoint, write_changes: bool, has_resource_dir: bool) -> StartupView {
    if api.disable_address_cache {
        StartupView::Done(Ok(static_cache(api.addr)))
    } else {
        StartupView::ReadCacheFile { write_changes, has_resource_dir }
    }
}

/// The step after the list in the cache directory was read: a list that
/// is of use makes the cache; one that is not sends to the bundled list
/// where there is one, and is the failure where there is none.
pub open spec fn after_cache_file(
    file: AddressFile,
    write_changes: bool,
    has_resource_dir: bool,
) -> StartupView {
    match cache_from_file(file, write_changes) {
        Ok(cache) => StartupView::Done(Ok(cache)),
        Err(error) => if has_resource_dir {
            StartupView::ReadBundledFile { write_changes, error }
        } else {
            StartupView::Done(Err(Error::AddressCacheError(error)))
        },
    }
}

/// The outcome after the bundled list was read: its candidates, reordered
/// by `picks`, or its failure.
pub open spec fn after_bundled_file(file: AddressFile, write_changes: bool, picks: Seq<u64>) -> Result<
    AddressCacheView,
    Error,
> {
    match cache_from_file(file, write_changes) {
        Ok(cache) => Ok(cache.randomized(picks)),
        Err(error) => Err(Error::AddressCacheError(error)),
    }
}

impl MullvadRpcRuntime {
    /// A runtime that uses the endpoint's address and keeps no cache file.
    pub fn new(api: &ApiEndpoint) -> (runtime: MullvadRpcRuntime)
        ensures
            runtime.address_cache@ == static_cache(api.addr),
            runtime.address_cache@.wf(),
    {
        MullvadRpcRuntime { address_cache: AddressCache::fixed(api.addr) }
    }

    /// Whether a failure of the list in the cache directory is worth a
    /// line in the log: a list that is simply not there is not.
    pub fn reports_cache_failure(error: AddressCacheError) -> (report: bool)
        ensures
            report == (error != AddressCacheError::NotFound),
    {
        match error {
            AddressCacheError::NotFound => false,
            _ => true,
        }
    }

    /// The first step of setting a runtime up with a cache of addresses.
    pub fn with_cache(api: &ApiEndpoint, write_changes: bool, has_resource_dir: bool) -> (step:
        CacheStartup)
        ensures
            step@ == startup(*api, write_changes, has_resource_dir),
            step matches CacheStartup::Done(Ok(runtime)) ==> runtime.address_cache@.wf(),
    {
        if api.disable_address_cache {
            CacheStartup::Done(Ok(Self::new(api)))
        } else {
            CacheStartup::ReadCacheFile { write_changes, has_resource_dir }
        }
    }

    /// The step after the list in the cache directory was read.
    pub fn cache_file_loaded(file: AddressFile, write_changes: bool, has_resource_dir: bool) -> (step:
        CacheStartup)
        ensures
            step@ == after_cache_file(file, write_changes, has_resource_dir),
            step matches CacheStartup::Done(Ok(runtime)) ==> runtime.address_cache@.wf(),
    {
        match AddressCache::from_file(file, write_changes) {
            Ok(address_cache) => CacheStartup::Done(Ok(MullvadRpcRuntime { address_cache })),
            Err(error) => {
                if has_resource_dir {
                    CacheStartup::ReadBundledFile { write_changes, error }
                } else {
                    CacheStartup::Done(Err(Error::AddressCacheError(error)))
                }
            },
        }
    }

    /// The outcome after the bundled list was read. Its candidates are
    /// reordered by `picks`, which the caller draws at random, so that not
    /// every installation starts with the same candidate.
    pub fn bundled_file_loaded(file: AddressFile, write_changes: bool, picks: &Vec<u64>) -> (made:
        Result<MullvadRpcRuntime, Error>)
        ensures
            match made {
                Ok(runtime) => after_bundled_file(file, write_changes, picks@) == Ok::<
                    AddressCacheView,
                    Error,
                >(runtime.address_cache@) && runtime.address_cache@.wf(),
                Err(error) => after_bundled_file(file, write_changes, picks@) == Err::<
                    AddressCacheView,
                    Error,
                >(error),
            },
    {
        match AddressCache::from_file(file, write_changes) {
            Ok(cache) => {
                let mut address_cache = cache;
                address_cache.randomize(picks);
                Ok(MullvadRpcRuntime { address_cache })
            },
            Err(error) => Err(Error::AddressCacheError(error)),
        }
    }
}

/// A list in the cache directory that is of no use, be it missing or
/// corrupt, never fails the set-up while there is a bundled list: that
/// list is read instead, and its candidates are used, reordered. Only
/// where there is no bundled list is the failure of the first list the
/// outcome, and then a corrupt list and a missing one are told apart by
/// nothing but the failure that is named.
pub proof fn lemma_unusable_cache_file_falls_back(
    file: AddressFile,
    bundled: AddressFile,
    write_changes: bool,
    picks: Seq<u64>,
)
    requires
        file.entries() is Err,
    ensures
        after_cache_file(file, write_changes, true) == (StartupView::ReadBundledFile {
            write_changes,
            error: file.entries()->Err_0,
        }),
        after_cache_file(file, write_changes, false) == StartupView::Done(
            Err(Error::AddressCacheError(file.entries()->Err_0)),
        ),
        bundled.entries() matches Ok(candidates) ==> {
            &&& after_bundled_file(bundled, write_changes, picks) matches Ok(cache)
            &&& cache.wf()
            &&& cache.addresses.to_multiset() == candidates.to_multiset()
            &&& cache.write_changes == write_changes
        },
        bundled.entries() matches Err(error) ==> after_bundled_file(bundled, write_changes, picks)
            == Err::<AddressCacheView, Error>(Error::AddressCacheError(error)),
{
    if bundled.entries() is Ok {
        let cache = cache_from_file(bundled, write_changes)->Ok_0;
        crate::address_cache::lemma_randomized_keeps_candidates(cache, picks);
    }
}

} // verus!
