//! Asking the daemon which connection mode to try next.

use crate::proxy::ProxyConfig;
use vstd::prelude::*;

verus! {

/// A request for the connection mode to try next.
#[derive(Clone, Copy, Debug, PartialEq, Eq, Structural)]
pub struct ApiProxyRequest {
    /// How many requests came before this one, counted up to the largest
    /// number and then from zero again.
    pub retry_attempt: u32,
}

/// The number after `attempt`, which is zero after the largest number.
pub open spec fn next_attempt(attempt: u32) -> u32 {
    if attempt == u32::MAX {
        0
    } else {
        (attempt + 1) as u32
    }
}

/// Issues the requests for the next connection mode, and numbers them.
#[derive(Debug)]
pub struct MullvadProxyConfigProvider {
    retry_attempt: u32,
}

impl View for MullvadProxyConfigProvider {
    type V = u32;

    closed spec fn view(&self) -> u32 {
        self.retry_attempt
    }
}

impl MullvadProxyConfigProvider {
    /// A provider whose first request has the number zero.
    pub fn new() -> (provider: Self)
        ensures
            provider@ == 0,
    {
        Self { retry_attempt: 0 }
    }

    /// The next request.
    pub fn next(&mut self) -> (request: ApiProxyRequest)
        ensures
            request.retry_attempt == old(self)@,
            final(self)@ == next_attempt(old(self)@),
    {
        let prev = self.retry_attempt;
        self.retry_attempt = if prev == u32::MAX {
            0
        } else {
            prev + 1
        };
        ApiProxyRequest { retry_attempt: prev }
    }

    /// The connection mode to use, given the answer to a request: where
    /// no answer came, it is the direct one.
    pub fn received(answer: Option<ProxyConfig>) -> (config: ProxyConfig)
        ensures
            config == match answer {
                Some(config) => config,
                None => ProxyConfig::Direct,
            },
    {
        match answer {
            Some(config) => config,
            None => ProxyConfig::Direct,
        }
    }
}

} // verus!
