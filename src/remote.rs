//! Configuration of a remote subgraph.

use vstd::prelude::*;

use crate::fetch::{start_view, FetchConfig, RemoteFetch, DEFAULT_MAX_REDIRECT_NUM, DEFAULT_MAX_RETRY_NUM};
use crate::redirect::Target;

verus! {

/// Builder of a remote subgraph: its name, its URL and the budgets of each
/// call.
#[derive(Debug, PartialEq, Eq)]
pub struct RemoteGraphBuilder {
    pub url: Target,
    pub name: String,
    pub config: FetchConfig,
}

impl RemoteGraphBuilder {
    /// A remote subgraph with the default budgets.
    pub fn new(name: String, url: Target) -> (r: RemoteGraphBuilder)
        ensures
            r.name == name,
            r.url == url,
            r.config.max_retry_num == DEFAULT_MAX_RETRY_NUM,
            r.config.max_redirect_num == DEFAULT_MAX_REDIRECT_NUM,
    {
        RemoteGraphBuilder { url, name, config: FetchConfig::new() }
    }

    /// Sets how many attempts a call makes on transport failures and on 503.
    pub fn max_retry_num(self, max_retry_num: usize) -> (r: RemoteGraphBuilder)
        ensures
            r.config.max_retry_num == max_retry_num,
            r.config.max_redirect_num == self.config.max_redirect_num,
            r.name == self.name,
            r.url == self.url,
    {
        let mut b = self;
        b.config.max_retry_num = max_retry_num;
        b
    }

    /// Sets how many redirects a call follows.
    pub fn max_redirect_num(self, max_redirect_num: usize) -> (r: RemoteGraphBuilder)
        ensures
            r.config.max_redirect_num == max_redirect_num,
            r.config.max_retry_num == self.config.max_retry_num,
            r.name == self.name,
            r.url == self.url,
    {
        let mut b = self;
        b.config.max_redirect_num = max_redirect_num;
        b
    }

    /// The subgraph's name.
    pub fn name(&self) -> (r: &str)
        ensures
            r@ == self.name@,
    {
        self.name.as_str()
    }

    /// Starts one call of this subgraph.
    pub fn fetch(&self) -> (r: RemoteFetch)
        ensures
            r.wf(),
            r@ == start_view(self.name@, self.url@, self.config),
    {
        RemoteFetch::start(self.name.clone(), self.url.duplicate(), self.config)
    }
}

} // verus!
