//! The filter as a stage of a request pipeline.

use vstd::prelude::*;
use crate::config::{FilterConfig, RedirectHTTPS};
use crate::rewrite::{location, redirect_location};

verus! {

/// The status code of a permanent redirect.
pub const MOVED_PERMANENTLY: u16 = 301;

/// What the filter reads of a request.
pub struct RequestInfo {
    /// The scheme of the connection on which the request came, such as `http`.
    pub scheme: String,
    /// The host that the request names, with its port if it names one.
    pub host: String,
    /// The request target: the path and, if there is one, the query.
    pub target: String,
}

/// The response of the filter to a request that it does not let through. It
/// has no body.
pub struct RedirectResponse {
    /// The status code.
    pub status: u16,
    /// The value of the `Location` header.
    pub location: String,
}

/// What the filter does with a request.
pub enum Verdict {
    /// The request goes on to the next stage unchanged.
    Forward,
    /// The request is answered with a redirect and goes no further.
    Redirect(RedirectResponse),
}

/// What became of a request that was handed to the filter together with the
/// way to reach the next stage.
pub enum Outcome<Req, Resp> {
    /// The request went on to the next stage, and this is what that stage
    /// returned.
    Forwarded(Resp),
    /// The next stage was not called. The request comes back as it was
    /// handed in, with the response that answers it.
    Redirected(Req, RedirectResponse),
}

/// Whether `scheme` is that of a secure connection.
pub open spec fn is_secure(scheme: Seq<char>) -> bool {
    scheme == "https"@
}

/// Whether a filter set up as `config` lets a request with this scheme
/// through: it does when the connection is already secure, or when the filter
/// is switched off.
pub open spec fn passes(config: FilterConfig, scheme: Seq<char>) -> bool {
    is_secure(scheme) || !config.enabled
}

/// The filter in front of a next stage of type `S`.
pub struct RedirectHTTPSService<S> {
    service: S,
    config: RedirectHTTPS,
}

impl<S> RedirectHTTPSService<S> {
    /// How the filter is set up.
    pub closed spec fn config(&self) -> FilterConfig {
        self.config@
    }

    /// The stage that requests are forwarded to.
    pub closed spec fn next_stage(&self) -> S {
        self.service
    }

    /// The filter set up as `config` in front of `service`.
    pub fn new(service: S, config: RedirectHTTPS) -> (stage: Self)
        ensures
            stage.config() == config@,
            stage.next_stage() == service,
    {
        RedirectHTTPSService { service, config }
    }

    /// The stage that requests are forwarded to.
    pub fn service(&self) -> (service: &S)
        ensures
            *service == self.next_stage(),
    {
        &self.service
    }

    /// Decides what happens to a request.
    pub fn decide(&self, request: &RequestInfo) -> (verdict: Verdict)
        ensures
            is_secure(request.scheme@) ==> verdict is Forward,
            !self.config().enabled ==> verdict is Forward,
            !is_secure(request.scheme@) && self.config().enabled ==> (verdict matches Verdict::Redirect(
                response,
            ) && response.status == MOVED_PERMANENTLY && response.location@ == location(
                request.host@,
                request.target@,
                self.config().replacements,
            )),
    {
        if *request.scheme.as_str() == *"https" || !self.config.is_enabled() {
            Verdict::Forward
        } else {
            Verdict::Redirect(
                RedirectResponse {
                    status: MOVED_PERMANENTLY,
                    location: redirect_location(
                        request.host.as_str(),
                        request.target.as_str(),
                        self.config.replacements(),
                    ),
                },
            )
        }
    }

    /// Handles one request. `info` is what the filter reads of the request,
    /// `request` the request itself, and `forward` hands a request to a
    /// stage.
    ///
    /// A request that passes is handed to the next stage through `forward`,
    /// and what that returns is returned unchanged. Any other request is
    /// answered with a permanent redirect; `forward` is then not called, and
    /// the request comes back beside the response.
    pub fn call<Req, Resp, F>(&self, info: &RequestInfo, request: Req, forward: F) -> (outcome:
        Outcome<Req, Resp>) where F: FnOnce(&S, Req) -> Resp
        requires
            passes(self.config(), info.scheme@) ==> forward.requires((&self.next_stage(), request)),
        ensures
            is_secure(info.scheme@) ==> (outcome matches Outcome::Forwarded(answer)
                && forward.ensures((&self.next_stage(), request), answer)),
            !self.config().enabled ==> (outcome matches Outcome::Forwarded(answer)
                && forward.ensures((&self.next_stage(), request), answer)),
            !is_secure(info.scheme@) && self.config().enabled ==> (outcome matches Outcome::Redirected(
                returned,
                response,
            ) && returned == request && response.status == MOVED_PERMANENTLY && response.location@
                == location(info.host@, info.target@, self.config().replacements)),
    {
        match self.decide(info) {
            Verdict::Forward => Outcome::Forwarded(forward(&self.service, request)),
            Verdict::Redirect(response) => Outcome::Redirected(request, response),
        }
    }
}

} // verus!
