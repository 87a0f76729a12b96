//! The configuration of the redirect filter.

use vstd::prelude::*;
use crate::rewrite::rules_of;
use crate::service::RedirectHTTPSService;

verus! {

/// What a filter has been set up to do.
#[verifier::ext_equal]
pub struct FilterConfig {
    /// Whether insecure requests are redirected at all.
    pub enabled: bool,
    /// The replacement rules, in the order in which they are applied.
    pub replacements: Seq<(Seq<char>, Seq<char>)>,
}

impl FilterConfig {
    /// An enabled filter without replacement rules.
    pub open spec fn initial() -> FilterConfig {
        FilterConfig { enabled: true, replacements: Seq::empty() }
    }

    /// An enabled filter with the given replacement rules.
    pub open spec fn with_replacements(replacements: Seq<(Seq<char>, Seq<char>)>) -> FilterConfig {
        FilterConfig { enabled: true, replacements }
    }

    /// The same rules, switched on or off.
    pub open spec fn set_enabled(self, enabled: bool) -> FilterConfig {
        FilterConfig { enabled, replacements: self.replacements }
    }
}

/// Switching a filter on or off twice in the same way is switching it once.
pub proof fn lemma_set_enabled_idempotent(config: FilterConfig, enabled: bool)
    ensures
        config.set_enabled(enabled).set_enabled(enabled) == config.set_enabled(enabled),
{
}

/// A copy of a rule table: the same patterns and substitutes in the same
/// order.
fn copy_rules(rules: &[(String, String)]) -> (copy: Vec<(String, String)>)
    ensures
        rules_of(copy@) == rules_of(rules@),
{
    let mut copy: Vec<(String, String)> = Vec::new();
    let mut i: usize = 0;
    while i < rules.len()
        invariant
            i <= rules.len(),
            copy@.len() == i,
            forall|j: int|
                0 <= j < i ==> copy@[j].0@ == rules@[j].0@ && copy@[j].1@ == rules@[j].1@,
        decreases rules.len() - i,
    {
        copy.push((rules[i].0.clone(), rules[i].1.clone()));
        i += 1;
    }
    assert(rules_of(copy@) =~= rules_of(rules@));
    copy
}

/// Redirects every `http` request to `https`, with optional string
/// replacements on the redirect URL.
///
/// The replacements are useful when the server does not listen on the default
/// ports: the port in the host name can then be changed to the one that serves
/// `https`.
pub struct RedirectHTTPS {
    disabled: bool,
    replacements: Vec<(String, String)>,
}

impl View for RedirectHTTPS {
    type V = FilterConfig;

    closed spec fn view(&self) -> FilterConfig {
        FilterConfig { enabled: !self.disabled, replacements: rules_of(self.replacements@) }
    }
}

impl RedirectHTTPS {
    /// An enabled filter that also applies `replacements`, in their order, to
    /// the redirect URL.
    pub fn with_replacements(replacements: &[(String, String)]) -> (filter: Self)
        ensures
            filter@ == FilterConfig::with_replacements(rules_of(replacements@)),
    {
        RedirectHTTPS { disabled: false, replacements: copy_rules(replacements) }
    }

    /// Switches the filter on or off and leaves its replacement rules as they
    /// are.
    pub fn set_enabled(self, enabled: bool) -> (filter: Self)
        ensures
            filter@ == self@.set_enabled(enabled),
    {
        RedirectHTTPS { disabled: !enabled, replacements: self.replacements }
    }

    /// Whether the filter redirects insecure requests.
    pub fn is_enabled(&self) -> (enabled: bool)
        ensures
            enabled == self@.enabled,
    {
        !self.disabled
    }

    /// The replacement rules, in the order in which they are applied.
    pub fn replacements(&self) -> (rules: &[(String, String)])
        ensures
            rules_of(rules@) == self@.replacements,
    {
        self.replacements.as_slice()
    }

    /// Puts the filter in front of `service`: the stage that is built answers
    /// as this configuration says and forwards to `service` otherwise.
    pub fn new_transform<S>(&self, service: S) -> (stage: RedirectHTTPSService<S>)
        ensures
            stage.config() == self@,
            stage.next_stage() == service,
    {
        RedirectHTTPSService::new(service, self.clone())
    }
}

impl Default for RedirectHTTPS {
    /// An enabled filter without replacement rules.
    fn default() -> (filter: Self)
        ensures
            filter@ == FilterConfig::initial(),
    {
        let filter = RedirectHTTPS { disabled: false, replacements: Vec::new() };
        assert(filter@.replacements =~= Seq::empty());
        filter
    }
}

impl Clone for RedirectHTTPS {
    fn clone(&self) -> (copy: Self)
        ensures
            copy@ == self@,
    {
        RedirectHTTPS {
            disabled: self.disabled,
            replacements: copy_rules(self.replacements.as_slice()),
        }
    }
}

} // verus!
