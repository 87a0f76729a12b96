//! The secure URL of a request and the replacement rules applied to it.

use vstd::prelude::*;
use crate::replace::{replace_all, replace_chars};
use crate::text::{chars_of, string_of};

verus! {

/// A table of replacement rules as sequences of characters: each rule is a
/// pattern and what is put in its place.
pub open spec fn rules_of(pairs: Seq<(String, String)>) -> Seq<(Seq<char>, Seq<char>)> {
    Seq::new(pairs.len(), |i: int| (pairs[i].0@, pairs[i].1@))
}

/// The `https` URL that names the same resource as a request for `target`
/// sent to `host`.
pub open spec fn secure_url(host: Seq<char>, target: Seq<char>) -> Seq<char> {
    "https://"@ + host + target
}

/// `url` after the rules have been applied one after the other, each to the
/// result of the one before it.
pub open spec fn rewritten(url: Seq<char>, rules: Seq<(Seq<char>, Seq<char>)>) -> Seq<char>
    decreases rules.len(),
{
    if rules.len() == 0 {
        url
    } else {
        replace_all(rewritten(url, rules.drop_last()), rules.last().0, rules.last().1)
    }
}

/// Where a request for `target` sent to `host` is redirected to under `rules`.
pub open spec fn location(host: Seq<char>, target: Seq<char>, rules: Seq<(Seq<char>, Seq<char>)>) -> Seq<char> {
    rewritten(secure_url(host, target), rules)
}

/// Without rules a URL stays as it is.
pub proof fn lemma_rewritten_no_rules(url: Seq<char>)
    ensures
        rewritten(url, Seq::empty()) == url,
{
}

/// Without rules a request is redirected to its plain secure URL.
pub proof fn lemma_location_no_rules(host: Seq<char>, target: Seq<char>)
    ensures
        location(host, target, Seq::empty()) == secure_url(host, target),
{
}

/// A rule is applied to what the rules before it have made of the URL, not
/// to the URL as it was.
pub proof fn lemma_rewritten_step(
    url: Seq<char>,
    rules: Seq<(Seq<char>, Seq<char>)>,
    pattern: Seq<char>,
    substitute: Seq<char>,
)
    ensures
        rewritten(url, rules.push((pattern, substitute))) == replace_all(
            rewritten(url, rules),
            pattern,
            substitute,
        ),
{
    assert(rules.push((pattern, substitute)).drop_last() =~= rules);
}

/// Applying one table of rules after another is applying the two tables
/// joined: the second table works on the result of the first.
pub proof fn lemma_rewritten_concat(
    url: Seq<char>,
    first: Seq<(Seq<char>, Seq<char>)>,
    second: Seq<(Seq<char>, Seq<char>)>,
)
    ensures
        rewritten(url, first + second) == rewritten(rewritten(url, first), second),
    decreases second.len(),
{
    if second.len() == 0 {
        assert(first + second =~= first);
    } else {
        lemma_rewritten_concat(url, first, second.drop_last());
        assert((first + second).drop_last() =~= first + second.drop_last());
    }
}

/// The first rule is applied to the URL itself, and the rules behind it to
/// what the first rule made of it.
pub proof fn lemma_rewritten_first(url: Seq<char>, rules: Seq<(Seq<char>, Seq<char>)>)
    requires
        rules.len() > 0,
    ensures
        rewritten(url, rules) == rewritten(
            replace_all(url, rules.first().0, rules.first().1),
            rules.drop_first(),
        ),
{
    let head = seq![rules.first()];
    assert(head + rules.drop_first() =~= rules);
    lemma_rewritten_concat(url, head, rules.drop_first());
    assert(rewritten(url, head) == replace_all(url, rules.first().0, rules.first().1)) by {
        assert(head.drop_last() =~= Seq::empty());
        assert(rewritten(url, head.drop_last()) == url);
    }
}

/// Applies the rules to `url` in their order, each to the result of the one
/// before it.
pub fn rewrite(url: &str, rules: &[(String, String)]) -> (out: String)
    ensures
        out@ == rewritten(url@, rules_of(rules@)),
{
    let mut current = chars_of(url);
    let mut i: usize = 0;
    assert(rules_of(rules@).take(0) =~= Seq::empty());
    while i < rules.len()
        invariant
            i <= rules.len(),
            current@ == rewritten(url@, rules_of(rules@).take(i as int)),
        decreases rules.len() - i,
    {
        let pattern = chars_of(rules[i].0.as_str());
        let substitute = chars_of(rules[i].1.as_str());
        current = replace_chars(&current, &pattern, &substitute);
        proof {
            let done = rules_of(rules@).take(i + 1);
            assert(done.drop_last() =~= rules_of(rules@).take(i as int));
            assert(done.last() == (pattern@, substitute@));
        }
        i += 1;
    }
    assert(rules_of(rules@).take(rules@.len() as int) =~= rules_of(rules@));
    string_of(&current)
}

/// The value of the `Location` header for a request for `target` sent to
/// `host`: the secure URL of the request with the rules applied to it.
pub fn redirect_location(host: &str, target: &str, rules: &[(String, String)]) -> (out: String)
    ensures
        out@ == location(host@, target@, rules_of(rules@)),
{
    let mut url = String::from_str("https://");
    url.append(host);
    url.append(target);
    rewrite(url.as_str(), rules)
}

} // verus!
