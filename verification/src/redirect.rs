//! Redirection rules: matching a request path against the configured
//! rules, with one-hop loop detection.

use vstd::prelude::*;

use crate::config::{Redirection, Server};

verus! {

/// Whether some rule's source is `loc`.
pub open spec fn spec_matches_source(rules: Seq<Redirection>, loc: Seq<char>) -> bool {
    exists|i: int| 0 <= i < rules.len() && rules[i].source@ == loc
}

/// The target of the first rule whose source is `loc`; meaningful only
/// when one matches.
pub open spec fn spec_first_target(rules: Seq<Redirection>, loc: Seq<char>) -> Seq<char>
    decreases rules.len(),
{
    if rules.len() == 0 {
        Seq::empty()
    } else if rules[0].source@ == loc {
        rules[0].target@
    } else {
        spec_first_target(rules.drop_first(), loc)
    }
}

/// What the redirect gate decides for a request path: nothing, a loop, or
/// a target to redirect to.
pub enum RedirectDecision {
    /// No rule's source matches the path.
    Pass,
    /// The matched rule's target is itself some rule's source: a one-hop
    /// redirect loop.
    Loop,
    /// Redirect to the matched rule's target.
    Target(Seq<char>),
}

/// The redirect gate's decision on `loc`: the first rule whose source is
/// `loc` decides; its target redirects unless that target is again some
/// rule's source, which signals a loop.
pub open spec fn spec_redirect(rules: Seq<Redirection>, loc: Seq<char>) -> RedirectDecision {
    if !spec_matches_source(rules, loc) {
        RedirectDecision::Pass
    } else if spec_matches_source(rules, spec_first_target(rules, loc)) {
        RedirectDecision::Loop
    } else {
        RedirectDecision::Target(spec_first_target(rules, loc))
    }
}

/// The executable form of the redirect gate's decision.
pub enum RedirectOutcome {
    /// No rule applies; dispatch goes on.
    NoRule,
    /// A one-hop redirect loop: respond 508.
    LoopDetected,
    /// Respond 302 with this target as the new location.
    Redirect { target: String },
}

impl Server {
    /// Matches the request path against the redirection rules: the first
    /// rule whose source equals the path decides, and a target that is
    /// itself some rule's source is reported as a loop.
    pub fn handle_redirection(&self, location: &str) -> (r: RedirectOutcome)
        ensures
            (r is NoRule) <==> spec_redirect(self.redirections@, location@) is Pass,
            (r is LoopDetected) <==> spec_redirect(self.redirections@, location@) is Loop,
            r matches RedirectOutcome::Redirect { target } ==> spec_redirect(
                self.redirections@,
                location@,
            ) == RedirectDecision::Target(target@),
            spec_redirect(self.redirections@, location@) is Target ==> r is Redirect,
    {
        let rules = &self.redirections;
        let loc = location.to_owned();
        let mut i: usize = 0;
        while i < rules.len()
            invariant
                0 <= i <= rules@.len(),
                loc@ == location@,
                rules == &self.redirections,
                forall|j: int| 0 <= j < i ==> rules@[j].source@ != location@,
            decreases rules@.len() - i,
        {
            if rules[i].source.eq(&loc) {
                proof {
                    assert(spec_matches_source(rules@, location@));
                    lemma_first_target_of_min(rules@, location@, i as int);
                }
                let target = rules[i].target.clone();
                if Self::some_source_is(rules, &target) {
                    return RedirectOutcome::LoopDetected;
                } else {
                    return RedirectOutcome::Redirect { target };
                }
            }
            i += 1;
        }
        RedirectOutcome::NoRule
    }

    /// Whether some rule's source equals `t`.
    fn some_source_is(rules: &Vec<Redirection>, t: &String) -> (r: bool)
        ensures
            r == spec_matches_source(rules@, t@),
    {
        let mut i: usize = 0;
        while i < rules.len()
            invariant
                0 <= i <= rules@.len(),
                forall|j: int| 0 <= j < i ==> rules@[j].source@ != t@,
            decreases rules@.len() - i,
        {
            if rules[i].source.eq(t) {
                return true;
            }
            i += 1;
        }
        false
    }
}

/// When index `i` is the first rule matching `loc`, the first target is
/// that rule's target.
pub proof fn lemma_first_target_of_min(rules: Seq<Redirection>, loc: Seq<char>, i: int)
    requires
        0 <= i < rules.len(),
        rules[i].source@ == loc,
        forall|j: int| 0 <= j < i ==> rules[j].source@ != loc,
    ensures
        spec_first_target(rules, loc) == rules[i].target@,
    decreases i,
{
    if i == 0 {
    } else {
        lemma_first_target_of_min(rules.drop_first(), loc, i - 1);
    }
}

/// When every rule matching `a` targets `b`, the first target is `b`.
pub proof fn lemma_first_target_uniform(rules: Seq<Redirection>, a: Seq<char>, b: Seq<char>)
    requires
        spec_matches_source(rules, a),
        forall|i: int| 0 <= i < rules.len() && rules[i].source@ == a ==> rules[i].target@ == b,
    ensures
        spec_first_target(rules, a) == b,
    decreases rules.len(),
{
    if rules[0].source@ == a {
    } else {
        assert(spec_matches_source(rules.drop_first(), a)) by {
            let i = choose|i: int| 0 <= i < rules.len() && rules[i].source@ == a;
            assert(rules.drop_first()[i - 1].source@ == a);
        }
        assert(forall|i: int|
            0 <= i < rules.drop_first().len() && rules.drop_first()[i].source@ == a
                ==> #[trigger] rules.drop_first()[i].target@ == b) by {
            assert(forall|i: int|
                0 <= i < rules.drop_first().len() ==> rules.drop_first()[i] == rules[i + 1]);
        }
        lemma_first_target_uniform(rules.drop_first(), a, b);
    }
}

/// A rule a→b whose target is nobody's source redirects a request for `a`
/// to `b`: the single-hop case.
pub proof fn lemma_redirect_single_hop(rules: Seq<Redirection>, a: Seq<char>, b: Seq<char>)
    requires
        spec_matches_source(rules, a),
        forall|i: int| 0 <= i < rules.len() && rules[i].source@ == a ==> rules[i].target@ == b,
        forall|j: int| 0 <= j < rules.len() ==> rules[j].source@ != b,
    ensures
        spec_redirect(rules, a) == RedirectDecision::Target(b),
{
    lemma_first_target_uniform(rules, a, b);
}

/// Rules a→b and b→c chain: a request for `a` is answered as a loop, since
/// the one-hop check sees `b` as a target and as a source.
pub proof fn lemma_redirect_chain_loop(rules: Seq<Redirection>, a: Seq<char>, b: Seq<char>)
    requires
        spec_matches_source(rules, a),
        forall|i: int| 0 <= i < rules.len() && rules[i].source@ == a ==> rules[i].target@ == b,
        spec_matches_source(rules, b),
    ensures
        spec_redirect(rules, a) is Loop,
{
    lemma_first_target_uniform(rules, a, b);
}

} // verus!
