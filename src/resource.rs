use vstd::prelude::*;

use crate::metric::{CheckResult, CheckResultView};
use crate::state::{label, rank, worse, ServiceState};
use crate::text::{push_char, push_text, trim, trimmed};

verus! {

/// What a [Resource] holds.
pub struct ResourceView {
    pub name: Seq<char>,
    pub results: Seq<CheckResultView>,
    pub fixed_state: Option<ServiceState>,
    pub description: Option<Seq<char>>,
}

/// The worst state among the results that carry one, starting from `Ok`.
pub open spec fn fold_state(results: Seq<CheckResultView>) -> ServiceState
    decreases results.len(),
{
    if results.len() == 0 {
        ServiceState::Okay
    } else {
        let prev = fold_state(results.drop_last());
        match results.last().state {
            Some(s) => worse(prev, s),
            None => prev,
        }
    }
}

/// The overall state of a resource: its fixed state if it has one, else the worst state of its
/// results.
pub open spec fn overall_state(r: ResourceView) -> ServiceState {
    match r.fixed_state {
        Some(s) => s,
        None => fold_state(r.results),
    }
}

/// Each message, trimmed and followed by a line break, in the order of the results.
pub open spec fn messages_of(results: Seq<CheckResultView>) -> Seq<char>
    decreases results.len(),
{
    if results.len() == 0 {
        seq![]
    } else {
        messages_of(results.drop_last()) + match results.last().message {
            Some(m) => trimmed(m).push('\n'),
            None => seq![],
        }
    }
}

/// Each performance-data fragment, trimmed and preceded by a space, in the order of the results.
pub open spec fn perf_of(results: Seq<CheckResultView>) -> Seq<char>
    decreases results.len(),
{
    if results.len() == 0 {
        seq![]
    } else {
        perf_of(results.drop_last()) + match results.last().perf {
            Some(p) => seq![' '] + trimmed(p),
            None => seq![],
        }
    }
}

/// `<name> is <STATE>`, followed by `: <description>` when there is a description.
pub open spec fn headline(r: ResourceView) -> Seq<char> {
    r.name + " is "@ + label(overall_state(r)) + match r.description {
        Some(d) => ": "@ + trimmed(d),
        None => seq![],
    }
}

/// The full report of a resource: the headline, a blank line and the messages if there are any,
/// then `|` and the performance data.
pub open spec fn report(r: ResourceView) -> Seq<char> {
    let messages = messages_of(r.results);
    headline(r) + (if messages.len() == 0 {
        seq![]
    } else {
        seq!['\n', '\n']
    }) + trimmed(messages) + seq!['|'] + perf_of(r.results)
}

/// Represents a single service / resource from the perspective of Icinga.
#[derive(Debug, PartialEq, Eq)]
pub struct Resource {
    name: String,
    results: Vec<CheckResult>,
    fixed_state: Option<ServiceState>,
    description: Option<String>,
}

impl View for Resource {
    type V = ResourceView;

    closed spec fn view(&self) -> ResourceView {
        ResourceView {
            name: self.name@,
            results: self.results@.map_values(|c: CheckResult| c@),
            fixed_state: self.fixed_state,
            description: match self.description {
                Some(d) => Some(d@),
                None => None,
            },
        }
    }
}

impl Resource {
    /// Creates a new instance with the given name.
    pub fn new(name: &str) -> (r: Resource)
        ensures
            r@ == (ResourceView {
                name: name@,
                results: seq![],
                fixed_state: None,
                description: None,
            }),
    {
        let r = Resource {
            name: name.to_owned(),
            results: Vec::new(),
            fixed_state: None,
            description: None,
        };
        assert(r@.results =~= seq![]);
        r
    }

    /// If a fixed state is set, the resource will always report the given state regardless of
    /// the actual state of the [CheckResult]s.
    pub fn with_fixed_state(self, state: ServiceState) -> (r: Resource)
        ensures
            r@ == (ResourceView { fixed_state: Some(state), ..self@ }),
    {
        let mut r = self;
        r.fixed_state = Some(state);
        r
    }

    pub fn with_result(self, result: CheckResult) -> (r: Resource)
        ensures
            r@ == (ResourceView { results: self@.results.push(result@), ..self@ }),
    {
        let mut r = self;
        r.push_result(result);
        r
    }

    pub fn with_description(self, description: &str) -> (r: Resource)
        ensures
            r@ == (ResourceView { description: Some(description@), ..self@ }),
    {
        let mut r = self;
        r.set_description(description);
        r
    }

    pub fn set_description(&mut self, description: &str)
        ensures
            final(self)@ == (ResourceView { description: Some(description@), ..old(self)@ }),
    {
        self.description = Some(description.to_owned());
    }

    pub fn push_result(&mut self, result: CheckResult)
        ensures
            final(self)@ == (ResourceView { results: old(self)@.results.push(result@), ..old(self)@ }),
    {
        self.results.push(result);
        assert(self@.results =~= old(self)@.results.push(result@));
    }

    /// Calculates the state and the report of this resource.
    pub fn nagios_result(self) -> (r: (ServiceState, String))
        ensures
            r.0 == overall_state(self@),
            r.1@ == report(self@),
    {
        let ghost results = self@.results;
        let mut final_state = ServiceState::Okay;
        let mut messages = String::new();
        let mut perf_string = String::new();
        let n = self.results.len();
        let mut i: usize = 0;
        while i < n
            invariant
                n == self.results.len(),
                results == self@.results,
                i <= n,
                final_state == fold_state(results.subrange(0, i as int)),
                messages@ == messages_of(results.subrange(0, i as int)),
                perf_string@ == perf_of(results.subrange(0, i as int)),
            decreases n - i,
        {
            let result = &self.results[i];
            assert(results.subrange(0, i + 1).drop_last() =~= results.subrange(0, i as int));
            assert(results[i as int] == result@);
            match result.state() {
                Some(s) => {
                    final_state = final_state.max(s);
                },
                None => {},
            }
            match result.message() {
                Some(m) => {
                    push_text(&mut messages, trim(m));
                    push_char(&mut messages, '\n');
                },
                None => {},
            }
            match result.perf_string() {
                Some(p) => {
                    push_char(&mut perf_string, ' ');
                    push_text(&mut perf_string, trim(p.as_str()));
                    assert(perf_string@ =~= perf_of(results.subrange(0, i + 1)));
                },
                None => {},
            }
            i += 1;
        }
        assert(results.subrange(0, n as int) =~= results);
        match self.fixed_state {
            Some(s) => {
                final_state = s;
            },
            None => {},
        }
        let mut out = String::new();
        push_text(&mut out, self.name.as_str());
        push_text(&mut out, " is ");
        push_text(&mut out, final_state.as_str());
        match &self.description {
            Some(d) => {
                push_text(&mut out, ": ");
                push_text(&mut out, trim(d.as_str()));
            },
            None => {},
        }
        assert(out@ =~= headline(self@));
        if messages.as_str().unicode_len() != 0 {
            push_text(&mut out, "\n\n");
            proof {
                reveal_strlit("\n\n");
                assert("\n\n"@ =~= seq!['\n', '\n']);
            }
        }
        push_text(&mut out, trim(messages.as_str()));
        push_char(&mut out, '|');
        push_text(&mut out, perf_string.as_str());
        assert(out@ =~= report(self@));
        (final_state, out)
    }
}

/// The state that aggregation computes from an ordered list of results is the worst, by rank, of
/// the states that the results carry, and `Ok` when no result carries one.
pub proof fn lemma_aggregate_is_worst(results: Seq<CheckResultView>)
    ensures
        forall|i: int|
            0 <= i < results.len() && (#[trigger] results[i]).state is Some ==> rank(
                results[i].state->0,
            ) <= rank(fold_state(results)),
        fold_state(results) == ServiceState::Okay || exists|i: int|
            0 <= i < results.len() && (#[trigger] results[i]).state == Some(fold_state(results)),
        (forall|i: int| 0 <= i < results.len() ==> (#[trigger] results[i]).state is None)
            ==> fold_state(results) == ServiceState::Okay,
    decreases results.len(),
{
    if results.len() > 0 {
        let prefix = results.drop_last();
        lemma_aggregate_is_worst(prefix);
        let last = results.len() - 1;
        assert forall|i: int| 0 <= i < last implies results[i] == #[trigger] prefix[i] by {}
        assert forall|i: int|
            0 <= i < results.len() && (#[trigger] results[i]).state is Some implies rank(
                results[i].state->0,
            ) <= rank(fold_state(results)) by {
            if i < last {
                assert(results[i] == prefix[i]);
            }
        }
        if fold_state(results) != ServiceState::Okay {
            if fold_state(results) == fold_state(prefix) {
                let i = choose|i: int|
                    0 <= i < prefix.len() && (#[trigger] prefix[i]).state == Some(fold_state(prefix));
                assert(results[i] == prefix[i]);
            } else {
                assert(results[last].state == Some(fold_state(results)));
            }
        }
        if forall|i: int| 0 <= i < results.len() ==> (#[trigger] results[i]).state is None {
            assert forall|i: int| 0 <= i < prefix.len() implies (#[trigger] prefix[i]).state is None by {
                assert(results[i] == prefix[i]);
            }
            assert(results[last].state is None);
        }
    }
}

/// Aggregation is monotonic: results added after others never lower the computed state.
pub proof fn lemma_aggregate_monotonic(results: Seq<CheckResultView>, more: Seq<CheckResultView>)
    ensures
        rank(fold_state(results)) <= rank(fold_state(results + more)),
    decreases more.len(),
{
    if more.len() == 0 {
        assert(results + more =~= results);
    } else {
        lemma_aggregate_monotonic(results, more.drop_last());
        assert((results + more).drop_last() =~= results + more.drop_last());
    }
}

/// A fixed state on a resource is its overall state, whatever its results carry.
pub proof fn lemma_fixed_state_wins(r: ResourceView, s: ServiceState)
    ensures
        overall_state(ResourceView { fixed_state: Some(s), ..r }) == s,
{
}

} // verus!
