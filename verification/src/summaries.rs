//! The list of installed plugins: one summary per plugin, ordered by URI.
use vstd::prelude::*;
use crate::extract::{classes_match, plugin_classes};
use crate::model::{PluginIdentity, PluginSummary};
use crate::node::{node_string, node_text, opt_text};
use crate::text::{
    lemma_lex_le_reflexive, lemma_lex_le_total, lemma_lex_le_transitive, order_key, string_le,
    text_le,
};

verus! {

/// A summary is the rendering of what identifies the plugin.
pub open spec fn summary_matches(s: PluginSummary, id: PluginIdentity) -> bool {
    &&& s.uri@ == node_text(id.uri)
    &&& opt_text(s.name) == Some(node_text(id.name))
    &&& classes_match(s.classes@, id.class)
    &&& opt_text(s.bundle_uri) == Some(node_text(id.bundle_uri))
    &&& opt_text(s.bundle_path) == opt_text(id.bundle_path)
}

/// `p` reorders `n` positions: each position appears exactly once.
pub open spec fn is_permutation(p: Seq<int>, n: nat) -> bool {
    &&& p.len() == n
    &&& forall|k: int| 0 <= k < n ==> 0 <= #[trigger] p[k] < n
    &&& forall|a: int, b: int| #![trigger p[a], p[b]] 0 <= a < b < n ==> p[a] != p[b]
}

/// The summaries are in increasing order of URI.
pub open spec fn uri_sorted(s: Seq<PluginSummary>) -> bool {
    forall|a: int, b: int| #![trigger s[a], s[b]] 0 <= a < b < s.len() ==> text_le(s[a].uri@, s[b].uri@)
}

/// Summaries with equal URIs keep the order that `p` gave them.
pub open spec fn stable_under(s: Seq<PluginSummary>, p: Seq<int>) -> bool {
    forall|a: int, b: int|
        #![trigger s[a], s[b]]
        0 <= a < b < s.len() && s[a].uri@ == s[b].uri@ ==> p[a] < p[b]
}

/// `out` is `inp` reordered by `p`, sorted by URI, with summaries of equal
/// URI in the order they had in `inp`.
pub open spec fn stable_uri_sort(out: Seq<PluginSummary>, inp: Seq<PluginSummary>, p: Seq<int>) -> bool {
    &&& is_permutation(p, inp.len())
    &&& out.len() == inp.len()
    &&& forall|k: int| 0 <= k < out.len() ==> #[trigger] out[k] == inp[p[k]]
    &&& uri_sorted(out)
    &&& stable_under(out, p)
}

/// Sorts summaries by URI, in string order; summaries with equal URIs keep
/// their relative order.
pub fn sort_summaries_by_uri(v: Vec<PluginSummary>) -> (r: Vec<PluginSummary>)
    ensures
        exists|p: Seq<int>| stable_uri_sort(r@, v@, p),
{
    let ghost orig = v@;
    let mut rest = v;
    let mut out: Vec<PluginSummary> = Vec::new();
    let ghost mut p: Seq<int> = Seq::empty();
    while rest.len() > 0
        invariant
            rest@.len() <= orig.len(),
            rest@ == orig.take(rest@.len() as int),
            out@.len() + rest@.len() == orig.len(),
            p.len() == out@.len(),
            forall|k: int| 0 <= k < p.len() ==> rest@.len() <= #[trigger] p[k] < orig.len(),
            forall|a: int, b: int| #![trigger p[a], p[b]] 0 <= a < b < p.len() ==> p[a] != p[b],
            forall|k: int| 0 <= k < out@.len() ==> #[trigger] out@[k] == orig[p[k]],
            uri_sorted(out@),
            stable_under(out@, p),
        decreases rest@.len(),
    {
        let ghost m = (rest@.len() - 1) as int;
        let x = match rest.pop() {
            Some(x) => x,
            None => {
                assert(false);
                return out;
            },
        };
        assert(x == orig[m]);
        assert(rest@ =~= orig.take(m));
        let ghost s = out@;
        let mut j: usize = 0;
        while j < out.len() && !string_le(&x.uri, &out[j].uri)
            invariant
                out@ == s,
                j <= s.len(),
                forall|i: int| 0 <= i < j ==> !#[trigger] text_le(x.uri@, s[i].uri@),
            decreases s.len() - j,
        {
            j = j + 1;
        }
        let ghost xu = x.uri@;
        proof {
            assert forall|i: int| 0 <= i < j implies text_le(s[i].uri@, xu) && s[i].uri@ != xu by {
                assert(!text_le(xu, s[i].uri@));
                lemma_lex_le_total(order_key(xu), order_key(s[i].uri@));
                if s[i].uri@ == xu {
                    lemma_lex_le_reflexive(order_key(xu));
                }
            }
            assert forall|i: int| j <= i < s.len() implies text_le(xu, s[i].uri@) by {
                if i > j {
                    assert(text_le(s[j as int].uri@, s[i].uri@));
                    lemma_lex_le_transitive(order_key(xu), order_key(s[j as int].uri@), order_key(s[i].uri@));
                }
            }
        }
        out.insert(j, x);
        let ghost t = out@;
        let ghost q = p.insert(j as int, m);
        assert(t == s.insert(j as int, x));
        proof {
            assert forall|k: int| 0 <= k < t.len() implies #[trigger] t[k] == orig[q[k]] by {
                if k < j {
                    assert(t[k] == s[k]);
                    assert(q[k] == p[k]);
                } else if k == j {
                } else {
                    assert(t[k] == s[k - 1]);
                    assert(q[k] == p[k - 1]);
                }
            }
            assert forall|k: int| 0 <= k < q.len() implies m <= #[trigger] q[k] < orig.len() by {
                if k < j {
                    assert(q[k] == p[k]);
                } else if k > j {
                    assert(q[k] == p[k - 1]);
                }
            }
            assert forall|a: int, b: int| #![trigger q[a], q[b]] 0 <= a < b < q.len() implies q[a] != q[b] by {
                if a < j && b < j {
                    assert(p[a] != p[b]);
                } else if a < j && b > j {
                    assert(p[a] != p[b - 1]);
                } else if a > j {
                    assert(p[a - 1] != p[b - 1]);
                } else if a < j && b == j {
                    assert(q[a] == p[a]);
                } else {
                    assert(q[b] == p[b - 1]);
                }
            }
            assert forall|a: int, b: int| #![trigger t[a], t[b]] 0 <= a < b < t.len() implies text_le(t[a].uri@, t[b].uri@) by {
                if a < j && b < j {
                    assert(text_le(s[a].uri@, s[b].uri@));
                } else if a < j && b == j {
                } else if a < j && b > j {
                    assert(text_le(s[a].uri@, xu));
                    assert(text_le(xu, s[b - 1].uri@));
                    lemma_lex_le_transitive(order_key(s[a].uri@), order_key(xu), order_key(s[b - 1].uri@));
                } else if a == j {
                } else {
                    assert(text_le(s[a - 1].uri@, s[b - 1].uri@));
                }
            }
            assert forall|a: int, b: int|
                #![trigger t[a], t[b]]
                0 <= a < b < t.len() && t[a].uri@ == t[b].uri@ implies q[a] < q[b] by {
                if a < j && b < j {
                    assert(s[a] == t[a] && s[b] == t[b]);
                    assert(p[a] < p[b]);
                } else if a < j && b == j {
                    assert(s[a].uri@ != xu);
                } else if a < j && b > j {
                    assert(s[a] == t[a] && s[b - 1] == t[b]);
                    assert(p[a] < p[b - 1]);
                } else if a == j {
                    assert(q[b] == p[b - 1]);
                } else {
                    assert(s[a - 1] == t[a] && s[b - 1] == t[b]);
                    assert(p[a - 1] < p[b - 1]);
                }
            }
            p = q;
        }
    }
    assert(is_permutation(p, orig.len()));
    assert(stable_uri_sort(out@, orig, p));
    out
}

/// The summary of one plugin.
pub fn summarize_plugin(id: &PluginIdentity) -> (s: PluginSummary)
    ensures
        summary_matches(s, *id),
{
    let bundle_path = match &id.bundle_path {
        Some(path) => Some(path.clone()),
        None => None,
    };
    PluginSummary {
        uri: node_string(&id.uri),
        name: Some(node_string(&id.name)),
        classes: plugin_classes(&id.class),
        bundle_uri: Some(node_string(&id.bundle_uri)),
        bundle_path,
    }
}

/// The list of installed plugins: the summary of each plugin, in increasing
/// order of URI; plugins with equal URIs stay in the order given.
pub fn extract_plugin_summaries(plugins: &Vec<PluginIdentity>) -> (r: Vec<PluginSummary>)
    ensures
        exists|p: Seq<int>|
            {
                &&& is_permutation(p, plugins@.len())
                &&& r@.len() == plugins@.len()
                &&& forall|k: int| 0 <= k < r@.len() ==> #[trigger] summary_matches(r@[k], plugins@[p[k]])
                &&& uri_sorted(r@)
                &&& stable_under(r@, p)
            },
{
    let mut summaries: Vec<PluginSummary> = Vec::new();
    let mut i: usize = 0;
    while i < plugins.len()
        invariant
            i <= plugins@.len(),
            summaries@.len() == i,
            forall|k: int| 0 <= k < i ==> #[trigger] summary_matches(summaries@[k], plugins@[k]),
        decreases plugins@.len() - i,
    {
        summaries.push(summarize_plugin(&plugins[i]));
        i = i + 1;
    }
    let ghost mapped = summaries@;
    let r = sort_summaries_by_uri(summaries);
    let ghost p = choose|p: Seq<int>| stable_uri_sort(r@, mapped, p);
    assert forall|k: int| 0 <= k < r@.len() implies #[trigger] summary_matches(r@[k], plugins@[p[k]]) by {
        assert(r@[k] == mapped[p[k]]);
        assert(0 <= p[k] < plugins@.len());
    }
    r
}

} // verus!
