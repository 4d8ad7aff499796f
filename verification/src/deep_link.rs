//! Links that wake the agent: `rswebtwain://action?key=value&...`.

use vstd::prelude::*;
use vstd::string::*;

use crate::address::{
    option_view, pairs_view, parse_url, url_host, url_pairs, url_path, url_scheme, url_text,
    UrlParts,
};
use crate::protocol::AgentMessage;
use crate::text::same_text;

verus! {

/// A path without the slashes that it begins with.
pub open spec fn without_slashes(path: Seq<char>) -> Seq<char>
    decreases path.len(),
{
    if path.len() > 0 && path[0] == '/' {
        without_slashes(path.skip(1))
    } else {
        path
    }
}

/// What a link asks for: its host, or, where it has none, its path.
pub open spec fn link_action(host: Option<Seq<char>>, path: Seq<char>) -> Option<Seq<char>> {
    if host is Some {
        host
    } else if without_slashes(path).len() > 0 {
        Some(without_slashes(path))
    } else {
        None
    }
}

/// What each key stands for; of pairs with the same key the last one counts.
pub open spec fn parameters(pairs: Seq<(Seq<char>, Seq<char>)>) -> Map<Seq<char>, Seq<char>>
    decreases pairs.len(),
{
    if pairs.len() == 0 {
        Map::empty()
    } else {
        parameters(pairs.drop_last()).insert(pairs.last().0, pairs.last().1)
    }
}

/// Whether no two pairs have the same key.
pub open spec fn distinct_keys(pairs: Seq<(Seq<char>, Seq<char>)>) -> bool {
    forall|i: int, j: int|
        0 <= i < j < pairs.len() ==> (#[trigger] pairs[i]).0 != (#[trigger] pairs[j]).0
}

proof fn lemma_parameters_lookup(pairs: Seq<(Seq<char>, Seq<char>)>, i: int)
    requires
        distinct_keys(pairs),
        0 <= i < pairs.len(),
    ensures
        parameters(pairs).dom().contains(pairs[i].0),
        parameters(pairs)[pairs[i].0] == pairs[i].1,
    decreases pairs.len(),
{
    if i < pairs.len() - 1 {
        let front = pairs.drop_last();
        assert(front[i] == pairs[i]);
        assert forall|a: int, b: int| 0 <= a < b < front.len() implies (#[trigger] front[a]).0 != (
        #[trigger] front[b]).0 by {
            assert(front[a] == pairs[a] && front[b] == pairs[b]);
        }
        lemma_parameters_lookup(front, i);
    }
}

proof fn lemma_parameters_keys(pairs: Seq<(Seq<char>, Seq<char>)>, key: Seq<char>)
    ensures
        parameters(pairs).dom().contains(key) <==> exists|i: int|
            0 <= i < pairs.len() && (#[trigger] pairs[i]).0 == key,
    decreases pairs.len(),
{
    if pairs.len() > 0 {
        let front = pairs.drop_last();
        lemma_parameters_keys(front, key);
        if pairs.last().0 == key {
            assert(pairs[pairs.len() - 1].0 == key);
        } else if parameters(front).dom().contains(key) {
            let i = choose|i: int| 0 <= i < front.len() && (#[trigger] front[i]).0 == key;
            assert(pairs[i].0 == key);
        } else if exists|i: int| 0 <= i < pairs.len() && (#[trigger] pairs[i]).0 == key {
            let i = choose|i: int| 0 <= i < pairs.len() && (#[trigger] pairs[i]).0 == key;
            assert(front[i].0 == key);
        }
    }
}

proof fn lemma_parameters_update(pairs: Seq<(Seq<char>, Seq<char>)>, at: int, value: Seq<char>)
    requires
        distinct_keys(pairs),
        0 <= at < pairs.len(),
    ensures
        parameters(pairs.update(at, (pairs[at].0, value))) == parameters(pairs).insert(
            pairs[at].0,
            value,
        ),
{
    let after = pairs.update(at, (pairs[at].0, value));
    assert forall|i: int, j: int| 0 <= i < j < after.len() implies (#[trigger] after[i]).0 != (
    #[trigger] after[j]).0 by {
        assert(after[i].0 == pairs[i].0 && after[j].0 == pairs[j].0);
    }
    let left = parameters(after);
    let right = parameters(pairs).insert(pairs[at].0, value);
    assert forall|key: Seq<char>| #[trigger] left.dom().contains(key) == right.dom().contains(
        key,
    ) by {
        lemma_parameters_keys(after, key);
        lemma_parameters_keys(pairs, key);
        if left.dom().contains(key) {
            let i = choose|i: int| 0 <= i < after.len() && (#[trigger] after[i]).0 == key;
            assert(pairs[i].0 == key);
        }
        if right.dom().contains(key) {
            if key == pairs[at].0 {
                assert(after[at].0 == key);
            } else {
                let i = choose|i: int| 0 <= i < pairs.len() && (#[trigger] pairs[i]).0 == key;
                assert(after[i].0 == key);
            }
        }
    }
    assert(left.dom() =~= right.dom());
    assert forall|key: Seq<char>| left.dom().contains(key) implies #[trigger] left[key]
        == right[key] by {
        lemma_parameters_keys(after, key);
        let i = choose|i: int| 0 <= i < after.len() && (#[trigger] after[i]).0 == key;
        lemma_parameters_lookup(after, i);
        lemma_parameters_lookup(pairs, i);
        assert(pairs[i].0 == key);
        if i < at {
            assert(pairs[i].0 != pairs[at].0);
        } else if i > at {
            assert(pairs[at].0 != pairs[i].0);
        }
    }
    assert(left =~= right);
}

/// Gather the pairs of a query under their keys.
fn gather(query: &Vec<(String, String)>) -> (params: Vec<(String, String)>)
    ensures
        distinct_keys(pairs_view(params@)),
        parameters(pairs_view(params@)) == parameters(pairs_view(query@)),
{
    let mut params: Vec<(String, String)> = Vec::new();
    let mut i: usize = 0;
    let ghost pairs = pairs_view(query@);
    proof {
        assert(pairs.take(0).len() == 0);
        assert(pairs_view(params@).len() == 0);
    }
    while i < query.len()
        invariant
            i <= query@.len(),
            pairs == pairs_view(query@),
            distinct_keys(pairs_view(params@)),
            parameters(pairs_view(params@)) == parameters(pairs.take(i as int)),
        decreases query.len() - i,
    {
        let ghost before = pairs_view(params@);
        let key = &query[i].0;
        let value = &query[i].1;
        proof {
            assert(pairs.take(i + 1).drop_last() =~= pairs.take(i as int));
            assert(pairs.take(i + 1).last() == (key@, value@));
        }
        let mut at: usize = 0;
        while at < params.len() && !same_text(params[at].0.as_str(), key.as_str())
            invariant
                at <= params@.len(),
                forall|j: int| 0 <= j < at ==> (#[trigger] pairs_view(params@)[j]).0 != key@,
            decreases params.len() - at,
        {
            assert(pairs_view(params@)[at as int].0 == params@[at as int].0@);
            at += 1;
        }
        if at < params.len() {
            proof {
                assert(before[at as int].0 == key@);
                lemma_parameters_update(before, at as int, value@);
            }
            let kept = params[at].0.clone();
            params.set(at, (kept, value.clone()));
            proof {
                let after = pairs_view(params@);
                assert(after =~= before.update(at as int, (before[at as int].0, value@)));
                assert forall|a: int, b: int| 0 <= a < b < after.len() implies (
                #[trigger] after[a]).0 != (#[trigger] after[b]).0 by {
                    assert(after[a].0 == before[a].0 && after[b].0 == before[b].0);
                }
            }
        } else {
            params.push((key.clone(), value.clone()));
            proof {
                let after = pairs_view(params@);
                assert(after =~= before.push((key@, value@)));
                assert(after.drop_last() =~= before);
                assert forall|a: int, b: int| 0 <= a < b < after.len() implies (
                #[trigger] after[a]).0 != (#[trigger] after[b]).0 by {
                    assert(after[a] == before[a]);
                    if b < before.len() {
                        assert(after[b] == before[b]);
                    }
                }
            }
        }
        i += 1;
    }
    proof {
        assert(pairs.take(i as int) =~= pairs);
    }
    params
}

fn trim_slashes(path: &str) -> (r: String)
    ensures
        r@ == without_slashes(path@),
{
    let mut r = String::new();
    let mut leading = true;
    proof {
        assert(path@.skip(0) =~= path@);
    }
    for c in it: path.chars()
        invariant
            it.seq() == path@,
            leading ==> r@.len() == 0 && without_slashes(path@) == without_slashes(
                path@.skip(it.index() as int),
            ),
            !leading ==> without_slashes(path@) == r@ + path@.skip(it.index() as int),
    {
        let ghost rest = path@.skip(it.index() as int);
        proof {
            assert(rest[0] == c);
            assert(rest.skip(1) =~= path@.skip(it.index() + 1));
        }
        let ghost before = r@;
        if leading && c == '/' {
        } else {
            r.push(c);
            proof {
                assert(before.push(c) + rest.skip(1) =~= before + rest);
            }
            leading = false;
        }
    }
    proof {
        assert(path@.skip(path@.len() as int).len() == 0);
        assert(r@ + path@.skip(path@.len() as int) =~= r@);
    }
    r
}

/// Whether a message tells clients of a link with these parts.
pub open spec fn tells_of(
    m: AgentMessage,
    text: Seq<char>,
    host: Option<Seq<char>>,
    path: Seq<char>,
    pairs: Seq<(Seq<char>, Seq<char>)>,
) -> bool {
    m matches AgentMessage::DeepLink { url, action, params } && url@ == text && option_view(action)
        == link_action(host, path) && distinct_keys(pairs_view(params@)) && parameters(
        pairs_view(params@),
    ) == parameters(pairs)
}

/// The message that tells clients of a link, given its parts.
pub fn link_message(parts: UrlParts) -> (m: AgentMessage)
    ensures
        tells_of(
            m,
            parts.text@,
            option_view(parts.host),
            parts.path@,
            pairs_view(parts.query@),
        ),
{
    let params = gather(&parts.query);
    let action = match parts.host {
        Some(host) => Some(host),
        None => {
            let path = trim_slashes(parts.path.as_str());
            if path.as_str().is_empty() {
                None
            } else {
                Some(path)
            }
        },
    };
    AgentMessage::DeepLink { url: parts.text, action, params }
}

/// The message that tells clients of a link; none where it is no URL.
pub fn deep_link(link: &str) -> (r: Option<AgentMessage>)
    ensures
        r is Some <==> url_scheme(link@) is Some,
        r matches Some(m) ==> tells_of(
            m,
            url_text(link@),
            url_host(link@),
            url_path(link@),
            url_pairs(link@),
        ),
{
    match parse_url(link) {
        Some(parts) => Some(link_message(parts)),
        None => None,
    }
}

/// Law: a link asks for its host, whatever its path; without one for its path, less the
/// slashes it begins with, and for nothing where nothing is left.
pub proof fn law_links_ask_for_host_or_path(
    host: Seq<char>,
    slashes: Seq<char>,
    rest: Seq<char>,
)
    requires
        forall|i: int| 0 <= i < slashes.len() ==> slashes[i] == '/',
        rest.len() > 0 ==> rest[0] != '/',
    ensures
        link_action(Some(host), slashes + rest) == Some(host),
        rest.len() > 0 ==> link_action(None, slashes + rest) == Some(rest),
        rest.len() == 0 ==> link_action(None, slashes + rest) is None,
{
    lemma_slashes(slashes, rest);
}

proof fn lemma_slashes(slashes: Seq<char>, rest: Seq<char>)
    requires
        forall|i: int| 0 <= i < slashes.len() ==> slashes[i] == '/',
        rest.len() > 0 ==> rest[0] != '/',
    ensures
        without_slashes(slashes + rest) == rest,
    decreases slashes.len(),
{
    if slashes.len() == 0 {
        assert(slashes + rest =~= rest);
    } else {
        assert((slashes + rest).skip(1) =~= slashes.skip(1) + rest);
        lemma_slashes(slashes.skip(1), rest);
    }
}

proof fn lemma_last_pair(pairs: Seq<(Seq<char>, Seq<char>)>, i: int)
    requires
        0 <= i < pairs.len(),
        forall|k: int| i < k < pairs.len() ==> (#[trigger] pairs[k]).0 != pairs[i].0,
    ensures
        parameters(pairs).dom().contains(pairs[i].0),
        parameters(pairs)[pairs[i].0] == pairs[i].1,
    decreases pairs.len(),
{
    if i < pairs.len() - 1 {
        let front = pairs.drop_last();
        assert(front[i] == pairs[i]);
        assert forall|k: int| i < k < front.len() implies (#[trigger] front[k]).0 != front[i].0 by {
            assert(front[k] == pairs[k]);
        }
        lemma_last_pair(front, i);
        assert(pairs[pairs.len() - 1].0 != pairs[i].0);
    }
}

/// Law: clients are told of a link as it is written, and of its parameters: of every
/// pair whose key does not come again, once and with its own value.
pub proof fn law_parameters_are_those_of_the_link(
    m: AgentMessage,
    text: Seq<char>,
    host: Option<Seq<char>>,
    path: Seq<char>,
    pairs: Seq<(Seq<char>, Seq<char>)>,
    i: int,
)
    requires
        tells_of(m, text, host, path, pairs),
        0 <= i < pairs.len(),
        forall|k: int| i < k < pairs.len() ==> (#[trigger] pairs[k]).0 != pairs[i].0,
    ensures
        m matches AgentMessage::DeepLink { url, action, params } && url@ == text && (exists|j: int|
            0 <= j < params@.len() && (#[trigger] params@[j]).0@ == pairs[i].0 && params@[j].1@
                == pairs[i].1 && forall|l: int|
                0 <= l < params@.len() && l != j ==> (#[trigger] params@[l]).0@ != pairs[i].0),
{
    if let AgentMessage::DeepLink { url, action, params } = m {
        let told = pairs_view(params@);
        lemma_last_pair(pairs, i);
        lemma_parameters_keys(told, pairs[i].0);
        let j = choose|j: int| 0 <= j < told.len() && (#[trigger] told[j]).0 == pairs[i].0;
        lemma_parameters_lookup(told, j);
        assert(params@[j].0@ == told[j].0 && params@[j].1@ == told[j].1);
        assert forall|l: int| 0 <= l < params@.len() && l != j implies (
        #[trigger] params@[l]).0@ != pairs[i].0 by {
            assert(params@[l].0@ == told[l].0);
            if l < j {
                assert(told[l].0 != told[j].0);
            } else {
                assert(told[j].0 != told[l].0);
            }
        }
    }
}

/// Law: clients are told of no parameter that the link does not have, and of what the
/// link asks for.
pub proof fn law_no_parameters_are_made_up(
    m: AgentMessage,
    text: Seq<char>,
    host: Option<Seq<char>>,
    path: Seq<char>,
    pairs: Seq<(Seq<char>, Seq<char>)>,
    j: int,
)
    requires
        tells_of(m, text, host, path, pairs),
        m matches AgentMessage::DeepLink { params, .. } && 0 <= j < params@.len(),
    ensures
        m matches AgentMessage::DeepLink { url, action, params } && option_view(action)
            == link_action(host, path) && (exists|i: int|
            0 <= i < pairs.len() && (#[trigger] pairs[i]).0 == params@[j].0@),
{
    if let AgentMessage::DeepLink { url, action, params } = m {
        let told = pairs_view(params@);
        assert(told[j].0 == params@[j].0@);
        lemma_parameters_keys(told, told[j].0);
        lemma_parameters_keys(pairs, told[j].0);
    }
}

} // verus!
