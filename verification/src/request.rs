//! Addresses of the helper's local HTTP interface, and the list of public
//! relay nodes that every room request carries.

use vstd::prelude::*;

use crate::encoding::{url_encode, url_encoded};
use crate::error::TerracottaError;
use crate::text::{contains_char, decimal, push_char, push_decimal, same_text, trim, trimmed};

verus! {

/// The relay node used where no usable node is configured.
pub open spec fn default_public_node() -> Seq<char> {
    "wss://center.node.1tmc.top"@
}

/// The configured relay nodes, trimmed, without blank ones and without
/// repeats (the first occurrence stays), in their configured order.
pub open spec fn public_node_list(nodes: Seq<Seq<char>>) -> Seq<Seq<char>>
    decreases nodes.len(),
{
    if nodes.len() == 0 {
        Seq::empty()
    } else {
        let earlier = public_node_list(nodes.drop_last());
        let node = trimmed(nodes.last());
        if node.len() == 0 || earlier.contains(node) {
            earlier
        } else {
            earlier.push(node)
        }
    }
}

/// The relay nodes that a request names: the configured ones, or the
/// default node where none is usable.
pub open spec fn effective_public_nodes(nodes: Seq<Seq<char>>) -> Seq<Seq<char>> {
    if public_node_list(nodes).len() == 0 {
        seq![default_public_node()]
    } else {
        public_node_list(nodes)
    }
}

/// Whether `list` holds the text `s`.
fn contains_text(list: &Vec<String>, s: &str) -> (found: bool)
    ensures
        found == list.deep_view().contains(s@),
{
    let mut i: usize = 0;
    while i < list.len()
        invariant
            i <= list@.len(),
            forall|k: int| 0 <= k < i ==> list.deep_view()[k] != s@,
        decreases list@.len() - i,
    {
        if same_text(list[i].as_str(), s) {
            assert(list.deep_view()[i as int] == s@);
            return true;
        }
        i = i + 1;
    }
    false
}

/// The relay nodes to send with a request, from the configured list.
pub fn public_nodes(configured: &Vec<String>) -> (out: Vec<String>)
    ensures
        out.deep_view() == effective_public_nodes(configured.deep_view()),
{
    let ghost all = configured.deep_view();
    let mut out: Vec<String> = Vec::new();
    let mut i: usize = 0;
    while i < configured.len()
        invariant
            i <= configured@.len(),
            all == configured.deep_view(),
            out.deep_view() == public_node_list(all.take(i as int)),
        decreases configured@.len() - i,
    {
        let node = trim(configured[i].as_str());
        assert(all.take(i + 1).drop_last() == all.take(i as int));
        assert(all.take(i + 1).last() == configured@[i as int]@);
        if !node.as_str().is_empty() && !contains_text(&out, node.as_str()) {
            let ghost before = out.deep_view();
            out.push(node);
            assert(out.deep_view() == before.push(node@));
        }
        i = i + 1;
    }
    assert(all.take(configured@.len() as int) == all);
    if out.len() == 0 {
        out.push(String::from_str("wss://center.node.1tmc.top"));
        assert(out.deep_view() == seq![default_public_node()]);
    }
    out
}

/// The address of `path` on the helper listening on `port`.
pub open spec fn local_url_of(port: u16, path: Seq<char>) -> Seq<char> {
    "http://127.0.0.1:"@ + decimal(port as nat) + path
}

/// The query parameters naming the relay nodes: each is introduced by `?`
/// where it opens the query, else by `&`.
pub open spec fn node_query(has_query: bool, nodes: Seq<Seq<char>>) -> Seq<char>
    decreases nodes.len(),
{
    if nodes.len() == 0 {
        Seq::empty()
    } else {
        let sep = if has_query || nodes.len() > 1 {
            '&'
        } else {
            '?'
        };
        node_query(has_query, nodes.drop_last()) + seq![sep] + "public_nodes="@ + url_encoded(
            trimmed(nodes.last()),
        )
    }
}

/// The address of `path` on the helper listening on `port`.
pub fn local_url(port: u16, path: &str) -> (url: String)
    ensures
        url@ == local_url_of(port, path@),
{
    let mut url = String::from_str("http://127.0.0.1:");
    push_decimal(&mut url, port as u64);
    url.append(path);
    url
}

/// The address of a room request: `path` on the helper, followed by one
/// `public_nodes` parameter per relay node.
pub fn request_url(port: u16, path: &str, nodes: &Vec<String>) -> (url: String)
    ensures
        url@ == local_url_of(port, path@) + node_query(path@.contains('?'), nodes.deep_view()),
{
    let ghost all = nodes.deep_view();
    let mut url = local_url(port, path);
    let has_query = contains_char(path, '?');
    let mut i: usize = 0;
    while i < nodes.len()
        invariant
            i <= nodes@.len(),
            all == nodes.deep_view(),
            url@ == local_url_of(port, path@) + node_query(has_query, all.take(i as int)),
        decreases nodes@.len() - i,
    {
        let ghost before = url@;
        let sep = if has_query || i > 0 {
            '&'
        } else {
            '?'
        };
        push_char(&mut url, sep);
        url.append("public_nodes=");
        let node = trim(nodes[i].as_str());
        let encoded = url_encode(node.as_str());
        url.append(encoded.as_str());
        assert(all.take(i + 1).drop_last() == all.take(i as int));
        assert(all.take(i + 1).last() == nodes@[i as int]@);
        assert(url@ == before + seq![sep] + "public_nodes="@ + url_encoded(
            trimmed(nodes@[i as int]@),
        ));
        i = i + 1;
    }
    assert(all.take(nodes@.len() as int) == all);
    url
}

/// The relay-node list holds each usable configured node once: no entry is
/// blank, none repeats, and a text is listed exactly when it is the trimmed
/// form of some configured node and not blank.
pub proof fn lemma_public_node_list(nodes: Seq<Seq<char>>)
    ensures
        public_node_list(nodes).no_duplicates(),
        forall|k: int|
            0 <= k < public_node_list(nodes).len() ==> #[trigger] public_node_list(nodes)[k].len()
                > 0,
        forall|x: Seq<char>|
            #[trigger] public_node_list(nodes).contains(x) <==> (x.len() > 0 && exists|i: int|
                0 <= i < nodes.len() && trimmed(nodes[i]) == x),
    decreases nodes.len(),
{
    if nodes.len() > 0 {
        let rest = nodes.drop_last();
        lemma_public_node_list(rest);
        let earlier = public_node_list(rest);
        let node = trimmed(nodes.last());
        let list = public_node_list(nodes);
        assert forall|x: Seq<char>| #[trigger] list.contains(x) <==> (x.len() > 0 && exists|i: int|
            0 <= i < nodes.len() && trimmed(nodes[i]) == x) by {
            if list.contains(x) {
                if earlier.contains(x) {
                    let i = choose|i: int| 0 <= i < rest.len() && trimmed(rest[i]) == x;
                    assert(trimmed(nodes[i]) == x);
                } else {
                    let k = choose|k: int| 0 <= k < list.len() && list[k] == x;
                    assert(x == node);
                    assert(trimmed(nodes[nodes.len() - 1]) == x);
                }
            }
            if x.len() > 0 && exists|i: int| 0 <= i < nodes.len() && trimmed(nodes[i]) == x {
                let i = choose|i: int| 0 <= i < nodes.len() && trimmed(nodes[i]) == x;
                if i < nodes.len() - 1 {
                    assert(trimmed(rest[i]) == x);
                    assert(earlier.contains(x));
                    if !(node.len() == 0 || earlier.contains(node)) {
                        let k = choose|k: int| 0 <= k < earlier.len() && earlier[k] == x;
                        assert(list[k] == x);
                    }
                } else {
                    assert(x == node);
                    if !(node.len() == 0 || earlier.contains(node)) {
                        assert(list[list.len() - 1] == x);
                    }
                }
            }
        }
    }
}

/// The relay nodes a request names: where some configured node is usable
/// (not blank once trimmed), exactly the usable configured nodes, trimmed,
/// each once, and nothing else, so never the default node unless it is
/// configured; where none is usable, the default node alone.
pub proof fn lemma_effective_public_nodes(nodes: Seq<Seq<char>>)
    ensures
        (exists|i: int| 0 <= i < nodes.len() && #[trigger] trimmed(nodes[i]).len() > 0) ==> {
            &&& effective_public_nodes(nodes).no_duplicates()
            &&& forall|x: Seq<char>|
                #[trigger] effective_public_nodes(nodes).contains(x) <==> (x.len() > 0 && exists|
                    i: int,
                | 0 <= i < nodes.len() && trimmed(nodes[i]) == x)
        },
        (forall|i: int| 0 <= i < nodes.len() ==> #[trigger] trimmed(nodes[i]).len() == 0)
            ==> effective_public_nodes(nodes) == seq!["wss://center.node.1tmc.top"@],
{
    lemma_public_node_list(nodes);
    let list = public_node_list(nodes);
    if exists|i: int| 0 <= i < nodes.len() && #[trigger] trimmed(nodes[i]).len() > 0 {
        let i = choose|i: int| 0 <= i < nodes.len() && #[trigger] trimmed(nodes[i]).len() > 0;
        assert(list.contains(trimmed(nodes[i])));
        assert(list.len() > 0);
    }
    if forall|i: int| 0 <= i < nodes.len() ==> #[trigger] trimmed(nodes[i]).len() == 0 {
        if list.len() > 0 {
            assert(list.contains(list[0]));
        }
    }
}

/// HTTP status codes of success: the 2xx class.
pub open spec fn is_success_code(code: u16) -> bool {
    200 <= code < 300
}

/// Whether an HTTP status code reports success.
pub fn is_success_status(code: u16) -> (ok: bool)
    ensures
        ok == is_success_code(code),
{
    200 <= code && code < 300
}

/// What a room request answered with `code` comes to; `status` is the
/// status line's text and `body` the answer, both shown on failure.
pub fn request_outcome(code: u16, status: String, url: String, body: String) -> (r: Result<
    (),
    TerracottaError,
>)
    ensures
        match r {
            Ok(()) => is_success_code(code),
            Err(e) => !is_success_code(code) && e == (TerracottaError::RequestFailed {
                status,
                url,
                body,
            }),
        },
{
    if is_success_status(code) {
        Ok(())
    } else {
        Err(TerracottaError::RequestFailed { status, url, body })
    }
}

/// What closing the room answered with `code` comes to.
pub fn room_close_outcome(code: u16, status: String, body: String) -> (r: Result<
    (),
    TerracottaError,
>)
    ensures
        match r {
            Ok(()) => is_success_code(code),
            Err(e) => !is_success_code(code) && e == (TerracottaError::RoomCloseFailed {
                status,
                body,
            }),
        },
{
    if is_success_status(code) {
        Ok(())
    } else {
        Err(TerracottaError::RoomCloseFailed { status, body })
    }
}

} // verus!
