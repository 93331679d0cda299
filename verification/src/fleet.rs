//! Selection of update candidates from the overlay network's peer list:
//! online hosts whose name carries the fleet prefix become `hostname:address`
//! tokens, sorted by hostname. Fetching and decoding the peer list lives
//! outside; the filtering and ordering are here, with their contracts.

use vstd::prelude::*;
use vstd::multiset::Multiset;
use vstd::seq_lib::group_to_multiset_ensures;
use vstd::seq_lib::lemma_multiset_commutative;
use vstd::string::StrSliceExecFns;
use vstd::string::StringExecFns;

use crate::host::token_hostname;
use crate::text::find_char;
use crate::text::lemma_find_char_from_properties;

verus! {

broadcast use vstd::multiset::group_multiset_axioms;

/// Model of a [`PeerInfo`].
pub struct PeerView {
    pub host_name: Seq<char>,
    pub ips: Seq<Seq<char>>,
    pub online: bool,
}

/// One peer of the overlay network, as the discovery step reports it: its
/// hostname, its addresses, and whether it is reachable.
#[derive(Debug, Clone)]
pub struct PeerInfo {
    pub host_name: String,
    pub ips: Vec<String>,
    pub online: bool,
}

impl View for PeerInfo {
    type V = PeerView;

    open spec fn view(&self) -> PeerView {
        PeerView {
            host_name: self.host_name@,
            ips: self.ips@.map_values(|s: String| s@),
            online: self.online,
        }
    }
}

/// Whether a peer is an update candidate: its name carries the fleet prefix,
/// it has an address, and it is online.
pub open spec fn peer_selected(p: PeerView) -> bool {
    &&& p.host_name.len() >= 3
    &&& p.host_name[0] == 'n'
    &&& p.host_name[1] == 'i'
    &&& p.host_name[2] == 'x'
    &&& p.ips.len() > 0
    &&& p.online
}

/// The token a candidate contributes: its hostname and first address.
pub open spec fn peer_token(p: PeerView) -> Seq<char> {
    p.host_name + ":"@ + p.ips[0]
}

/// The tokens of all candidates, in the order the peers were given.
pub open spec fn selected_tokens(peers: Seq<PeerView>) -> Seq<Seq<char>>
    decreases peers.len(),
{
    if peers.len() == 0 {
        Seq::empty()
    } else {
        let rest = selected_tokens(peers.drop_last());
        if peer_selected(peers.last()) {
            rest.push(peer_token(peers.last()))
        } else {
            rest
        }
    }
}

/// Lexicographic order on character sequences, by code point.
pub open spec fn lex_le(a: Seq<char>, b: Seq<char>) -> bool
    decreases a.len(),
{
    if a.len() == 0 {
        true
    } else if b.len() == 0 {
        false
    } else if a[0] != b[0] {
        a[0] < b[0]
    } else {
        lex_le(a.skip(1), b.skip(1))
    }
}

pub proof fn lemma_lex_le_total(a: Seq<char>, b: Seq<char>)
    ensures
        lex_le(a, b) || lex_le(b, a),
    decreases a.len(),
{
    if a.len() > 0 && b.len() > 0 && a[0] == b[0] {
        lemma_lex_le_total(a.skip(1), b.skip(1));
    }
}

pub proof fn lemma_lex_le_trans(a: Seq<char>, b: Seq<char>, c: Seq<char>)
    requires
        lex_le(a, b),
        lex_le(b, c),
    ensures
        lex_le(a, c),
    decreases a.len(),
{
    if a.len() > 0 && b.len() > 0 && c.len() > 0 && a[0] == b[0] && b[0] == c[0] {
        lemma_lex_le_trans(a.skip(1), b.skip(1), c.skip(1));
    }
}

/// Whether `a` precedes `b`, comparing character by character.
pub fn str_le(a: &str, b: &str) -> (r: bool)
    ensures
        r == lex_le(a@, b@),
    decreases a@.len(),
{
    let na = a.unicode_len();
    let nb = b.unicode_len();
    if na == 0 {
        true
    } else if nb == 0 {
        false
    } else if a.get_char(0) != b.get_char(0) {
        a.get_char(0) < b.get_char(0)
    } else {
        let ra = a.substring_char(1, na);
        let rb = b.substring_char(1, nb);
        proof {
            assert(ra@ =~= a@.skip(1));
            assert(rb@ =~= b@.skip(1));
        }
        str_le(ra, rb)
    }
}

/// The sort key of a token: its hostname, the text before the first `:`.
pub open spec fn host_key(t: Seq<char>) -> Seq<char> {
    token_hostname(t)
}

/// Whether token `a` sorts no later than token `b`: hostnames decide.
pub open spec fn token_le(a: Seq<char>, b: Seq<char>) -> bool {
    lex_le(host_key(a), host_key(b))
}

fn token_le_exec(a: &String, b: &String) -> (r: bool)
    ensures
        r == token_le(a@, b@),
{
    proof {
        lemma_find_char_from_properties(a@, ':', 0);
        lemma_find_char_from_properties(b@, ':', 0);
    }
    let pa = find_char(a.as_str(), ':', 0);
    let pb = find_char(b.as_str(), ':', 0);
    let ka = a.as_str().substring_char(0, pa);
    let kb = b.as_str().substring_char(0, pb);
    str_le(ka, kb)
}

/// Inserting anywhere adds one occurrence, as pushing at the end does.
proof fn lemma_insert_to_multiset(s: Seq<Seq<char>>, p: int, v: Seq<char>)
    requires
        0 <= p <= s.len(),
    ensures
        s.insert(p, v).to_multiset() == s.to_multiset().insert(v),
{
    broadcast use group_to_multiset_ensures;

    assert(s.insert(p, v) =~= s.take(p) + (seq![v] + s.skip(p)));
    lemma_multiset_commutative(s.take(p), seq![v] + s.skip(p));
    lemma_multiset_commutative(seq![v], s.skip(p));
    assert(s =~= s.take(p) + s.skip(p));
    lemma_multiset_commutative(s.take(p), s.skip(p));
    assert(seq![v] =~= Seq::<Seq<char>>::empty().push(v));
    assert(Seq::<Seq<char>>::empty().to_multiset().len() == 0);
    assert(Seq::<Seq<char>>::empty().to_multiset() =~= Multiset::<Seq<char>>::empty());
    assert(s.insert(p, v).to_multiset() =~= s.to_multiset().insert(v));
}

/// The candidate tokens of the given peers, sorted by hostname: the same
/// tokens [`selected_tokens`] names, in hostname order.
pub fn nixos_server_tokens(peers: &Vec<PeerInfo>) -> (r: Vec<String>)
    ensures
        r@.map_values(|s: String| s@).to_multiset() == selected_tokens(
            peers@.map_values(|p: PeerInfo| p@),
        ).to_multiset(),
        forall|i: int, j: int|
            0 <= i < j < r@.len() ==> token_le(#[trigger] r@[i]@, #[trigger] r@[j]@),
{
    broadcast use group_to_multiset_ensures;

    let n = peers.len();
    let mut tokens: Vec<String> = Vec::new();
    let mut i: usize = 0;
    while i < n
        invariant
            0 <= i <= n,
            n == peers@.len(),
            tokens@.map_values(|s: String| s@) == selected_tokens(
                peers@.map_values(|p: PeerInfo| p@).take(i as int),
            ),
        decreases n - i,
    {
        let ghost before = tokens@;
        let ghost pv = peers@.map_values(|p: PeerInfo| p@);
        let p = &peers[i];
        let h = p.host_name.as_str();
        let hn = h.unicode_len();
        let is_nix = hn >= 3 && h.get_char(0) == 'n' && h.get_char(1) == 'i' && h.get_char(2)
            == 'x';
        if is_nix && p.ips.len() > 0 && p.online {
            let mut token = p.host_name.clone();
            token.append(":");
            token.append(p.ips[0].as_str());
            proof {
                assert(token@ =~= peer_token(pv[i as int]));
            }
            tokens.push(token);
        }
        proof {
            assert(pv.take(i + 1).drop_last() =~= pv.take(i as int));
            assert(pv.take(i + 1).last() == pv[i as int]);
            assert(peer_selected(pv[i as int]) == (is_nix && pv[i as int].ips.len() > 0
                && pv[i as int].online));
            if peer_selected(pv[i as int]) {
                assert(tokens@.map_values(|s: String| s@) =~= before.map_values(|s: String| s@).push(
                    peer_token(pv[i as int]),
                ));
            } else {
                assert(tokens@.map_values(|s: String| s@) =~= before.map_values(|s: String| s@));
            }
        }
        i = i + 1;
    }
    proof {
        assert(peers@.map_values(|p: PeerInfo| p@).take(n as int) =~= peers@.map_values(
            |p: PeerInfo| p@,
        ));
    }
    let m = tokens.len();
    let mut out: Vec<String> = Vec::new();
    let mut k: usize = 0;
    while k < m
        invariant
            0 <= k <= m,
            m == tokens@.len(),
            out@.map_values(|s: String| s@).to_multiset() == tokens@.map_values(
                |s: String| s@,
            ).take(k as int).to_multiset(),
            forall|i: int, j: int|
                0 <= i < j < out@.len() ==> token_le(#[trigger] out@[i]@, #[trigger] out@[j]@),
        decreases m - k,
    {
        let t = tokens[k].clone();
        let ghost tv = t@;
        let ghost out_before = out@;
        let w = out.len();
        let mut pos: usize = 0;
        while pos < w && token_le_exec(&out[pos], &t)
            invariant
                0 <= pos <= w,
                w == out@.len(),
                t@ == tv,
                forall|q: int| 0 <= q < pos ==> token_le(#[trigger] out@[q]@, tv),
            decreases w - pos,
        {
            pos = pos + 1;
        }
        proof {
            if pos < w {
                lemma_lex_le_total(host_key(out_before[pos as int]@), host_key(tv));
            }
        }
        out.insert(pos, t);
        proof {
            let ov = out_before.map_values(|s: String| s@);
            assert(out@.map_values(|s: String| s@) =~= ov.insert(pos as int, tv));
            lemma_insert_to_multiset(ov, pos as int, tv);
            let sv = tokens@.map_values(|s: String| s@);
            assert(sv.take(k + 1) =~= sv.take(k as int).push(tv));
            sv.take(k as int).to_multiset_ensures();
            assert(sv.take(k as int).push(tv).to_multiset() =~= sv.take(
                k as int,
            ).to_multiset().insert(tv));
            assert(sv.take(k + 1).to_multiset() =~= sv.take(k as int).to_multiset().insert(tv));
            assert forall|i: int, j: int|
                0 <= i < j < out@.len() implies token_le(
                #[trigger] out@[i]@,
                #[trigger] out@[j]@,
            ) by {
                let nv = out@.map_values(|s: String| s@);
                if j < pos {
                    assert(nv[i] == ov[i] && nv[j] == ov[j]);
                } else if j == pos {
                    assert(nv[i] == ov[i]);
                    assert(token_le(ov[i], tv));
                } else if i < pos {
                    assert(nv[i] == ov[i] && nv[j] == ov[j - 1]);
                    assert(token_le(ov[i], tv));
                    assert(token_le(tv, ov[pos as int]));
                    if j - 1 > pos {
                        lemma_lex_le_trans(
                            host_key(tv),
                            host_key(ov[pos as int]),
                            host_key(ov[j - 1]),
                        );
                    }
                    lemma_lex_le_trans(host_key(ov[i]), host_key(tv), host_key(ov[j - 1]));
                } else if i == pos {
                    assert(nv[j] == ov[j - 1]);
                    assert(j - 1 >= pos);
                    if j - 1 == pos {
                        assert(token_le(tv, ov[pos as int]));
                    } else {
                        lemma_lex_le_trans(
                            host_key(tv),
                            host_key(ov[pos as int]),
                            host_key(ov[j - 1]),
                        );
                    }
                } else {
                    assert(nv[i] == ov[i - 1] && nv[j] == ov[j - 1]);
                }
            }
        }
        k = k + 1;
    }
    proof {
        assert(tokens@.map_values(|s: String| s@).take(m as int) =~= tokens@.map_values(
            |s: String| s@,
        ));
    }
    out
}

} // verus!
