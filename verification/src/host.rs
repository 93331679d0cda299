//! Update targets: the `"hostname:address"` token naming one host, and the
//! identifier handed to the remote build tool.

use vstd::prelude::*;
use vstd::string::StrSliceExecFns;

use crate::text::find_char;
use crate::text::find_char_from;

verus! {

/// What a well-formed token parses to: the text before the first `:` is the
/// hostname, the text between the first `:` and the next `:` (or the end) is
/// the address.
pub open spec fn token_hostname(t: Seq<char>) -> Seq<char> {
    t.subrange(0, find_char_from(t, ':', 0))
}

pub open spec fn token_address(t: Seq<char>) -> Seq<char> {
    t.subrange(
        find_char_from(t, ':', 0) + 1,
        find_char_from(t, ':', find_char_from(t, ':', 0) + 1),
    )
}

/// One update target, parsed from a `"hostname:address"` token.
#[derive(Debug, Clone)]
pub struct HostTarget {
    pub hostname: String,
    pub address: String,
}

/// The identifier passed to the remote build tool: the hostname with a fixed
/// `"nix"` prefix stripped when present.
pub open spec fn rebuild_identifier_spec(h: Seq<char>) -> Seq<char> {
    if h.len() >= 3 && h[0] == 'n' && h[1] == 'i' && h[2] == 'x' {
        h.skip(3)
    } else {
        h
    }
}

impl HostTarget {
    /// Parses a host token. A token without `:` is rejected; everything up to
    /// the first `:` becomes the hostname and the segment after it the
    /// address (text after a second `:` is ignored).
    pub fn parse(token: &str) -> (r: Option<HostTarget>)
        ensures
            match r {
                Some(t) => find_char_from(token@, ':', 0) < token@.len()
                    && t.hostname@ == token_hostname(token@)
                    && t.address@ == token_address(token@),
                None => find_char_from(token@, ':', 0) == token@.len(),
            },
    {
        let n = token.unicode_len();
        let i = find_char(token, ':', 0);
        proof {
            crate::text::lemma_find_char_from_properties(token@, ':', 0);
        }
        if i == n {
            return None;
        }
        let hostname = token.substring_char(0, i);
        proof {
            crate::text::lemma_find_char_from_properties(token@, ':', i + 1);
        }
        let k = find_char(token, ':', i + 1);
        let address = token.substring_char(i + 1, k);
        Some(HostTarget { hostname: hostname.to_owned(), address: address.to_owned() })
    }

    /// The identifier for the remote build: the hostname, less a leading
    /// `"nix"` when it carries one.
    pub fn rebuild_identifier(&self) -> (r: String)
        ensures
            r@ == rebuild_identifier_spec(self.hostname@),
    {
        rebuild_identifier_of(self.hostname.as_str())
    }
}

/// The rebuild identifier of a hostname: the hostname, less a leading
/// `"nix"` when it carries one.
pub fn rebuild_identifier_of(h: &str) -> (r: String)
    ensures
        r@ == rebuild_identifier_spec(h@),
{
    let n = h.unicode_len();
    if n >= 3 && h.get_char(0) == 'n' && h.get_char(1) == 'i' && h.get_char(2) == 'x' {
        let rest = h.substring_char(3, n);
        proof {
            assert(rest@ =~= h@.skip(3));
        }
        rest.to_owned()
    } else {
        h.to_owned()
    }
}

} // verus!
