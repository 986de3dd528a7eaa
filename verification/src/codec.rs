//! Composite order identifiers.
//!
//! The identifier under which an order is known to the exchange is not the
//! one the client chose: it is the client identifier, the reserved delimiter,
//! and the client's own order identifier, in that order. It is the only
//! carrier of routing identity across the broker.

use vstd::prelude::*;
use vstd::string::*;

verus! {

/// The reserved character that separates the two components of a composite
/// identifier. Neither component may contain it.
pub const DELIMITER: char = '§';

/// Why a composite identifier could not be built or taken apart.
#[derive(Debug, Clone, Copy, PartialEq, Eq, Structural)]
pub enum CodecError {
    /// A component handed to `encode` already contains the delimiter.
    InvalidIdentifier,
    /// The string handed to `decode` contains no delimiter.
    MalformedIdentifier,
}

/// Whether the delimiter occurs anywhere in `s`.
pub open spec fn contains_delimiter(s: Seq<char>) -> bool {
    exists|i: int| 0 <= i < s.len() && s[i] == DELIMITER
}

/// The composite identifier of `client_id` and `local_order_id`.
pub open spec fn spec_encode(client_id: Seq<char>, local_order_id: Seq<char>) -> Seq<char> {
    client_id + seq![DELIMITER] + local_order_id
}

/// `i` is the position of the first delimiter in `s`.
pub open spec fn is_first_delimiter(s: Seq<char>, i: int) -> bool {
    &&& 0 <= i < s.len()
    &&& s[i] == DELIMITER
    &&& forall|j: int| 0 <= j < i ==> s[j] != DELIMITER
}

/// The two components of a composite identifier, split at its first
/// delimiter, or `None` where it has no delimiter.
pub open spec fn spec_decode(composite: Seq<char>) -> Option<(Seq<char>, Seq<char>)> {
    if contains_delimiter(composite) {
        let i = choose|i: int| is_first_delimiter(composite, i);
        Some((composite.subrange(0, i), composite.subrange(i + 1, composite.len() as int)))
    } else {
        None
    }
}

/// A string has at most one first delimiter.
proof fn lemma_first_delimiter_unique(s: Seq<char>, i: int, j: int)
    requires
        is_first_delimiter(s, i),
        is_first_delimiter(s, j),
    ensures
        i == j,
{
}

/// A string that contains the delimiter has a first one.
proof fn lemma_first_delimiter_exists(s: Seq<char>)
    requires
        contains_delimiter(s),
    ensures
        exists|i: int| is_first_delimiter(s, i),
    decreases s.len(),
{
    let k = choose|k: int| 0 <= k < s.len() && s[k] == DELIMITER;
    let prefix = s.subrange(0, k);
    if contains_delimiter(prefix) {
        lemma_first_delimiter_exists(prefix);
        let i = choose|i: int| is_first_delimiter(prefix, i);
        assert forall|j: int| 0 <= j < i implies s[j] != DELIMITER by {
            assert(prefix[j] == s[j]);
        }
        assert(prefix[i] == s[i]);
        assert(is_first_delimiter(s, i));
    } else {
        assert forall|j: int| 0 <= j < k implies s[j] != DELIMITER by {
            assert(prefix[j] == s[j]);
        }
        assert(is_first_delimiter(s, k));
    }
}

/// Splitting at a known first delimiter is what `spec_decode` does.
proof fn lemma_decode_at(s: Seq<char>, i: int)
    requires
        is_first_delimiter(s, i),
    ensures
        spec_decode(s) == Some((s.subrange(0, i), s.subrange(i + 1, s.len() as int))),
{
    let k = choose|k: int| is_first_delimiter(s, k);
    lemma_first_delimiter_unique(s, i, k);
}

/// Decoding splits at the first delimiter: behind a client identifier that
/// is free of the delimiter, the rest comes back whole, whatever it holds.
pub proof fn lemma_decode_splits_at_first(client_id: Seq<char>, rest: Seq<char>)
    requires
        !contains_delimiter(client_id),
    ensures
        spec_decode(spec_encode(client_id, rest)) == Some((client_id, rest)),
{
    let s = spec_encode(client_id, rest);
    let i = client_id.len() as int;
    assert(s[i] == DELIMITER);
    assert forall|j: int| 0 <= j < i implies s[j] != DELIMITER by {
        assert(s[j] == client_id[j]);
    }
    lemma_decode_at(s, i);
    assert(s.subrange(0, i) =~= client_id);
    assert(s.subrange(i + 1, s.len() as int) =~= rest);
}

/// Round trip: taking apart the composite of two delimiter-free components
/// gives the two components back.
pub proof fn lemma_decode_encode(client_id: Seq<char>, local_order_id: Seq<char>)
    requires
        !contains_delimiter(client_id),
        !contains_delimiter(local_order_id),
    ensures
        spec_decode(spec_encode(client_id, local_order_id)) == Some((client_id, local_order_id)),
{
    lemma_decode_splits_at_first(client_id, local_order_id);
}

/// No two orders share a composite identifier: composites of delimiter-free
/// client identifiers are equal only where both components are.
pub proof fn lemma_encode_is_injective(
    client_id: Seq<char>,
    local_order_id: Seq<char>,
    other_client_id: Seq<char>,
    other_local_order_id: Seq<char>,
)
    requires
        !contains_delimiter(client_id),
        !contains_delimiter(other_client_id),
        spec_encode(client_id, local_order_id) == spec_encode(
            other_client_id,
            other_local_order_id,
        ),
    ensures
        client_id == other_client_id,
        local_order_id == other_local_order_id,
{
    lemma_decode_splits_at_first(client_id, local_order_id);
    lemma_decode_splits_at_first(other_client_id, other_local_order_id);
}

/// Whatever `spec_decode` takes apart, `spec_encode` puts together again, and
/// the client identifier that comes out is free of the delimiter.
pub proof fn lemma_encode_decode(composite: Seq<char>)
    requires
        contains_delimiter(composite),
    ensures
        spec_decode(composite) matches Some((client_id, local_order_id))
            && spec_encode(client_id, local_order_id) == composite
            && !contains_delimiter(client_id),
{
    lemma_first_delimiter_exists(composite);
    let i = choose|i: int| is_first_delimiter(composite, i);
    let client_id = composite.subrange(0, i);
    let local_order_id = composite.subrange(i + 1, composite.len() as int);
    assert(spec_encode(client_id, local_order_id) =~= composite);
    assert forall|j: int| 0 <= j < client_id.len() implies client_id[j] != DELIMITER by {
        assert(client_id[j] == composite[j]);
    }
}

/// Position of the first delimiter in `s`, if there is one.
fn find_delimiter(s: &str) -> (r: Option<usize>)
    ensures
        r is Some <==> contains_delimiter(s@),
        r matches Some(i) ==> is_first_delimiter(s@, i as int),
{
    let n: usize = s.unicode_len();
    let mut i: usize = 0;
    for c in chars: s.chars()
        invariant
            i == chars.index(),
            chars.seq() == s@,
            n == s@.len(),
            forall|j: int| 0 <= j < i ==> s@[j] != DELIMITER,
    {
        if c == DELIMITER {
            return Some(i);
        }
        i += 1;
    }
    None
}

/// Whether the delimiter occurs anywhere in `s`.
pub fn has_delimiter(s: &str) -> (found: bool)
    ensures
        found == contains_delimiter(s@),
{
    find_delimiter(s).is_some()
}

/// Builds the composite identifier `client_id`, delimiter, `local_order_id`.
///
/// Fails with `InvalidIdentifier` exactly when one of the two components
/// contains the delimiter.
pub fn encode(client_id: &str, local_order_id: &str) -> (r: Result<String, CodecError>)
    ensures
        r is Ok <==> !contains_delimiter(client_id@) && !contains_delimiter(local_order_id@),
        r matches Ok(composite) ==> composite@ == spec_encode(client_id@, local_order_id@),
        r matches Err(e) ==> e == CodecError::InvalidIdentifier,
{
    if has_delimiter(client_id) || has_delimiter(local_order_id) {
        return Err(CodecError::InvalidIdentifier);
    }
    let mut composite = String::from_str(client_id);
    proof {
        reveal_strlit("§");
    }
    composite.append("§");
    composite.append(local_order_id);
    assert(composite@ =~= spec_encode(client_id@, local_order_id@));
    Ok(composite)
}

/// Splits a composite identifier at its first delimiter into the client
/// identifier and the client's own order identifier.
///
/// Fails with `MalformedIdentifier` exactly when there is no delimiter.
pub fn decode(composite: &str) -> (r: Result<(String, String), CodecError>)
    ensures
        r is Ok <==> contains_delimiter(composite@),
        r matches Ok(parts) ==> spec_decode(composite@) == Some(parts@),
        r matches Err(e) ==> e == CodecError::MalformedIdentifier,
{
    match find_delimiter(composite) {
        None => Err(CodecError::MalformedIdentifier),
        Some(i) => {
            let n: usize = composite.unicode_len();
            let client_id = String::from_str(composite.substring_char(0, i));
            let local_order_id = String::from_str(composite.substring_char(i + 1, n));
            proof {
                lemma_decode_at(composite@, i as int);
            }
            Ok((client_id, local_order_id))
        },
    }
}

} // verus!
