//! Cutting the JSON object out of a decision provider's reply.
//!
//! Providers answer with a JSON object, often wrapped in markdown fences or
//! prose.  The consumed span runs from the first `{` to the last `}`; a
//! reply without both, or with the last `}` before the first `{`, has no
//! span and is a malformed output (fatal to the call that produced it, not
//! retried).  Turning the span into typed values is the JSON library's
//! work, outside this crate.

use vstd::prelude::*;

verus! {

/// Byte of the opening brace.
pub const OPEN_BRACE: u8 = 0x7B;

/// Byte of the closing brace.
pub const CLOSE_BRACE: u8 = 0x7D;

/// Index of the first occurrence of `b` in `s`.
pub open spec fn spec_find_first(s: Seq<u8>, b: u8) -> Option<int>
    decreases s.len(),
{
    if s.len() == 0 {
        None
    } else if s[0] == b {
        Some(0)
    } else {
        match spec_find_first(s.subrange(1, s.len() as int), b) {
            Some(k) => Some(k + 1),
            None => None,
        }
    }
}

/// Index of the last occurrence of `b` in `s`.
pub open spec fn spec_find_last(s: Seq<u8>, b: u8) -> Option<int>
    decreases s.len(),
{
    if s.len() == 0 {
        None
    } else if s.last() == b {
        Some(s.len() - 1)
    } else {
        spec_find_last(s.drop_last(), b)
    }
}

/// What the first-occurrence index means: it carries `b`, nothing before it
/// does, and a `None` means `b` does not occur.
pub proof fn lemma_find_first_characterization(s: Seq<u8>, b: u8)
    ensures
        match spec_find_first(s, b) {
            Some(i) => 0 <= i < s.len() && s[i] == b && forall|k: int| 0 <= k < i ==> s[k] != b,
            None => forall|k: int| 0 <= k < s.len() ==> s[k] != b,
        },
    decreases s.len(),
{
    if s.len() > 0 && s[0] != b {
        let t = s.subrange(1, s.len() as int);
        lemma_find_first_characterization(t, b);
        match spec_find_first(t, b) {
            Some(k) => {
                assert(s[k + 1] == t[k]);
                assert forall|k2: int| 0 <= k2 < k + 1 implies s[k2] != b by {
                    if k2 >= 1 {
                        assert(s[k2] == t[k2 - 1]);
                    }
                }
            },
            None => {
                assert forall|k2: int| 0 <= k2 < s.len() implies s[k2] != b by {
                    if k2 >= 1 {
                        assert(s[k2] == t[k2 - 1]);
                    }
                }
            },
        }
    }
}

/// What the last-occurrence index means: it carries `b`, nothing after it
/// does, and a `None` means `b` does not occur.
pub proof fn lemma_find_last_characterization(s: Seq<u8>, b: u8)
    ensures
        match spec_find_last(s, b) {
            Some(j) => 0 <= j < s.len() && s[j] == b && forall|k: int|
                j < k < s.len() ==> s[k] != b,
            None => forall|k: int| 0 <= k < s.len() ==> s[k] != b,
        },
    decreases s.len(),
{
    if s.len() > 0 && s.last() != b {
        let t = s.drop_last();
        lemma_find_last_characterization(t, b);
        match spec_find_last(t, b) {
            Some(j) => {
                assert(s[j] == t[j]);
                assert forall|k2: int| j < k2 < s.len() implies s[k2] != b by {
                    if k2 < s.len() - 1 {
                        assert(s[k2] == t[k2]);
                    }
                }
            },
            None => {
                assert forall|k2: int| 0 <= k2 < s.len() implies s[k2] != b by {
                    if k2 < s.len() - 1 {
                        assert(s[k2] == t[k2]);
                    }
                }
            },
        }
    }
}

/// Index of the first occurrence of `b` in `bytes`.
fn find_first_byte(bytes: &[u8], b: u8) -> (r: Option<usize>)
    ensures
        match r {
            Some(i) => spec_find_first(bytes@, b) == Some(i as int),
            None => spec_find_first(bytes@, b) is None,
        },
{
    proof {
        lemma_find_first_characterization(bytes@, b);
    }
    let mut i: usize = 0;
    while i < bytes.len()
        invariant
            0 <= i <= bytes@.len(),
            forall|k: int| 0 <= k < i ==> bytes@[k] != b,
        decreases bytes@.len() - i,
    {
        if bytes[i] == b {
            proof {
                lemma_find_first_characterization(bytes@, b);
            }
            return Some(i);
        }
        i = i + 1;
    }
    None
}

/// Index of the last occurrence of `b` in `bytes`.
fn find_last_byte(bytes: &[u8], b: u8) -> (r: Option<usize>)
    ensures
        match r {
            Some(j) => spec_find_last(bytes@, b) == Some(j as int),
            None => spec_find_last(bytes@, b) is None,
        },
{
    proof {
        lemma_find_last_characterization(bytes@, b);
    }
    let mut i: usize = bytes.len();
    while i > 0
        invariant
            0 <= i <= bytes@.len(),
            forall|k: int| i <= k < bytes@.len() ==> bytes@[k] != b,
        decreases i,
    {
        i = i - 1;
        if bytes[i] == b {
            proof {
                lemma_find_last_characterization(bytes@, b);
            }
            return Some(i);
        }
    }
    None
}

/// Cuts the JSON object span out of a provider reply: the bytes from the
/// first `{` to the last `}`, inclusive.  `None` when the reply holds no
/// such span -- a malformed provider output.
pub fn extract_json_span(bytes: &[u8]) -> (r: Option<Vec<u8>>)
    ensures
        match (spec_find_first(bytes@, OPEN_BRACE), spec_find_last(bytes@, CLOSE_BRACE)) {
            (Some(i), Some(j)) => if i <= j {
                r matches Some(v) && v@ == bytes@.subrange(i, j + 1)
            } else {
                r is None
            },
            _ => r is None,
        },
{
    let open = match find_first_byte(bytes, OPEN_BRACE) {
        Some(i) => i,
        None => {
            return None;
        },
    };
    let close = match find_last_byte(bytes, CLOSE_BRACE) {
        Some(j) => j,
        None => {
            return None;
        },
    };
    if close < open {
        return None;
    }
    proof {
        lemma_find_first_characterization(bytes@, OPEN_BRACE);
        lemma_find_last_characterization(bytes@, CLOSE_BRACE);
    }
    let mut out: Vec<u8> = Vec::new();
    let mut i: usize = open;
    while i <= close
        invariant
            open <= i <= close + 1,
            close < bytes@.len(),
            out@ == bytes@.subrange(open as int, i as int),
        decreases close + 1 - i,
    {
        proof {
            assert(bytes@.subrange(open as int, i + 1).drop_last() =~= bytes@.subrange(
                open as int,
                i as int,
            ));
            assert(bytes@.subrange(open as int, i + 1).last() == bytes@[i as int]);
        }
        out.push(bytes[i]);
        i = i + 1;
    }
    Some(out)
}

} // verus!
