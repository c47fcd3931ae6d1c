//! The wide-string marshaller: bidirectional conversion between native text
//! and the wide-character units the engine's interface expects.
//!
//! A marshalled string is the sequence of the text's code points, one wide
//! unit per character, closed by a single terminating zero unit. Decoding
//! reads units up to the first zero and turns each back into a character;
//! a unit that is no Unicode scalar value makes the whole result
//! undecodable. Both directions handle the empty string, and neither
//! panics on malformed input: every failure is a reported result.

use vstd::prelude::*;
use vstd::string::*;
use vstd::utf8::char_is_scalar;
use vstd::utf8::char_u32_cast;
use vstd::utf8::is_scalar;

verus! {

/// True when no character of `s` has code point zero, so that `s` survives
/// being closed by a terminating zero unit.
pub open spec fn nul_free(s: Seq<char>) -> bool {
    forall|i: int| 0 <= i < s.len() ==> (#[trigger] s[i]) as u32 != 0
}

/// The wide units of `s`: one unit per character, each the character's
/// code point.
pub open spec fn wide_units(s: Seq<char>) -> Seq<u32> {
    s.map(|i: int, c: char| c as u32)
}

/// The marshalled form of `s`: its wide units closed by one zero unit.
pub open spec fn wide_of(s: Seq<char>) -> Seq<u32> {
    wide_units(s).push(0u32)
}

/// The index of the first zero unit of `u`, or `u.len()` when none is
/// zero: how far a reader of a zero-terminated wide result looks.
pub open spec fn nul_index(u: Seq<u32>) -> int
    decreases u.len(),
{
    if u.len() == 0 {
        0
    } else if u[0] == 0 {
        0
    } else {
        1 + nul_index(u.drop_first())
    }
}

/// The units of `u` before its first zero unit.
pub open spec fn until_nul(u: Seq<u32>) -> Seq<u32> {
    u.take(nul_index(u))
}

/// True when every unit before the first zero is a Unicode scalar value,
/// so that the wide result decodes into text.
pub open spec fn units_decodable(u: Seq<u32>) -> bool {
    forall|i: int| 0 <= i < until_nul(u).len() ==> is_scalar(#[trigger] until_nul(u)[i])
}

/// The characters a decodable wide result stands for.
pub open spec fn decoded_chars(u: Seq<u32>) -> Seq<char> {
    until_nul(u).map(|i: int, x: u32| x as char)
}

/// What decoding a wide result yields: its characters, or nothing when
/// some unit before the first zero is no Unicode scalar value.
pub open spec fn spec_decode(u: Seq<u32>) -> Option<Seq<char>> {
    if units_decodable(u) {
        Some(decoded_chars(u))
    } else {
        None
    }
}

/// `nul_index` is a position within `u`, everything before it is nonzero,
/// and it lands on a zero unit unless none exists.
pub proof fn lemma_nul_index_bounds(u: Seq<u32>)
    ensures
        0 <= nul_index(u) <= u.len(),
        forall|j: int| 0 <= j < nul_index(u) ==> u[j] != 0,
        nul_index(u) < u.len() ==> u[nul_index(u)] == 0,
    decreases u.len(),
{
    if u.len() != 0 && u[0] != 0 {
        lemma_nul_index_bounds(u.drop_first());
        assert forall|j: int| 0 <= j < nul_index(u) implies u[j] != 0 by {
            if j > 0 {
                assert(u.drop_first()[j - 1] != 0);
            }
        }
    }
}

/// `nul_index` is the only position with nothing but nonzero units before
/// it that is either the end or a zero unit.
pub proof fn lemma_nul_index_is(u: Seq<u32>, k: int)
    requires
        0 <= k <= u.len(),
        forall|j: int| 0 <= j < k ==> u[j] != 0,
        k < u.len() ==> u[k] == 0,
    ensures
        nul_index(u) == k,
    decreases u.len(),
{
    if u.len() != 0 && u[0] != 0 {
        assert(k != 0);
        lemma_nul_index_is(u.drop_first(), k - 1);
    }
}

/// A wrapper for marshalling one native string: the wide units in `data`,
/// zero-terminated, and the number of characters in `n_chars`.
pub struct CWcharString {
    pub data: Vec<u32>,
    pub n_chars: usize,
}

impl CWcharString {
    /// A well-formed marshalled string: `n_chars` units followed by the
    /// terminating zero, with no zero among the first `n_chars`.
    pub open spec fn wf(&self) -> bool {
        &&& self.data@.len() == self.n_chars + 1
        &&& self.data@[self.n_chars as int] == 0
        &&& forall|j: int| 0 <= j < self.n_chars ==> self.data@[j] != 0
    }

    /// Marshals `string` into wide units. Fails exactly when the text
    /// holds an embedded NUL, which the zero-terminated convention cannot
    /// carry.
    pub fn from_str(string: &str) -> (r: Result<CWcharString, ()>)
        ensures
            r is Ok <==> nul_free(string@),
            r matches Ok(w) ==> w.data@ == wide_of(string@) && w.n_chars == string@.len() && w.wf(),
    {
        let n = string.unicode_len();
        let mut data: Vec<u32> = Vec::new();
        let mut i: usize = 0;
        while i < n
            invariant
                i <= n,
                n == string@.len(),
                data@ == wide_units(string@.take(i as int)),
                nul_free(string@.take(i as int)),
            decreases n - i,
        {
            let c = string.get_char(i);
            if c as u32 == 0 {
                proof {
                    assert(!nul_free(string@));
                }
                return Err(());
            }
            data.push(c as u32);
            proof {
                assert(string@.take(i + 1).drop_last() =~= string@.take(i as int));
                assert(data@ =~= wide_units(string@.take(i + 1)));
                assert(nul_free(string@.take(i + 1)));
            }
            i += 1;
        }
        proof {
            assert(string@.take(n as int) =~= string@);
        }
        data.push(0);
        proof {
            assert(data@ =~= wide_of(string@));
        }
        Ok(CWcharString { data, n_chars: n })
    }

    /// The zero-terminated wide units, ready to hand to the engine's
    /// interface.
    pub fn as_units(&self) -> (r: &Vec<u32>)
        ensures
            r@ == self.data@,
    {
        &self.data
    }

    /// Decodes a zero-terminated wide result back into native text: the
    /// units up to the first zero, or up to the end when no zero exists.
    /// Fails exactly when some unit in that range is no Unicode scalar
    /// value.
    pub fn from_units_to_string(units: &[u32]) -> (r: Result<String, ()>)
        ensures
            r is Ok <==> units_decodable(units@),
            r matches Ok(s) ==> s@ == decoded_chars(units@),
    {
        let n = units.len();
        let mut out = String::new();
        let mut i: usize = 0;
        while i < n && units[i] != 0
            invariant
                i <= n,
                n == units@.len(),
                forall|j: int| 0 <= j < i ==> units@[j] != 0,
                forall|j: int| 0 <= j < i ==> is_scalar(#[trigger] units@[j]),
                out@ == units@.take(i as int).map(|k: int, x: u32| x as char),
            decreases n - i,
        {
            let u = units[i];
            match char::from_u32(u) {
                Some(c) => {
                    push_char(&mut out, c);
                    proof {
                        char_u32_cast(c, u);
                    }
                },
                None => {
                    proof {
                        lemma_scalar_range(u);
                        lemma_nul_index_bounds(units@);
                        if nul_index(units@) <= i {
                            assert(units@[nul_index(units@)] != 0);
                        }
                        assert(0 <= i < until_nul(units@).len());
                        assert(until_nul(units@)[i as int] == u);
                        assert(!units_decodable(units@));
                    }
                    return Err(());
                },
            }
            proof {
                lemma_scalar_range(u);
                assert(units@.take(i + 1).drop_last() =~= units@.take(i as int));
                assert(out@ =~= units@.take(i + 1).map(|k: int, x: u32| x as char));
            }
            i += 1;
        }
        proof {
            lemma_nul_index_is(units@, i as int);
            assert(until_nul(units@) =~= units@.take(i as int));
            assert(out@ =~= decoded_chars(units@));
            assert(units_decodable(units@));
        }
        Ok(out)
    }
}

/// Law: decoding a marshalled string yields the original text, for any
/// text free of embedded NUL characters.
pub proof fn lemma_marshal_round_trip(s: Seq<char>)
    requires
        nul_free(s),
    ensures
        spec_decode(wide_of(s)) == Some(s),
{
    let u = wide_of(s);
    assert forall|j: int| 0 <= j < s.len() implies u[j] != 0 by {
        assert(u[j] == s[j] as u32);
    }
    lemma_nul_index_is(u, s.len() as int);
    assert(until_nul(u) =~= wide_units(s));
    assert forall|i: int| 0 <= i < until_nul(u).len() implies is_scalar(
        #[trigger] until_nul(u)[i],
    ) by {
        char_is_scalar(s[i]);
    }
    assert(units_decodable(u));
    assert forall|i: int| 0 <= i < s.len() implies decoded_chars(u)[i] == s[i] by {
        char_u32_cast(s[i], s[i] as u32);
    }
    assert(decoded_chars(u) =~= s);
}

/// The range the standard library documents for `char::from_u32` is
/// exactly the range of Unicode scalar values.
pub proof fn lemma_scalar_range(u: u32)
    ensures
        is_scalar(u) <==> (u < 0xD800 || (0xE000 <= u && u <= 0x10FFFF)),
{
}

/// Relies on `char::from_u32` of the standard library: it returns the
/// character with code point `u`, or nothing when `u` is a surrogate
/// code point or lies above the Unicode range.
pub assume_specification [ char::from_u32 ](u: u32) -> (r: Option<char>)
    ensures
        r is Some <==> (u < 0xD800 || (0xE000 <= u && u <= 0x10FFFF)),
        r matches Some(c) ==> c as u32 == u,
;

/// Relies on `String::push` of the standard library: it appends exactly
/// one character at the end.
#[verifier::external_body]
pub(crate) fn push_char(s: &mut String, c: char)
    ensures
        final(s)@ == old(s)@.push(c),
{
    s.push(c);
}

} // verus!
