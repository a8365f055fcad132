//! The foundation of a candidate: the key under which candidates of one
//! type, one network type and one address are grouped.
//!
//! The foundation is a number in decimal notation. Its first digit stands for
//! the candidate type, its second for the network type, and each byte of the
//! address in UTF-8 follows as three digits. It grows with the address, and in
//! return no two different triples share a foundation.

use vstd::prelude::*;
use vstd::utf8::decode_utf8;
use vstd::utf8::encode_utf8;
use vstd::utf8::encode_utf8_decode_utf8;
use crate::candidate::CandidateType;
use crate::decimal::digit_char;
use crate::decimal::digit_str;
use crate::decimal::is_digit;
use crate::network_type::NetworkType;
use crate::words::is_whitespace;
use crate::words::is_word;

verus! {

/// The number that stands for a candidate type in a foundation.
pub open spec fn candidate_type_code(t: CandidateType) -> nat {
    match t {
        CandidateType::Host => 1,
        CandidateType::PeerReflexive => 2,
        CandidateType::ServerReflexive => 3,
        CandidateType::Relay => 4,
    }
}

/// The number that stands for a network type in a foundation.
pub open spec fn network_type_code(n: NetworkType) -> nat {
    match n {
        NetworkType::Udp4 => 1,
        NetworkType::Udp6 => 2,
        NetworkType::Tcp4 => 3,
        NetworkType::Tcp6 => 4,
    }
}

/// A byte as three decimal digits, leading zeros kept.
pub open spec fn byte_digits(b: u8) -> Seq<char> {
    seq![
        digit_char((b / 100) as nat),
        digit_char(((b / 10) % 10) as nat),
        digit_char((b % 10) as nat),
    ]
}

/// The bytes of `bytes`, each as three decimal digits.
pub open spec fn bytes_digits(bytes: Seq<u8>) -> Seq<char>
    decreases bytes.len(),
{
    if bytes.len() == 0 {
        Seq::empty()
    } else {
        bytes_digits(bytes.drop_last()) + byte_digits(bytes.last())
    }
}

/// The foundation of the candidates of type `t` on network `n` at `address`.
pub open spec fn derived_foundation(t: CandidateType, n: NetworkType, address: Seq<char>) -> Seq<
    char,
> {
    seq![digit_char(candidate_type_code(t)), digit_char(network_type_code(n))] + bytes_digits(
        encode_utf8(address),
    )
}

proof fn lemma_bytes_digits_len(bytes: Seq<u8>)
    ensures
        bytes_digits(bytes).len() == 3 * bytes.len(),
    decreases bytes.len(),
{
    if bytes.len() > 0 {
        lemma_bytes_digits_len(bytes.drop_last());
    }
}

proof fn lemma_bytes_digits_are_digits(bytes: Seq<u8>)
    ensures
        forall|i: int| 0 <= i < bytes_digits(bytes).len() ==> is_digit(#[trigger] bytes_digits(bytes)[i]),
    decreases bytes.len(),
{
    if bytes.len() > 0 {
        lemma_bytes_digits_are_digits(bytes.drop_last());
        lemma_bytes_digits_len(bytes.drop_last());
        let init = bytes_digits(bytes.drop_last());
        let last = byte_digits(bytes.last());
        let all = bytes_digits(bytes);
        assert forall|i: int| 0 <= i < all.len() implies is_digit(#[trigger] all[i]) by {
            if i < init.len() {
                assert(all[i] == init[i]);
            } else {
                assert(all[i] == last[i - init.len()]);
            }
        }
    }
}

proof fn lemma_byte_digits_injective(a: u8, b: u8)
    requires
        byte_digits(a) == byte_digits(b),
    ensures
        a == b,
{
    assert(byte_digits(a)[0] == byte_digits(b)[0]);
    assert(byte_digits(a)[1] == byte_digits(b)[1]);
    assert(byte_digits(a)[2] == byte_digits(b)[2]);
    assert(a / 100 == b / 100);
    assert((a / 10) % 10 == (b / 10) % 10);
    assert(a % 10 == b % 10);
}

proof fn lemma_bytes_digits_injective(a: Seq<u8>, b: Seq<u8>)
    requires
        bytes_digits(a) == bytes_digits(b),
    ensures
        a == b,
    decreases a.len(),
{
    lemma_bytes_digits_len(a);
    lemma_bytes_digits_len(b);
    if a.len() == 0 {
        assert(a =~= b);
    } else {
        lemma_bytes_digits_len(a.drop_last());
        lemma_bytes_digits_len(b.drop_last());
        let da = bytes_digits(a);
        let db = bytes_digits(b);
        let n = 3 * (a.len() - 1);
        assert(da.subrange(0, n) =~= bytes_digits(a.drop_last()));
        assert(db.subrange(0, n) =~= bytes_digits(b.drop_last()));
        assert(da.subrange(n, n + 3) =~= byte_digits(a.last()));
        assert(db.subrange(n, n + 3) =~= byte_digits(b.last()));
        lemma_byte_digits_injective(a.last(), b.last());
        lemma_bytes_digits_injective(a.drop_last(), b.drop_last());
        assert(a =~= a.drop_last().push(a.last()));
        assert(b =~= b.drop_last().push(b.last()));
    }
}

/// Two triples of candidate type, network type and address have the same
/// foundation if and only if they are the same triple.
pub proof fn lemma_derived_foundation_injective(
    t1: CandidateType,
    n1: NetworkType,
    a1: Seq<char>,
    t2: CandidateType,
    n2: NetworkType,
    a2: Seq<char>,
)
    ensures
        derived_foundation(t1, n1, a1) == derived_foundation(t2, n2, a2) <==> t1 == t2 && n1 == n2
            && a1 == a2,
{
    let f1 = derived_foundation(t1, n1, a1);
    let f2 = derived_foundation(t2, n2, a2);
    if f1 == f2 {
        assert(f1[0] == f2[0]);
        assert(f1[1] == f2[1]);
        assert(f1.skip(2) =~= bytes_digits(encode_utf8(a1)));
        assert(f2.skip(2) =~= bytes_digits(encode_utf8(a2)));
        lemma_bytes_digits_injective(encode_utf8(a1), encode_utf8(a2));
        encode_utf8_decode_utf8(a1);
        encode_utf8_decode_utf8(a2);
        assert(decode_utf8(encode_utf8(a1)) == decode_utf8(encode_utf8(a2)));
    }
}

/// A foundation is a run of digits, and so one word.
pub proof fn lemma_derived_foundation_is_word(t: CandidateType, n: NetworkType, address: Seq<char>)
    ensures
        is_word(derived_foundation(t, n, address)),
        derived_foundation(t, n, address).len() >= 2,
{
    let f = derived_foundation(t, n, address);
    let tail = bytes_digits(encode_utf8(address));
    lemma_bytes_digits_are_digits(encode_utf8(address));
    assert forall|i: int| 0 <= i < f.len() implies !is_whitespace(#[trigger] f[i]) by {
        if i >= 2 {
            assert(f[i] == tail[i - 2]);
            assert(is_digit(tail[i - 2]));
        }
    }
}

/// Computes the foundation of the candidates of type `t` on network `n` at
/// `address`.
pub fn derive_foundation(t: CandidateType, n: NetworkType, address: &str) -> (s: String)
    ensures
        s@ == derived_foundation(t, n, address@),
{
    let type_code: u64 = match t {
        CandidateType::Host => 1,
        CandidateType::PeerReflexive => 2,
        CandidateType::ServerReflexive => 3,
        CandidateType::Relay => 4,
    };
    let network_code: u64 = match n {
        NetworkType::Udp4 => 1,
        NetworkType::Udp6 => 2,
        NetworkType::Tcp4 => 3,
        NetworkType::Tcp6 => 4,
    };
    let mut s = String::from_str(digit_str(type_code));
    s.append(digit_str(network_code));
    let ghost head = s@;
    assert(head =~= seq![
        digit_char(candidate_type_code(t)),
        digit_char(network_type_code(n)),
    ]);
    let bytes = address.as_bytes();
    assert(bytes@ == encode_utf8(address@));
    let mut i: usize = 0;
    assert(bytes@.take(0) =~= Seq::<u8>::empty());
    while i < bytes.len()
        invariant
            i <= bytes.len(),
            s@ == head + bytes_digits(bytes@.take(i as int)),
        decreases bytes.len() - i,
    {
        let b = bytes[i];
        let ghost before = s@;
        s.append(digit_str((b / 100) as u64));
        s.append(digit_str(((b / 10) % 10) as u64));
        s.append(digit_str((b % 10) as u64));
        proof {
            assert(bytes@.take(i + 1).drop_last() =~= bytes@.take(i as int));
            assert(bytes@.take(i + 1).last() == b);
            assert(s@ =~= before + byte_digits(b));
            assert(s@ =~= head + bytes_digits(bytes@.take(i + 1)));
        }
        i += 1;
    }
    assert(bytes@.take(i as int) =~= bytes@);
    s
}

} // verus!
