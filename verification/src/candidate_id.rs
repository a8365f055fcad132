//! Identifiers for candidates that were given none.

use rand::Rng;
use vstd::prelude::*;

verus! {

/// How many random characters an identifier holds behind its prefix.
pub const ID_RANDOM_LEN: usize = 32;

/// How many characters the alphabet of identifiers holds.
pub const ID_ALPHABET_LEN: usize = 64;

/// The characters that the random part of an identifier is drawn from:
/// letters, digits, `+` and `/`.
pub open spec fn id_alphabet() -> Seq<char> {
    "abcdefghijklmnopqrstuvwxyzABCDEFGHIJKLMNOPQRSTUVWXYZ0123456789+/"@
}

/// What every identifier starts with.
pub open spec fn id_prefix() -> Seq<char> {
    "candidate:"@
}

/// Whether `id` has the form of a generated identifier: the prefix, then
/// `ID_RANDOM_LEN` characters of the alphabet.
pub open spec fn is_generated_id(id: Seq<char>) -> bool {
    &&& id.len() == id_prefix().len() + ID_RANDOM_LEN
    &&& id.subrange(0, id_prefix().len() as int) == id_prefix()
    &&& forall|i: int| id_prefix().len() <= i < id.len() ==> id_alphabet().contains(#[trigger] id[i])
}

/// The identifier that the draws `draws` give: the prefix, then for each draw
/// the character of the alphabet at the place that the draw names. A draw
/// beyond the alphabet counts from its start again.
pub open spec fn id_of_draws(draws: Seq<usize>) -> Seq<char> {
    id_prefix() + Seq::new(
        draws.len(),
        |i: int| id_alphabet()[(draws[i] % ID_ALPHABET_LEN) as int],
    )
}

/// Whether each of `draws` names a place of the alphabet.
pub open spec fn draws_in_alphabet(draws: Seq<usize>) -> bool {
    forall|i: int| 0 <= i < draws.len() ==> #[trigger] draws[i] < ID_ALPHABET_LEN
}

/// The character at place `i` of the alphabet, by the order of the letters
/// and digits.
spec fn letter_at(i: int) -> char {
    if i < 26 {
        (97 + i) as char
    } else if i < 52 {
        (65 + i - 26) as char
    } else if i < 62 {
        (48 + i - 52) as char
    } else if i == 62 {
        '+'
    } else {
        '/'
    }
}

proof fn lemma_alphabet_letters()
    ensures
        id_alphabet().len() == ID_ALPHABET_LEN,
        id_prefix().len() == 10,
        forall|i: int| 0 <= i < 64 ==> #[trigger] id_alphabet()[i] == letter_at(i),
{
    reveal_strlit("abcdefghijklmnopqrstuvwxyzABCDEFGHIJKLMNOPQRSTUVWXYZ0123456789+/");
    reveal_strlit("candidate:");
    let s = id_alphabet();
    assert forall|i: int| 0 <= i < 64 implies #[trigger] s[i] == letter_at(i) by {
        if i < 16 {
            assert(s[0] == 'a' && s[1] == 'b' && s[2] == 'c' && s[3] == 'd');
            assert(s[4] == 'e' && s[5] == 'f' && s[6] == 'g' && s[7] == 'h');
            assert(s[8] == 'i' && s[9] == 'j' && s[10] == 'k' && s[11] == 'l');
            assert(s[12] == 'm' && s[13] == 'n' && s[14] == 'o' && s[15] == 'p');
        } else if i < 32 {
            assert(s[16] == 'q' && s[17] == 'r' && s[18] == 's' && s[19] == 't');
            assert(s[20] == 'u' && s[21] == 'v' && s[22] == 'w' && s[23] == 'x');
            assert(s[24] == 'y' && s[25] == 'z' && s[26] == 'A' && s[27] == 'B');
            assert(s[28] == 'C' && s[29] == 'D' && s[30] == 'E' && s[31] == 'F');
        } else if i < 48 {
            assert(s[32] == 'G' && s[33] == 'H' && s[34] == 'I' && s[35] == 'J');
            assert(s[36] == 'K' && s[37] == 'L' && s[38] == 'M' && s[39] == 'N');
            assert(s[40] == 'O' && s[41] == 'P' && s[42] == 'Q' && s[43] == 'R');
            assert(s[44] == 'S' && s[45] == 'T' && s[46] == 'U' && s[47] == 'V');
        } else {
            assert(s[48] == 'W' && s[49] == 'X' && s[50] == 'Y' && s[51] == 'Z');
            assert(s[52] == '0' && s[53] == '1' && s[54] == '2' && s[55] == '3');
            assert(s[56] == '4' && s[57] == '5' && s[58] == '6' && s[59] == '7');
            assert(s[60] == '8' && s[61] == '9' && s[62] == '+' && s[63] == '/');
        }
    }
}

/// No character stands twice in the alphabet.
pub proof fn lemma_alphabet_has_no_repeats(i: int, j: int)
    requires
        0 <= i < ID_ALPHABET_LEN,
        0 <= j < ID_ALPHABET_LEN,
        id_alphabet()[i] == id_alphabet()[j],
    ensures
        i == j,
{
    lemma_alphabet_letters();
    assert(id_alphabet()[i] == letter_at(i));
    assert(id_alphabet()[j] == letter_at(j));
}

/// Different draws give different identifiers: two sequences of draws within
/// the alphabet give the same identifier if and only if they are the same
/// sequence.
pub proof fn lemma_ids_differ_with_draws(a: Seq<usize>, b: Seq<usize>)
    requires
        draws_in_alphabet(a),
        draws_in_alphabet(b),
    ensures
        id_of_draws(a) == id_of_draws(b) <==> a == b,
{
    if id_of_draws(a) == id_of_draws(b) {
        let ia = id_of_draws(a);
        let ib = id_of_draws(b);
        let n = id_prefix().len() as int;
        assert(ia.len() == n + a.len());
        assert(ib.len() == n + b.len());
        assert forall|k: int| 0 <= k < a.len() implies a[k] == b[k] by {
            assert(ia[n + k] == id_alphabet()[(a[k] % ID_ALPHABET_LEN) as int]);
            assert(ib[n + k] == id_alphabet()[(b[k] % ID_ALPHABET_LEN) as int]);
            assert(a[k] < ID_ALPHABET_LEN && b[k] < ID_ALPHABET_LEN);
            lemma_alphabet_has_no_repeats(a[k] as int, b[k] as int);
        }
        assert(a =~= b);
    }
}

/// As many draws as an identifier has random characters give an identifier
/// of the generated form.
pub proof fn lemma_id_of_draws_is_generated(draws: Seq<usize>)
    requires
        draws.len() == ID_RANDOM_LEN,
    ensures
        is_generated_id(id_of_draws(draws)),
{
    lemma_alphabet_letters();
    let id = id_of_draws(draws);
    let n = id_prefix().len() as int;
    assert(id.subrange(0, n) =~= id_prefix());
    assert forall|i: int| n <= i < id.len() implies id_alphabet().contains(#[trigger] id[i]) by {
        let at = (draws[i - n] % ID_ALPHABET_LEN) as int;
        assert(id[i] == id_alphabet()[at]);
    }
}

/// Draws a number below `n` with `Rng::gen_range` on the generator that
/// `rand::thread_rng` hands out. All that is claimed of the number is that it
/// lies below `n`: which one it is differs from call to call. The generator
/// takes its seed from the operating system and panics where that gives none,
/// which no argument can rule out.
#[verifier::external_body]
fn random_below(n: usize) -> (r: usize)
    requires
        n > 0,
    ensures
        r < n,
{
    rand::thread_rng().gen_range(0..n)
}

/// Writes the identifier that the draws `draws` give: `candidate:`, then for
/// each draw the character of the alphabet that it names.
pub fn cand_id_from_draws(draws: &Vec<usize>) -> (id: String)
    ensures
        id@ == id_of_draws(draws@),
        draws.len() == ID_RANDOM_LEN ==> is_generated_id(id@),
{
    let alphabet = "abcdefghijklmnopqrstuvwxyzABCDEFGHIJKLMNOPQRSTUVWXYZ0123456789+/";
    let mut id = String::from_str("candidate:");
    proof {
        lemma_alphabet_letters();
        assert(id@ =~= id_of_draws(draws@.take(0)));
    }
    let mut i: usize = 0;
    while i < draws.len()
        invariant
            i <= draws.len(),
            alphabet@ == id_alphabet(),
            alphabet@.len() == ID_ALPHABET_LEN,
            id@ == id_of_draws(draws@.take(i as int)),
        decreases draws.len() - i,
    {
        let at = draws[i] % ID_ALPHABET_LEN;
        let letter = alphabet.substring_char(at, at + 1);
        id.append(letter);
        proof {
            assert(letter@ =~= seq![alphabet@[at as int]]);
            assert(id@ =~= id_of_draws(draws@.take(i + 1)));
        }
        i += 1;
    }
    proof {
        assert(draws@.take(i as int) =~= draws@);
        if draws.len() == ID_RANDOM_LEN {
            lemma_id_of_draws_is_generated(draws@);
        }
    }
    id
}

/// Makes a fresh identifier for a candidate: `candidate:` followed by 32
/// characters drawn at random from letters, digits, `+` and `/`.
///
/// The characters are those that 32 draws below the size of the alphabet
/// name; which draws they are differs from call to call.
pub fn generate_cand_id() -> (id: String)
    ensures
        is_generated_id(id@),
        exists|draws: Seq<usize>|
            draws.len() == ID_RANDOM_LEN && draws_in_alphabet(draws) && id@ == #[trigger] id_of_draws(
                draws,
            ),
{
    let mut draws: Vec<usize> = Vec::new();
    while draws.len() < ID_RANDOM_LEN
        invariant
            draws.len() <= ID_RANDOM_LEN,
            draws_in_alphabet(draws@),
        decreases ID_RANDOM_LEN - draws.len(),
    {
        draws.push(random_below(ID_ALPHABET_LEN));
    }
    let id = cand_id_from_draws(&draws);
    assert(id@ == id_of_draws(draws@));
    id
}

} // verus!
