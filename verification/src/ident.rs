//! Generation of the ephemeral per-request subdomain label: a fixed-length
//! identifier drawn from the lowercase hexadecimal alphabet.

use vstd::prelude::*;

verus! {

/// The alphabet of generated labels: the lowercase hexadecimal digits.
pub open spec fn spec_hex_alphabet() -> Seq<char> {
    seq!['0', '1', '2', '3', '4', '5', '6', '7', '8', '9', 'a', 'b', 'c', 'd', 'e', 'f']
}

/// The number of characters in a generated label.
pub const LABEL_LENGTH: usize = 7;

/// Relies on nanoid::format with nanoid's default random source: for a
/// 16-character ASCII alphabet it takes its fast path, which pushes exactly
/// `len` characters, each picked from `alphabet`.  Nothing more is promised:
/// the result is random.
#[verifier::external_body]
fn random_id(alphabet: &Vec<char>, len: usize) -> (r: String)
    requires
        0 < len,
        alphabet@.len() == 16,
        forall|i: int| 0 <= i < alphabet@.len() ==> (alphabet@[i] as u32) < 128,
    ensures
        r@.len() == len as nat,
        forall|i: int| 0 <= i < r@.len() ==> alphabet@.contains(#[trigger] r@[i]),
{
    nanoid::format(nanoid::rngs::default, alphabet.as_slice(), len)
}

/// Whether `label` is a well-formed generated label: fixed length, lowercase
/// hexadecimal characters only.
pub open spec fn generated_label(label: Seq<char>) -> bool {
    &&& label.len() == LABEL_LENGTH as nat
    &&& forall|i: int| 0 <= i < label.len() ==> spec_hex_alphabet().contains(#[trigger] label[i])
}

/// A fresh random label for requests that do not pin a subdomain.  No
/// uniqueness is promised: collision resistance is left to the size of the
/// alphabet and the length of the label.
pub fn generate_label() -> (r: String)
    ensures
        generated_label(r@),
{
    let alphabet: Vec<char> = vec![
        '0',
        '1',
        '2',
        '3',
        '4',
        '5',
        '6',
        '7',
        '8',
        '9',
        'a',
        'b',
        'c',
        'd',
        'e',
        'f',
    ];
    proof {
        assert(alphabet@ =~= spec_hex_alphabet());
        assert(forall|i: int|
            0 <= i < alphabet@.len() ==> (alphabet@[i] as u32) < 128) by {
            assert(alphabet@.len() == 16);
        }
    }
    random_id(&alphabet, LABEL_LENGTH)
}

} // verus!
