//! Tuples, fixed-size arrays, and the small routines that walk them:
//! destructuring, ordering checks, matrix transposition, and a rolling
//! byte digest.

use vstd::prelude::*;
use vstd::string::StringSliceAdditionalSpecFns;

verus! {

/// Pull a tuple apart into its components, in several ways.
pub fn take_tuple(tuple: (char, i32, bool)) {
    let a = tuple.0;
    let b = tuple.1;
    let c = tuple.2;

    let (a, b, c) = tuple;

    let (_, b, c) = tuple;

    let (_, _, c) = tuple;
}

/// Pull the first and last element out of a five-byte array.
pub fn takes_array(array: [u8; 5]) {
    let first = array[0];
    let last = array[4];
}

/// The index that gets overwritten in the array demonstrations.
pub fn get_index() -> (idx: usize)
    ensures
        idx == 2,
{
    2
}

/// Whether a triple is in strictly increasing order.
pub fn check_order(tuple: (i32, i32, i32)) -> (ordered: bool)
    ensures
        ordered == (tuple.0 < tuple.1 && tuple.1 < tuple.2),
{
    let (left, middle, right) = tuple;
    left < middle && middle < right
}

/// Mirror a three-by-three matrix along its diagonal.
pub fn transpose(matrix: [[i32; 3]; 3]) -> (result: [[i32; 3]; 3])
    ensures
        forall|i: int, j: int| 0 <= i < 3 && 0 <= j < 3 ==> result[j][i] == matrix[i][j],
{
    let mut result: [[i32; 3]; 3] = [[0; 3]; 3];
    for i in 0..3
        invariant
            forall|i2: int, j2: int|
                0 <= i2 < i && 0 <= j2 < 3 ==> result[j2][i2] == matrix[i2][j2],
    {
        for j in 0..3
            invariant
                i < 3,
                forall|i2: int, j2: int|
                    0 <= i2 < i && 0 <= j2 < 3 ==> result[j2][i2] == matrix[i2][j2],
                forall|j2: int| 0 <= j2 < j ==> result[j2][i as int] == matrix[i as int][j2],
        {
            let mut row = result[j];
            row[i] = matrix[i][j];
            result[j] = row;
        }
    }
    result
}

/// No number from two up to but excluding `p` divides `p` evenly.
pub open spec fn no_small_factor(p: u32) -> bool {
    forall|i: u32| 2 <= i < p ==> #[trigger] (p % i) != 0
}

/// Walk a table of primes and check each against every candidate divisor.
pub fn array_iterator() {
    let primes: [u32; 8] = [2, 3, 5, 7, 11, 13, 17, 19];
    proof {
        assert(forall|i: u32| 2 <= i < 2 ==> #[trigger] (2u32 % i) != 0) by (bit_vector);
        assert(forall|i: u32| 2 <= i < 3 ==> #[trigger] (3u32 % i) != 0) by (bit_vector);
        assert(forall|i: u32| 2 <= i < 5 ==> #[trigger] (5u32 % i) != 0) by (bit_vector);
        assert(forall|i: u32| 2 <= i < 7 ==> #[trigger] (7u32 % i) != 0) by (bit_vector);
        assert(forall|i: u32| 2 <= i < 11 ==> #[trigger] (11u32 % i) != 0) by (bit_vector);
        assert(forall|i: u32| 2 <= i < 13 ==> #[trigger] (13u32 % i) != 0) by (bit_vector);
        assert(forall|i: u32| 2 <= i < 17 ==> #[trigger] (17u32 % i) != 0) by (bit_vector);
        assert(forall|i: u32| 2 <= i < 19 ==> #[trigger] (19u32 % i) != 0) by (bit_vector);
        assert(forall|k: int| 0 <= k < 8 ==> no_small_factor(primes[k]));
    }
    for k in 0..8
        invariant
            forall|k2: int| 0 <= k2 < 8 ==> no_small_factor(primes[k2]),
    {
        let prime = primes[k];
        let mut i: u32 = 2;
        while i < prime
            invariant
                no_small_factor(prime),
                2 <= i,
            decreases prime - i,
        {
            assert(prime % i != 0);
            i = i + 1;
        }
    }
}

/// How many bytes a digest holds.
pub const DIGEST_SIZE: usize = 3;

/// The value every digest byte starts from.
pub const FILL_VALUE: u8 = 42;

/// The starting value for digest bytes: one value for short digests,
/// another for long ones.
pub fn calculate_fill_value() -> (fill: u8)
    ensures
        fill == FILL_VALUE,
{
    if DIGEST_SIZE < 10 {
        42
    } else {
        13
    }
}

/// A byte added into a digest byte, wrapping around at 256.
pub open spec fn wrap_add(a: u8, b: u8) -> u8 {
    ((a as int + b as int) % 256) as u8
}

/// The digest of a byte sequence: starting from a filled buffer, each byte
/// in turn is added, wrapping, into the slot given by its index modulo the
/// digest size.
pub open spec fn digest_of(bytes: Seq<u8>) -> Seq<u8>
    decreases bytes.len(),
{
    if bytes.len() == 0 {
        seq![FILL_VALUE, FILL_VALUE, FILL_VALUE]
    } else {
        let prev = digest_of(bytes.drop_last());
        let slot = (bytes.len() - 1) as int % (DIGEST_SIZE as int);
        prev.update(slot, wrap_add(prev[slot], bytes.last()))
    }
}

/// Fold the bytes of a string into a three-byte rolling digest.
pub fn compute_digest(text: &str) -> (digest: [u8; DIGEST_SIZE])
    ensures
        digest@ == digest_of(text.spec_bytes()),
{
    let bytes = text.as_bytes();
    let mut digest: [u8; DIGEST_SIZE] = [FILL_VALUE; DIGEST_SIZE];
    proof {
        assert(digest@ =~= digest_of(text.spec_bytes().take(0)));
    }
    for idx in 0..bytes.len()
        invariant
            bytes@ == text.spec_bytes(),
            digest@ == digest_of(bytes@.take(idx as int)),
    {
        let slot = idx % DIGEST_SIZE;
        digest[slot] = digest[slot].wrapping_add(bytes[idx]);
        proof {
            assert(bytes@.take(idx + 1).drop_last() =~= bytes@.take(idx as int));
            assert(bytes@.take(idx + 1).last() == bytes@[idx as int]);
        }
    }
    proof {
        assert(bytes@.take(bytes@.len() as int) =~= bytes@);
    }
    digest
}

} // verus!
