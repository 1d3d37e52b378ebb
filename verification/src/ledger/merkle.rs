use vstd::prelude::*;
use crate::crypto::{spec_blake3_hex, Blake3};

verus! {

/// The texts of a sequence of strings.
pub open spec fn texts(strings: Seq<String>) -> Seq<Seq<char>> {
    Seq::new(strings.len(), |i: int| strings[i]@)
}

/// The digest of a text: BLAKE3 over its UTF-8 bytes, in hexadecimal.
pub open spec fn spec_hash_text(text: Seq<char>) -> Seq<char> {
    spec_blake3_hex(vstd::utf8::encode_utf8(text))
}

/// The `i`-th pair of a layer, written as one text: node `2i` followed by
/// node `2i + 1`, or by itself where it is the last of an odd number.
pub open spec fn spec_pair(layer: Seq<Seq<char>>, i: int) -> Seq<char> {
    layer[2 * i] + if 2 * i + 1 < layer.len() {
        layer[2 * i + 1]
    } else {
        layer[2 * i]
    }
}

/// The layer above `layer`: the digest of each of its pairs.
pub open spec fn spec_next_layer(layer: Seq<Seq<char>>) -> Seq<Seq<char>> {
    Seq::new(((layer.len() + 1) / 2) as nat, |i: int| spec_hash_text(spec_pair(layer, i)))
}

/// The Merkle root of a list of digests: the digest of the empty input for
/// an empty list, the one digest of a list of one, and else the root of the
/// layer above.
pub open spec fn spec_merkle_root(layer: Seq<Seq<char>>) -> Seq<char>
    decreases layer.len(),
{
    if layer.len() == 0 {
        spec_blake3_hex(Seq::empty())
    } else if layer.len() == 1 {
        layer[0]
    } else {
        spec_merkle_root(spec_next_layer(layer))
    }
}

/// Joins the nodes of a layer two by two, the last one with itself where
/// their number is odd.
pub fn merkle_pairs(layer: &[String]) -> (pairs: Vec<String>)
    ensures
        pairs@.len() == (layer@.len() + 1) / 2,
        forall|i: int|
            0 <= i < pairs@.len() ==> (#[trigger] pairs@[i])@ == spec_pair(texts(layer@), i),
{
    let len = layer.len();
    let count = len / 2 + len % 2;
    let mut pairs: Vec<String> = Vec::new();
    let mut k: usize = 0;
    while k < count
        invariant
            len == layer@.len(),
            count == (len + 1) / 2,
            k <= count,
            pairs@.len() == k,
            forall|n: int| 0 <= n < k ==> (#[trigger] pairs@[n])@ == spec_pair(texts(layer@), n),
        decreases count - k,
    {
        let left = &layer[2 * k];
        let right = if 2 * k + 1 < len {
            &layer[2 * k + 1]
        } else {
            left
        };
        let mut combined = left.clone();
        combined.append(right.as_str());
        pairs.push(combined);
        k += 1;
    }
    pairs
}

/// Computes the Merkle root of a list of digests by hashing pairs, layer by
/// layer, until one node is left.
pub fn compute_merkle_root(hashes: &[String]) -> (root: String)
    ensures
        root@ == spec_merkle_root(texts(hashes@)),
{
    if hashes.len() == 0 {
        let empty: Vec<u8> = Vec::new();
        return Blake3::hash(empty.as_slice());
    }
    let mut current: Vec<String> = Vec::new();
    let mut k: usize = 0;
    while k < hashes.len()
        invariant
            k <= hashes@.len(),
            current@.len() == k,
            forall|j: int| 0 <= j < k ==> current@[j] == hashes@[j],
        decreases hashes@.len() - k,
    {
        current.push(hashes[k].clone());
        k += 1;
    }
    assert(texts(current@) =~= texts(hashes@));
    while current.len() > 1
        invariant
            current@.len() >= 1,
            spec_merkle_root(texts(current@)) == spec_merkle_root(texts(hashes@)),
        decreases current@.len(),
    {
        let pairs = merkle_pairs(current.as_slice());
        let mut next: Vec<String> = Vec::new();
        let mut j: usize = 0;
        while j < pairs.len()
            invariant
                j <= pairs@.len(),
                next@.len() == j,
                forall|n: int| 0 <= n < j ==> (#[trigger] next@[n])@ == spec_hash_text(pairs@[n]@),
            decreases pairs@.len() - j,
        {
            next.push(Blake3::hash(pairs[j].as_str().as_bytes()));
            j += 1;
        }
        assert(texts(next@) =~= spec_next_layer(texts(current@)));
        current = next;
    }
    current[0].clone()
}

} // verus!
