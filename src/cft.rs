//! The function whitelist of a contract as a binary Merkle tree over
//! fingerprint digests.
//!
//! A layer with an odd number of nodes promotes its last node unchanged. The
//! two children of a node are put in bytewise order before they are hashed,
//! so an inclusion proof is a plain list of sibling digests: the verifier
//! combines the running digest with each sibling without knowing which side
//! it stood on.
use crate::error::{PsyGuardError, PsyResult};
use crate::hash::{self, append_bytes, bytes_less, bytes_lt, hash_eq, hashes_view, sha256, sha256_of, zero_hash, zero_hash_spec};
use crate::types::{CfcFingerprint, CftInclusionProof, CftRoot, CftVerificationResult};
use vstd::prelude::*;
use vstd::utf8::encode_utf8;

verus! {

/// The digest of a fingerprint: its UTF-8 bytes hashed.
pub open spec fn leaf_spec(fp: Seq<char>) -> Seq<u8> {
    sha256_of(encode_utf8(fp))
}

/// The parent of two nodes: the digest of the lesser child followed by the
/// other.
pub open spec fn node_spec(a: Seq<u8>, b: Seq<u8>) -> Seq<u8> {
    if bytes_lt(b, a) {
        sha256_of(b + a)
    } else {
        sha256_of(a + b)
    }
}

/// The layer above `l`: pairs hashed left to right, an odd last node promoted.
pub open spec fn next_layer(l: Seq<Seq<u8>>) -> Seq<Seq<u8>> {
    Seq::new(
        ((l.len() + 1) / 2) as nat,
        |j: int|
            if 2 * j + 1 < l.len() {
                node_spec(l[2 * j], l[2 * j + 1])
            } else {
                l[2 * j]
            },
    )
}

/// The root over a layer: the zero digest for no node, the node itself for one.
pub open spec fn layer_root(l: Seq<Seq<u8>>) -> Seq<u8>
    decreases l.len(),
{
    if l.len() == 0 {
        zero_hash_spec()
    } else if l.len() == 1 {
        l[0]
    } else {
        layer_root(next_layer(l))
    }
}

pub open spec fn leaves_spec(fps: Seq<CfcFingerprint>) -> Seq<Seq<u8>> {
    Seq::new(fps.len(), |i: int| leaf_spec(fps[i]@))
}

/// The whitelist root of a list of fingerprints.
pub open spec fn cft_root_spec(fps: Seq<CfcFingerprint>) -> Seq<u8> {
    layer_root(leaves_spec(fps))
}

pub open spec fn sibling(i: int) -> int {
    if i % 2 == 0 {
        i + 1
    } else {
        i - 1
    }
}

/// The siblings met on the way from node `i` of layer `l` to the root; a
/// promoted node has none on its layer.
pub open spec fn path_spec(l: Seq<Seq<u8>>, i: int) -> Seq<Seq<u8>>
    decreases l.len(),
{
    if l.len() <= 1 {
        Seq::empty()
    } else if sibling(i) < l.len() {
        seq![l[sibling(i)]] + path_spec(next_layer(l), i / 2)
    } else {
        path_spec(next_layer(l), i / 2)
    }
}

/// The digest reached from `h` by combining it with each sibling in turn.
pub open spec fn fold_spec(h: Seq<u8>, path: Seq<Seq<u8>>) -> Seq<u8>
    decreases path.len(),
{
    if path.len() == 0 {
        h
    } else {
        fold_spec(node_spec(h, path[0]), path.drop_first())
    }
}

pub proof fn lemma_node_commutes(a: Seq<u8>, b: Seq<u8>)
    ensures
        node_spec(a, b) == node_spec(b, a),
{
    hash::lemma_bytes_lt_total(a, b);
    hash::lemma_bytes_lt_asymmetric(a, b);
}

/// Folding the siblings of node `i` onto that node yields the layer's root.
pub proof fn lemma_fold_path(l: Seq<Seq<u8>>, i: int)
    requires
        0 <= i < l.len(),
    ensures
        fold_spec(l[i], path_spec(l, i)) == layer_root(l),
    decreases l.len(),
{
    if l.len() > 1 {
        let n = next_layer(l);
        let s = sibling(i);
        lemma_fold_path(n, i / 2);
        if s < l.len() {
            let p = seq![l[s]] + path_spec(n, i / 2);
            assert(p.drop_first() =~= path_spec(n, i / 2));
            if i % 2 == 0 {
                assert(n[i / 2] == node_spec(l[i], l[i + 1]));
            } else {
                assert(n[i / 2] == node_spec(l[i - 1], l[i]));
                lemma_node_commutes(l[i - 1], l[i]);
            }
        } else {
            assert(n[i / 2] == l[i]);
        }
    }
}

/// Round trip of the whitelist: for every non-empty list of fingerprints and
/// every index in it, folding the proof that `generate_proof` gives onto the
/// fingerprint's digest yields exactly the root that `build_cft` gives, so
/// `verify_inclusion` accepts it.
pub proof fn lemma_cft_round_trip(fps: Seq<CfcFingerprint>, i: int)
    requires
        0 <= i < fps.len(),
    ensures
        fold_spec(leaf_spec(fps[i]@), path_spec(leaves_spec(fps), i)) == cft_root_spec(fps),
{
    lemma_fold_path(leaves_spec(fps), i);
}

/// Builds, proves and verifies membership in function whitelists.
pub struct CftVerifier;

impl CftVerifier {
    /// Whether folding the proof's path onto the fingerprint's digest reaches
    /// the proof's root. It never fails.
    pub fn verify_inclusion(fingerprint: &CfcFingerprint, proof: &CftInclusionProof) -> (r:
        PsyResult<bool>)
        ensures
            r is Ok,
            r matches Ok(b) && b == (fold_spec(leaf_spec(fingerprint@), hashes_view(proof.merkle_path@))
                == proof.cft_root.0@),
    {
        let mut current = Self::hash_fingerprint(fingerprint);
        let ghost path = hashes_view(proof.merkle_path@);
        let ghost target = fold_spec(leaf_spec(fingerprint@), path);
        let mut i: usize = 0;
        assert(path.skip(0) =~= path);
        while i < proof.merkle_path.len()
            invariant
                0 <= i <= proof.merkle_path@.len(),
                path == hashes_view(proof.merkle_path@),
                fold_spec(current@, path.skip(i as int)) == target,
            decreases proof.merkle_path@.len() - i,
        {
            assert(path.skip(i as int).drop_first() =~= path.skip(i + 1));
            current = Self::hash_pair(&current, &proof.merkle_path[i]);
            i = i + 1;
        }
        Ok(hash_eq(&current, &proof.cft_root.0))
    }

    /// `verify_inclusion` with the proof's root, depth and path attached.
    pub fn verify_with_details(fingerprint: &CfcFingerprint, proof: &CftInclusionProof) -> (r:
        PsyResult<CftVerificationResult>)
        ensures
            r matches Ok(d) && {
                &&& d.fingerprint@ == fingerprint@
                &&& d.in_cft == (fold_spec(leaf_spec(fingerprint@), hashes_view(proof.merkle_path@))
                    == proof.cft_root.0@)
                &&& d.cft_root.0 == proof.cft_root.0
                &&& d.depth == proof.merkle_path@.len()
                &&& (d.merkle_path matches Some(mp) && mp@ == proof.merkle_path@)
                &&& d.source@ == "GCON.CLEAF"@
            },
    {
        let in_cft = match Self::verify_inclusion(fingerprint, proof) {
            Ok(b) => b,
            Err(e) => {
                return Err(e);
            },
        };
        let path = Self::copy_path(&proof.merkle_path);
        Ok(CftVerificationResult {
            fingerprint: CfcFingerprint(fingerprint.0.clone()),
            in_cft,
            cft_root: CftRoot(proof.cft_root.0),
            depth: proof.merkle_path.len(),
            merkle_path: Some(path),
            source: "GCON.CLEAF".to_owned(),
        })
    }

    fn copy_path(p: &Vec<hash::Hash>) -> (r: Vec<hash::Hash>)
        ensures
            r@ == p@,
    {
        let mut r: Vec<hash::Hash> = Vec::new();
        let mut i: usize = 0;
        while i < p.len()
            invariant
                0 <= i <= p@.len(),
                r@ == p@.subrange(0, i as int),
            decreases p@.len() - i,
        {
            r.push(p[i]);
            i = i + 1;
            assert(r@ =~= p@.subrange(0, i as int));
        }
        assert(r@ =~= p@);
        r
    }

    fn hash_fingerprint(fingerprint: &CfcFingerprint) -> (r: hash::Hash)
        ensures
            r@ == leaf_spec(fingerprint@),
    {
        sha256(fingerprint.0.as_str().as_bytes())
    }

    fn hash_pair(a: &hash::Hash, b: &hash::Hash) -> (r: hash::Hash)
        ensures
            r@ == node_spec(a@, b@),
    {
        let mut buf: Vec<u8> = Vec::new();
        if bytes_less(b, a) {
            append_bytes(&mut buf, b);
            append_bytes(&mut buf, a);
        } else {
            append_bytes(&mut buf, a);
            append_bytes(&mut buf, b);
        }
        sha256(buf.as_slice())
    }

    fn leaves(fingerprints: &[CfcFingerprint]) -> (r: Vec<hash::Hash>)
        ensures
            r@.len() == fingerprints@.len(),
            hashes_view(r@) == leaves_spec(fingerprints@),
    {
        let mut r: Vec<hash::Hash> = Vec::new();
        let mut i: usize = 0;
        while i < fingerprints.len()
            invariant
                0 <= i <= fingerprints@.len(),
                r@.len() == i,
                hashes_view(r@) == leaves_spec(fingerprints@).subrange(0, i as int),
            decreases fingerprints@.len() - i,
        {
            r.push(Self::hash_fingerprint(&fingerprints[i]));
            i = i + 1;
            assert(hashes_view(r@) =~= leaves_spec(fingerprints@).subrange(0, i as int));
        }
        assert(leaves_spec(fingerprints@).subrange(0, i as int) =~= leaves_spec(fingerprints@));
        r
    }

    fn next_level(level: &Vec<hash::Hash>) -> (r: Vec<hash::Hash>)
        ensures
            r@.len() == (level@.len() + 1) / 2,
            hashes_view(r@) == next_layer(hashes_view(level@)),
    {
        let ghost l = hashes_view(level@);
        let mut r: Vec<hash::Hash> = Vec::new();
        let mut j: usize = 0;
        while j < level.len() && level.len() - j >= 2
            invariant
                l == hashes_view(level@),
                j % 2 == 0,
                0 <= j <= level@.len(),
                r@.len() == j / 2,
                hashes_view(r@) == next_layer(l).subrange(0, j as int / 2),
            decreases level@.len() - j,
        {
            let h = Self::hash_pair(&level[j], &level[j + 1]);
            assert(next_layer(l)[j as int / 2] == node_spec(l[j as int], l[j + 1]));
            r.push(h);
            j = j + 2;
            assert(hashes_view(r@) =~= next_layer(l).subrange(0, j as int / 2));
        }
        if j < level.len() {
            assert(next_layer(l)[j as int / 2] == l[j as int]);
            r.push(level[j]);
            assert(hashes_view(r@) =~= next_layer(l).subrange(0, j as int / 2 + 1));
            assert(next_layer(l).subrange(0, j as int / 2 + 1) =~= next_layer(l));
        } else {
            assert(next_layer(l).subrange(0, j as int / 2) =~= next_layer(l));
        }
        r
    }

    /// The root of the whitelist tree over `fingerprints`; the zero digest
    /// when there are none.
    pub fn build_cft(fingerprints: &[CfcFingerprint]) -> (r: CftRoot)
        ensures
            r.0@ == cft_root_spec(fingerprints@),
    {
        if fingerprints.len() == 0 {
            return CftRoot(zero_hash());
        }
        let mut level = Self::leaves(fingerprints);
        while level.len() > 1
            invariant
                level@.len() >= 1,
                layer_root(hashes_view(level@)) == cft_root_spec(fingerprints@),
            decreases level@.len(),
        {
            level = Self::next_level(&level);
        }
        CftRoot(level[0])
    }

    /// The inclusion proof of the fingerprint at `target_index`: its
    /// siblings bottom-up and the root of the whole list. Fails with
    /// `NotFound` when the index is out of range.
    pub fn generate_proof(fingerprints: &[CfcFingerprint], target_index: usize) -> (r: PsyResult<
        CftInclusionProof,
    >)
        ensures
            target_index >= fingerprints@.len() <==> r is Err,
            r matches Err(e) ==> e is NotFound,
            r matches Ok(p) ==> hashes_view(p.merkle_path@) == path_spec(
                leaves_spec(fingerprints@),
                target_index as int,
            ) && p.cft_root.0@ == cft_root_spec(fingerprints@),
    {
        if target_index >= fingerprints.len() {
            let msg = crate::text::join("fingerprint index out of range: ", crate::text::decimal(target_index as u64).as_str());
            return Err(PsyGuardError::NotFound(msg));
        }
        let mut level = Self::leaves(fingerprints);
        let ghost leaves = hashes_view(level@);
        let mut path: Vec<hash::Hash> = Vec::new();
        let mut current: usize = target_index;
        while level.len() > 1
            invariant
                level@.len() >= 1,
                current < level@.len(),
                layer_root(hashes_view(level@)) == layer_root(leaves),
                hashes_view(path@) + path_spec(hashes_view(level@), current as int) == path_spec(leaves, target_index as int),
            decreases level@.len(),
        {
            let ghost l = hashes_view(level@);
            let sib: usize = if current % 2 == 0 { current + 1 } else { current - 1 };
            let ghost old_path = hashes_view(path@);
            if sib < level.len() {
                path.push(level[sib]);
                assert(hashes_view(path@) =~= old_path + seq![l[sib as int]]);
                assert(hashes_view(path@) + path_spec(next_layer(l), current as int / 2) =~= old_path + (seq![l[sib as int]] + path_spec(next_layer(l), current as int / 2)));
            } else {
                assert(hashes_view(path@) =~= old_path);
            }
            level = Self::next_level(&level);
            current = current / 2;
        }
        Ok(CftInclusionProof { merkle_path: path, cft_root: CftRoot(level[0]) })
    }
}

} // verus!
