//! The dependency cache layer: when its contents may be kept.

use vstd::prelude::*;
use crate::digest::sha256;
use crate::digest::sha256_digest;
use crate::text::bytes_equal;

verus! {

/// The identity of a lockfile's content: its SHA-256 digest.
#[derive(Clone, Debug, PartialEq, Eq)]
pub struct Fingerprint {
    pub digest: Vec<u8>,
}

impl View for Fingerprint {
    type V = Seq<u8>;

    open spec fn view(&self) -> Seq<u8> {
        self.digest@
    }
}

/// What is kept about the cache directory between builds: the fingerprint
/// of the lockfile that its contents were made for, if any was recorded.
#[derive(Clone, Debug, PartialEq, Eq)]
pub struct CacheLayer {
    pub key: Option<Fingerprint>,
}

impl View for CacheLayer {
    type V = Option<Seq<u8>>;

    open spec fn view(&self) -> Option<Seq<u8>> {
        match self.key {
            Some(f) => Some(f@),
            None => None,
        }
    }
}

/// What becomes of the cache directory in this build.
#[derive(Clone, Copy, Debug, PartialEq, Eq, Structural)]
pub enum CacheDecision {
    /// The directory was made for this lockfile: its contents stay.
    Reused,
    /// The directory was made for another lockfile, or none is on record:
    /// its contents are to be cleared and the new key stored.
    Invalidated,
    /// The project brings its own cache: the directory is left alone.
    Bypassed,
}

/// The fingerprint of a lockfile's content.
pub open spec fn fingerprint_of(content: Seq<u8>) -> Seq<u8> {
    sha256_digest(content)
}

/// The decision for a layer with the recorded `key` and a lockfile with
/// the given `content`.
pub open spec fn decision_for(zero_install: bool, key: Option<Seq<u8>>, content: Seq<u8>)
    -> CacheDecision {
    if zero_install {
        CacheDecision::Bypassed
    } else if key == Some(fingerprint_of(content)) {
        CacheDecision::Reused
    } else {
        CacheDecision::Invalidated
    }
}

/// The key on record once the decision has been taken.
pub open spec fn key_after(zero_install: bool, key: Option<Seq<u8>>, content: Seq<u8>) -> Option<
    Seq<u8>,
> {
    if zero_install {
        key
    } else {
        Some(fingerprint_of(content))
    }
}

/// Computes the fingerprint of a lockfile.
pub fn fingerprint(lockfile: &[u8]) -> (r: Fingerprint)
    ensures
        r@ == fingerprint_of(lockfile@),
{
    Fingerprint { digest: sha256(lockfile) }
}

/// Decides what becomes of the cache layer for this build and records the
/// lockfile's fingerprint in it. With `zero_install` the layer is not
/// looked at; a layer whose key equals the fingerprint is kept as it is.
pub fn reconcile(zero_install: bool, layer: &mut CacheLayer, lockfile: &[u8]) -> (d: CacheDecision)
    ensures
        d == decision_for(zero_install, old(layer)@, lockfile@),
        final(layer)@ == key_after(zero_install, old(layer)@, lockfile@),
        d != CacheDecision::Invalidated ==> *final(layer) == *old(layer),
{
    if zero_install {
        return CacheDecision::Bypassed;
    }
    let fresh = fingerprint(lockfile);
    let hit = match &layer.key {
        Some(stored) => bytes_equal(stored.digest.as_slice(), fresh.digest.as_slice()),
        None => false,
    };
    if hit {
        CacheDecision::Reused
    } else {
        layer.key = Some(fresh);
        CacheDecision::Invalidated
    }
}

/// A second build with the same lockfile keeps the cache: whatever was on
/// record before the first build, the second one reuses the layer.
pub proof fn lemma_same_lockfile_reuses(key: Option<Seq<u8>>, content: Seq<u8>)
    ensures
        decision_for(false, key_after(false, key, content), content) == CacheDecision::Reused,
        key_after(false, key_after(false, key, content), content) == key_after(
            false,
            key,
            content,
        ),
{
}

/// A build whose lockfile has another fingerprint than the one before
/// clears the cache.
pub proof fn lemma_changed_lockfile_invalidates(
    key: Option<Seq<u8>>,
    content: Seq<u8>,
    changed: Seq<u8>,
)
    requires
        fingerprint_of(changed) != fingerprint_of(content),
    ensures
        decision_for(false, key_after(false, key, content), changed)
            == CacheDecision::Invalidated,
{
}

/// With a cache that the project brings along, the layer is bypassed and
/// its record stays as it was, whatever the lockfile holds.
pub proof fn lemma_zero_install_bypasses(key: Option<Seq<u8>>, content: Seq<u8>)
    ensures
        decision_for(true, key, content) == CacheDecision::Bypassed,
        key_after(true, key, content) == key,
{
}

} // verus!
