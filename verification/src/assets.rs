//! The asset registry: an append-only store of shared, type-erased,
//! immutable-after-load asset handles, addressable by index and retrievable
//! with a checked downcast.
//!
//! Assets of heterogeneous concrete type live in one container while
//! staying type-safe at the point of use: each stored handle is paired with
//! the tag of its concrete type, retrieval checks the tag and only then
//! downcasts. Verus cannot look through `dyn Any`, so the erased handles
//! live behind an opaque store whose trusted methods carry the tag
//! bookkeeping; everything above them is verified.

use vstd::prelude::*;
use std::sync::Arc;
use crate::error::NeutonResult;

verus! {

/// Trait for all assets in the registry: an asset identifies its own
/// concrete type by a tag.
///
/// Obligation on implementors: distinct concrete asset types should report
/// distinct tags, so that a recorded tag genuinely identifies the entry's
/// concrete type. The registry's contracts never assume it — a retrieved
/// handle always matches both the requested type and the recorded tag — but
/// under colliding tags a probing caller can no longer read an absence as
/// "this entry has another type".
pub trait Asset: Sized + Send + Sync + 'static {
    /// The tag of this concrete asset type.
    spec fn spec_type_tag() -> u64;

    /// Returns the tag of this concrete asset type.
    fn type_tag() -> (r: u64)
        ensures
            r == Self::spec_type_tag(),
    ;
}

/// Trait for assets that can be loaded from a file. Implement it for any
/// asset type the registry should construct from a path; reading and
/// parsing the bytes is entirely the implementor's business.
pub trait LoadableAsset: Asset {
    /// Load the asset from the specified path.
    fn load(path: &str) -> NeutonResult<Self>;

    /// Returns the path of the asset.
    fn path(&self) -> &str;
}

/// The tag of each stored asset's concrete type, in insertion order: the
/// contents of the erased store.
pub uninterp spec fn erased_tags(store: ErasedAssets) -> Seq<u64>;

/// Type-erased storage of shared asset handles: each entry pairs the tag
/// of the stored concrete type with the handle, erased to `dyn Any`.
#[verifier::external_body]
pub struct ErasedAssets {
    handles: Vec<(u64, Arc<dyn core::any::Any + Send + Sync>)>,
}

impl ErasedAssets {
    /// Relies on Vec::new: an empty store holds nothing.
    #[verifier::external_body]
    fn new() -> (s: Self)
        ensures
            erased_tags(s) == Seq::<u64>::empty(),
    {
        ErasedAssets { handles: Vec::new() }
    }

    /// Relies on Vec::len: the store records one tag per entry.
    #[verifier::external_body]
    fn len(&self) -> (n: usize)
        ensures
            n == erased_tags(*self).len(),
    {
        self.handles.len()
    }

    /// Relies on Vec's indexing: the tag recorded for the entry at `index`.
    #[verifier::external_body]
    fn tag_at(&self, index: usize) -> (t: u64)
        requires
            index < erased_tags(*self).len(),
        ensures
            t == erased_tags(*self)[index as int],
    {
        self.handles[index].0
    }

    /// Relies on Vec::push and Arc::clone: appends one erased shared handle,
    /// recording the tag of its concrete type.
    #[verifier::external_body]
    fn store<T: Asset>(&mut self, tag: u64, handle: &Arc<T>)
        requires
            tag == T::spec_type_tag(),
        ensures
            erased_tags(*final(self)) == erased_tags(*old(self)).push(T::spec_type_tag()),
    {
        self.handles.push((tag, handle.clone()));
    }

    /// Relies on Arc::downcast (std::any): the checked downcast yields the
    /// stored handle exactly when the entry's concrete type is `T`. A type
    /// has one tag, so a successful downcast means the tag recorded when the
    /// entry was stored is `T`'s tag; the converse — that a matching tag
    /// guarantees success — would need tags distinct across types, which
    /// nothing machine-checked gives, so it is not claimed.
    #[verifier::external_body]
    fn retrieve<T: Asset>(&self, index: usize) -> (r: Option<Arc<T>>)
        requires
            index < erased_tags(*self).len(),
        ensures
            r is Some ==> erased_tags(*self)[index as int] == T::spec_type_tag(),
    {
        let erased: Arc<dyn core::any::Any + Send + Sync> = Arc::clone(&self.handles[index].1);
        erased.downcast::<T>().ok()
    }
}

/// The registry: an append-only sequence of shared asset handles. It keeps
/// a strong reference to every loaded asset for its own lifetime; callers
/// hold further shared handles.
pub struct AssetManager {
    store: ErasedAssets,
}

impl AssetManager {
    /// The tag of each loaded asset's concrete type, in load order.
    pub closed spec fn tags_seq(self) -> Seq<u64> {
        erased_tags(self.store)
    }

    /// An empty registry.
    pub fn new() -> (m: Self)
        ensures
            m.tags_seq() == Seq::<u64>::empty(),
    {
        AssetManager { store: ErasedAssets::new() }
    }

    /// Load an asset from `path` and append it to the registry. On success
    /// the registry grows by exactly this asset and the caller receives a
    /// shared handle; a failed load is the loader's error and leaves the
    /// registry unchanged.
    pub fn load_asset<T: LoadableAsset>(&mut self, path: &str) -> (r: NeutonResult<Arc<T>>)
        ensures
            r is Ok ==> final(self).tags_seq() == old(self).tags_seq().push(T::spec_type_tag()),
            r is Err ==> final(self).tags_seq() == old(self).tags_seq(),
    {
        match T::load(path) {
            Ok(asset) => {
                let arc = Arc::new(asset);
                let tag = T::type_tag();
                self.store.store(tag, &arc);
                Ok(arc)
            },
            Err(e) => Err(e),
        }
    }

    /// Retrieve the entry at `index` as a handle of concrete type `T`. A
    /// returned handle always comes from an entry in range whose recorded
    /// tag is `T`'s; an entry of any type with a different tag, or an index
    /// out of range, is an ordinary absence, not an error. That an entry
    /// loaded as `T` does come back (rather than a needless absence) rests
    /// on the distinct-tags obligation on [`Asset`] and is checked by the
    /// crate's tests, since the erased store cannot state it.
    pub fn get_asset<T: Asset>(&self, index: usize) -> (r: Option<Arc<T>>)
        ensures
            r is Some ==> index < self.tags_seq().len() && self.tags_seq()[index as int]
                == T::spec_type_tag(),
            index < self.tags_seq().len() && self.tags_seq()[index as int] != T::spec_type_tag()
                ==> r is None,
            index >= self.tags_seq().len() ==> r is None,
    {
        if index < self.store.len() {
            let tag = self.store.tag_at(index);
            if tag == T::type_tag() {
                self.store.retrieve(index)
            } else {
                None
            }
        } else {
            None
        }
    }
}

} // verus!
