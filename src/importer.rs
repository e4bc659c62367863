//! The scene importer: post-processing flags and native import settings.

use vstd::prelude::*;
use crate::flags::{FlagBit, mask_of};
use crate::postprocess::Process;
use crate::property::{Property, PropertyCall, decomposed_value, native_value_of, property_call, property_config};
use crate::config::config_name;
use crate::scene::{RawScene, Scene, SceneModel, SceneState};

verus! {

/// A scene importer.
///
/// It owns one native property store, which holds the import properties,
/// and accumulates the post-processing flags that the next import runs with.
pub struct Importer {
    store: usize,
    flags: u32,
}

/// The native call that imports a file.
pub struct ImportCall {
    /// The path of the file.
    pub path: String,
    /// The post-processing flags to run during the import.
    pub flags: u32,
    /// The address of the property store to import with.
    pub store: usize,
}

impl View for Importer {
    type V = u32;

    /// The accumulated post-processing flag word.
    closed spec fn view(&self) -> u32 {
        self.flags
    }
}

impl Importer {
    /// The address of the native property store that the importer owns.
    pub closed spec fn spec_store(&self) -> usize {
        self.store
    }

    /// A new importer that owns the fresh native property store at `store`,
    /// with no post-processing step.
    pub fn new(store: usize) -> (r: Importer)
        ensures
            r@ == 0,
            r.spec_store() == store,
    {
        Importer { store, flags: 0 }
    }

    /// The address of the native property store that the importer owns.
    pub fn store(&self) -> (r: usize)
        ensures
            r == self.spec_store(),
    {
        self.store
    }

    /// The accumulated post-processing flag word.
    pub fn flags(&self) -> (r: u32)
        ensures
            r == self@,
    {
        self.flags
    }

    /// Adds the given post-processing steps to this importer.
    pub fn add_processing_steps(&mut self, set: &[Process])
        ensures
            final(self)@ == old(self)@ | mask_of(set@),
            final(self).spec_store() == old(self).spec_store(),
    {
        let mut i: usize = 0;
        let ghost start = self.flags;
        proof {
            assert(start | 0u32 == start) by (bit_vector);
            assert(set@.subrange(0, 0) =~= Seq::<Process>::empty());
        }
        while i < set.len()
            invariant
                i <= set@.len(),
                self.store == old(self).store,
                self.flags == start | mask_of(set@.subrange(0, i as int)),
            decreases set@.len() - i,
        {
            let ghost prev = mask_of(set@.subrange(0, i as int));
            let f = set[i].bits();
            proof {
                assert(set@.subrange(0, i + 1).drop_last() =~= set@.subrange(0, i as int));
                assert((start | prev) | f == start | (prev | f)) by (bit_vector);
            }
            self.flags = self.flags | f;
            i = i + 1;
        }
        proof {
            assert(set@.subrange(0, set@.len() as int) =~= set@);
        }
    }

    /// Removes the given post-processing steps from this importer.
    pub fn rm_processing_steps(&mut self, set: &[Process])
        ensures
            final(self)@ == old(self)@ & !mask_of(set@),
            final(self).spec_store() == old(self).spec_store(),
    {
        let mut i: usize = 0;
        let ghost start = self.flags;
        proof {
            assert(start & !0u32 == start) by (bit_vector);
            assert(set@.subrange(0, 0) =~= Seq::<Process>::empty());
        }
        while i < set.len()
            invariant
                i <= set@.len(),
                self.store == old(self).store,
                self.flags == start & !mask_of(set@.subrange(0, i as int)),
            decreases set@.len() - i,
        {
            let ghost prev = mask_of(set@.subrange(0, i as int));
            let f = set[i].bits();
            proof {
                assert(set@.subrange(0, i + 1).drop_last() =~= set@.subrange(0, i as int));
                assert((start & !prev) & !f == start & !(prev | f)) by (bit_vector);
            }
            self.flags = self.flags & !f;
            i = i + 1;
        }
        proof {
            assert(set@.subrange(0, set@.len() as int) =~= set@);
        }
    }

    /// Performs no post-processing step.
    pub fn no_post_processing(&mut self)
        ensures
            final(self)@ == 0,
            final(self).spec_store() == old(self).spec_store(),
    {
        self.flags = 0;
    }

    /// The native call that sets an import property in the importer's store.
    pub fn set_import_property(&self, property: Property) -> (r: PropertyCall)
        ensures
            r.name@ == config_name(property_config(property)),
            r.value == native_value_of(decomposed_value(property)),
    {
        property_call(property)
    }

    /// Replaces the property store by the fresh one at `fresh`, discarding
    /// every import property, and gives the address of the old store, for
    /// the native call that releases it. The post-processing flags stay.
    pub fn reset_import_properties(&mut self, fresh: usize) -> (released: usize)
        ensures
            released == old(self).spec_store(),
            final(self).spec_store() == fresh,
            final(self)@ == old(self)@,
    {
        let released = self.store;
        self.store = fresh;
        released
    }

    /// The native call that imports the file at `file_name`, with the
    /// accumulated flags and the importer's property store.
    pub fn import_from_file(&self, file_name: &str) -> (r: ImportCall)
        ensures
            r.path@ == file_name@,
            r.flags == self@,
            r.store == self.spec_store(),
    {
        ImportCall { path: file_name.to_owned(), flags: self.flags, store: self.store }
    }
}

/// The scene that a native import produced: none where the native call
/// returned a null address, else the scene that owns the native scene at
/// `raw`, whose top-level record was read as `header`.
pub fn import_result(raw: usize, header: Option<RawScene>) -> (r: Option<Scene>)
    ensures
        r is Some <==> raw != 0 && header is Some,
        r matches Some(s) ==> s@ == (SceneModel {
            raw_scene: raw,
            header: header->Some_0,
            state: SceneState::Imported,
        }),
{
    if raw == 0 {
        return None;
    }
    match header {
        Some(h) => Some(Scene::from_raw_scene(raw, h)),
        None => None,
    }
}

/// Removing the steps just added gives back the flag word from before,
/// where none of those steps was in it.
pub proof fn lemma_add_then_rm_restores(flags: u32, steps: Seq<Process>)
    requires
        flags & mask_of(steps) == 0,
    ensures
        (flags | mask_of(steps)) & !mask_of(steps) == flags,
{
    let m = mask_of(steps);
    assert(flags & m == 0 ==> (flags | m) & !m == flags) by (bit_vector);
}

} // verus!
