//! The local service record: the attachment point that assigns indices
//! and paths to its characteristics.

use vstd::prelude::*;
use crate::characteristic::{LocalCharBase, WriteCallback};
use crate::path::{child_path, child_path_spec, service_prefix, char_prefix_spec};
use crate::strmap::StrMap;
use crate::value::ValueSource;

verus! {

/// A local GATT service owning characteristics keyed by UUID.
pub struct LocalServiceBase<G: ValueSource, CB: WriteCallback<G>> {
    pub uuid: String,
    pub path: Vec<u8>,
    pub index: u16,
    pub handle: u16,
    /// The next characteristic index to hand out.
    pub char_index: u16,
    pub chars: StrMap<LocalCharBase<G, CB>>,
}

impl<G: ValueSource, CB: WriteCallback<G>> LocalServiceBase<G, CB> {
    pub open spec fn wf(self) -> bool {
        self.chars.wf()
    }

    pub fn new(uuid: &str) -> (r: Self)
        ensures
            r.uuid@ == uuid@,
            r.path@ == Seq::<u8>::empty(),
            r.index == 0,
            r.handle == 0,
            r.char_index == 0,
            r.chars.entry_seq() == Seq::<(String, LocalCharBase<G, CB>)>::empty(),
            r.wf(),
    {
        LocalServiceBase {
            uuid: String::from_str(uuid),
            path: Vec::new(),
            index: 0,
            handle: 0,
            char_index: 0,
            chars: StrMap::new(),
        }
    }

    /// Attaches a characteristic: assigns it the next sequential index,
    /// this service's UUID as its back-reference, and its path under
    /// this service's path. A characteristic with the same UUID is
    /// replaced.
    pub fn add_char(&mut self, base: LocalCharBase<G, CB>)
        requires
            old(self).wf(),
            base.wf(),
            old(self).char_index < 0xffff,
        ensures
            final(self).wf(),
            final(self).chars.spec_get(base.uuid@) matches Some(c) && c.uuid == base.uuid
                && c.serv_uuid == old(self).uuid && c.index == old(self).char_index && c.path@
                == child_path_spec(old(self).path@, char_prefix_spec(), old(self).char_index)
                && c.vf == base.vf && c.flags == base.flags,
            forall|k2: Seq<char>|
                k2 != base.uuid@ ==> #[trigger] final(self).chars.spec_get(k2) == old(
                    self,
                ).chars.spec_get(k2),
            final(self).char_index == old(self).char_index + 1,
            final(self).uuid == old(self).uuid,
            final(self).path == old(self).path,
    {
        let mut base = base;
        base.index = self.char_index;
        base.serv_uuid = self.uuid.clone();
        self.char_index = self.char_index + 1;
        base.update_path(self.path.as_slice());
        let key = base.uuid.clone();
        self.chars.insert(key, base);
    }

    /// Rebases this service's path under the application root and
    /// cascades to its characteristics and their descriptors.
    pub fn update_path(&mut self, base: &[u8])
        requires
            old(self).wf(),
        ensures
            final(self).wf(),
            final(self).path@ == child_path_spec(base@, crate::path::service_prefix_spec(),
                old(self).index),
            final(self).chars.key_seq() == old(self).chars.key_seq(),
            forall|j: int|
                0 <= j < final(self).chars.entry_seq().len() ==> {
                    let pre = #[trigger] old(self).chars.entry_seq()[j].1;
                    let post = final(self).chars.entry_seq()[j].1;
                    &&& post.uuid == pre.uuid
                    &&& post.index == pre.index
                    &&& post.vf == pre.vf
                    &&& post.flags == pre.flags
                    &&& post.path@ == child_path_spec(final(self).path@, char_prefix_spec(),
                        pre.index)
                },
            final(self).uuid == old(self).uuid,
            final(self).index == old(self).index,
            final(self).char_index == old(self).char_index,
    {
        let prefix = service_prefix();
        self.path = child_path(base, &prefix, self.index);
        let n = self.chars.len();
        let mut i: usize = 0;
        while i < n
            invariant
                i <= n,
                n == self.chars.entry_seq().len(),
                self.chars.entry_seq().len() == old(self).chars.entry_seq().len(),
                self.path@ == child_path_spec(base@, crate::path::service_prefix_spec(),
                    old(self).index),
                self.uuid == old(self).uuid,
                self.index == old(self).index,
                self.handle == old(self).handle,
                self.char_index == old(self).char_index,
                old(self).wf(),
                forall|j: int|
                    0 <= j < n ==> #[trigger] self.chars.entry_seq()[j].0 == old(
                        self,
                    ).chars.entry_seq()[j].0,
                forall|j: int|
                    i <= j < n ==> #[trigger] self.chars.entry_seq()[j].1 == old(
                        self,
                    ).chars.entry_seq()[j].1,
                forall|j: int|
                    0 <= j < i ==> {
                        let pre = #[trigger] old(self).chars.entry_seq()[j].1;
                        let post = self.chars.entry_seq()[j].1;
                        &&& post.uuid == pre.uuid
                        &&& post.index == pre.index
                        &&& post.vf == pre.vf
                        &&& post.flags == pre.flags
                        &&& post.path@ == child_path_spec(self.path@, char_prefix_spec(),
                            pre.index)
                    },
            decreases n - i,
        {
            let ghost before = self.chars.entry_seq();
            let path_now = self.path.clone();
            let c = self.chars.value_at_mut(i);
            c.update_path(path_now.as_slice());
            proof {
                assert(self.chars.entry_seq() == before.update(
                    i as int,
                    (before[i as int].0, self.chars.entry_seq()[i as int].1),
                ));
            }
            i = i + 1;
        }
        proof {
            assert(final(self).chars.key_seq() =~= old(self).chars.key_seq());
            assert forall|a: int, b: int|
                0 <= a < b < self.chars.key_seq().len() implies #[trigger] self.chars.key_seq()[a]
                != #[trigger] self.chars.key_seq()[b] by {
                assert(self.chars.key_seq()[a] == old(self).chars.key_seq()[a]);
                assert(self.chars.key_seq()[b] == old(self).chars.key_seq()[b]);
            }
        }
    }
}

} // verus!
