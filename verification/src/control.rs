//! Control identities, control rectangles and the registry that maps one to the other.

use vstd::prelude::*;

verus! {

/// Identifier of the button that opens the folder picker.
pub const ID_BTN_PATH: usize = 1;

/// Identifier of the button that starts a run.
pub const ID_BTN_RUN: usize = 2;

/// Identifier of the scrolling result log.
pub const ID_TEXTBOX_RESULT: usize = 3;

/// Identifier of the path field.
pub const ID_TEXTBOX_PATH: usize = 4;

/// Identifier of the progress bar.
pub const ID_PROGRESS_BAR: usize = 5;

/// Identifier of the progress text next to the bar.
pub const ID_PROGRESS_TXT: usize = 6;

/// Whether `id` names one of the six controls of the main window.
pub open spec fn is_control(id: usize) -> bool {
    1 <= id <= 6
}

/// Position and size of one control, in device pixels.
#[derive(Clone, Copy, Debug, PartialEq, Eq, Structural)]
pub struct ControlRect {
    pub x: i32,
    pub y: i32,
    pub width: i32,
    pub height: i32,
}

impl ControlRect {
    /// A rectangle covers no negative extent when neither of its sizes is negative.
    pub open spec fn non_negative(&self) -> bool {
        self.width >= 0 && self.height >= 0
    }
}

/// One registered control.
#[derive(Clone, Copy, Debug, PartialEq, Eq, Structural)]
pub struct Entry {
    pub id: usize,
    pub rect: ControlRect,
}

/// Mapping from control identifier to rectangle.
///
/// Identifiers are unique. The registry remembers the order in which identifiers were
/// first inserted, so that walking it is deterministic.
pub struct ControlRegistry {
    entries: Vec<Entry>,
}

impl View for ControlRegistry {
    type V = Map<usize, ControlRect>;

    closed spec fn view(&self) -> Map<usize, ControlRect> {
        Map::new(
            |id: usize| self.ids().contains(id),
            |id: usize| self.entries@[self.ids().index_of(id)].rect,
        )
    }
}

impl ControlRegistry {
    /// The registered identifiers, in the order of their first insertion.
    pub closed spec fn ids(&self) -> Seq<usize> {
        self.entries@.map_values(|e: Entry| e.id)
    }

    /// No identifier is registered twice.
    pub closed spec fn wf(&self) -> bool {
        self.ids().no_duplicates()
    }

    /// The identifiers listed by `ids` are distinct and are exactly the keys of the mapping.
    pub proof fn lemma_ids(&self)
        requires
            self.wf(),
        ensures
            self.ids().no_duplicates(),
            self@.dom() =~= self.ids().to_set(),
            self@.dom().finite(),
            self@.dom().len() == self.ids().len(),
    {
        self.ids().unique_seq_to_set();
        vstd::seq_lib::seq_to_set_is_finite(self.ids());
    }

    /// An empty registry.
    pub fn new() -> (r: Self)
        ensures
            r.wf(),
            r@ == Map::<usize, ControlRect>::empty(),
            r.ids() == Seq::<usize>::empty(),
    {
        let r = ControlRegistry { entries: Vec::new() };
        assert(r.ids() =~= Seq::<usize>::empty());
        assert(r@ =~= Map::<usize, ControlRect>::empty());
        r
    }

    /// Number of registered controls.
    pub fn len(&self) -> (n: usize)
        requires
            self.wf(),
        ensures
            n == self.ids().len(),
            n == self@.dom().len(),
    {
        proof {
            self.lemma_ids();
        }
        self.entries.len()
    }

    /// Whether nothing is registered.
    pub fn is_empty(&self) -> (b: bool)
        requires
            self.wf(),
        ensures
            b == (self.ids().len() == 0),
            b == (self@ == Map::<usize, ControlRect>::empty()),
    {
        proof {
            self.lemma_ids();
            if self.entries@.len() == 0 {
                assert(self@ =~= Map::<usize, ControlRect>::empty());
            } else {
                assert(self.ids()[0] == self.entries@[0].id);
                assert(self@.contains_key(self.ids()[0]));
            }
        }
        self.entries.len() == 0
    }

    fn position(&self, id: usize) -> (r: Option<usize>)
        requires
            self.wf(),
        ensures
            match r {
                Some(i) => i < self.entries@.len() && self.entries@[i as int].id == id
                    && self.ids().contains(id) && self.ids().index_of(id) == i,
                None => !self.ids().contains(id),
            },
    {
        let mut i: usize = 0;
        while i < self.entries.len()
            invariant
                i <= self.entries@.len(),
                self.wf(),
                forall|j: int| 0 <= j < i ==> self.entries@[j].id != id,
            decreases self.entries@.len() - i,
        {
            if self.entries[i].id == id {
                proof {
                    assert(self.ids()[i as int] == id);
                    let k = self.ids().index_of(id);
                    assert(0 <= k < self.ids().len() && self.ids()[k] == id);
                }
                return Some(i);
            }
            i += 1;
        }
        proof {
            assert forall|j: int| 0 <= j < self.ids().len() implies self.ids()[j] != id by {
                assert(self.ids()[j] == self.entries@[j].id);
            }
        }
        None
    }

    /// The rectangle registered for `id`, if there is one.
    pub fn get(&self, id: usize) -> (r: Option<ControlRect>)
        requires
            self.wf(),
        ensures
            r == if self@.contains_key(id) {
                Some(self@[id])
            } else {
                None
            },
    {
        match self.position(id) {
            Some(i) => Some(self.entries[i].rect),
            None => None,
        }
    }

    /// Whether `id` is registered.
    pub fn contains(&self, id: usize) -> (b: bool)
        requires
            self.wf(),
        ensures
            b == self@.contains_key(id),
    {
        self.position(id).is_some()
    }

    /// Registers `rect` for `id`, replacing the rectangle of an identifier already present.
    pub fn insert(&mut self, id: usize, rect: ControlRect)
        requires
            old(self).wf(),
        ensures
            final(self).wf(),
            final(self)@ == old(self)@.insert(id, rect),
            final(self).ids() == if old(self)@.contains_key(id) {
                old(self).ids()
            } else {
                old(self).ids().push(id)
            },
    {
        let ghost before = *self;
        match self.position(id) {
            Some(i) => {
                self.entries[i] = Entry { id, rect };
                proof {
                    assert(self.ids() =~= before.ids());
                    assert forall|k: usize| self@.contains_key(k) implies #[trigger] self@[k]
                        == before@.insert(id, rect)[k] by {
                        let j = self.ids().index_of(k);
                        assert(0 <= j < self.ids().len() && self.ids()[j] == k);
                        if k == id {
                            assert(j == i);
                        } else {
                            assert(j != i);
                        }
                    }
                    assert(self@ =~= before@.insert(id, rect));
                }
            },
            None => {
                self.entries.push(Entry { id, rect });
                proof {
                    let n = before.ids().len() as int;
                    assert(self.ids() =~= before.ids().push(id));
                    assert forall|k: usize| self@.contains_key(k) <==> before@.insert(
                        id,
                        rect,
                    ).contains_key(k) by {
                        if self.ids().contains(k) {
                            let j = self.ids().index_of(k);
                            assert(0 <= j < self.ids().len() && self.ids()[j] == k);
                            if j < n {
                                assert(before.ids()[j] == k);
                            }
                        }
                        if before.ids().contains(k) {
                            let j = before.ids().index_of(k);
                            assert(0 <= j < n && before.ids()[j] == k);
                            assert(self.ids()[j] == k);
                        }
                        if k == id {
                            assert(self.ids()[n] == k);
                        }
                    }
                    assert forall|k: usize| self@.contains_key(k) implies #[trigger] self@[k]
                        == before@.insert(id, rect)[k] by {
                        let j = self.ids().index_of(k);
                        assert(0 <= j < self.ids().len() && self.ids()[j] == k);
                        if k == id {
                            assert(self.ids()[n] == k);
                            assert(j == n);
                        } else {
                            assert(j < n);
                            assert(before.ids()[j] == k);
                            let j2 = before.ids().index_of(k);
                            assert(0 <= j2 < n && before.ids()[j2] == k);
                            assert(j2 == j);
                        }
                    }
                    assert(self@ =~= before@.insert(id, rect));
                }
            },
        }
    }

    /// The control at place `index` of the insertion order, if the registry has so many.
    pub fn entry(&self, index: usize) -> (e: Option<Entry>)
        requires
            self.wf(),
        ensures
            match e {
                Some(entry) => {
                    &&& index < self.ids().len()
                    &&& entry.id == self.ids()[index as int]
                    &&& self@.contains_key(entry.id)
                    &&& entry.rect == self@[entry.id]
                },
                None => index >= self.ids().len(),
            },
    {
        if index < self.entries.len() {
            let e = self.entries[index];
            proof {
                assert(self.ids()[index as int] == e.id);
                let j = self.ids().index_of(e.id);
                assert(0 <= j < self.ids().len() && self.ids()[j] == e.id);
                assert(j == index);
            }
            Some(e)
        } else {
            None
        }
    }
}

} // verus!
