//! The engine-owned surfaces that the frame logic mutates, modeled as plain
//! data: a keyed sprite table, the two HUD text entities, the collision-event
//! queue and the exit flag.
//!
//! Positions are in sub-pixel units (one pixel is `crate::model::SUBPIXELS`
//! units); the host converts to and from the engine's own coordinates.

use vstd::prelude::*;

verus! {

/// A sprite key. The controllable sprite has the well-known key `Player`;
/// spawned collectible targets get `Ferris(n)` with `n` drawn from the
/// monotonic spawn counter.
#[derive(Clone, Copy, PartialEq, Eq, Structural, Debug)]
pub enum Label {
    Player,
    Ferris(i32),
}

/// One sprite entity: a position in sub-pixel units and whether the engine
/// should report collisions for it.
#[derive(Clone, Copy, PartialEq, Eq, Structural, Debug)]
pub struct Sprite {
    pub x: i64,
    pub y: i64,
    pub collision: bool,
}

/// Whether a collision event marks the start or the end of an overlap.
#[derive(Clone, Copy, PartialEq, Eq, Structural, Debug)]
pub enum CollisionState {
    Begin,
    End,
}

/// A transient collision event: the pair of sprite keys involved and the
/// begin/end tag. Consumed once per frame from the queue.
#[derive(Clone, Copy, PartialEq, Eq, Structural, Debug)]
pub struct CollisionEvent {
    pub state: CollisionState,
    pub first: Label,
    pub second: Label,
}

/// The map denoted by an association list, later entries winning.
pub open spec fn table_map(s: Seq<(Label, Sprite)>) -> Map<Label, Sprite>
    decreases s.len(),
{
    if s.len() == 0 {
        Map::empty()
    } else {
        table_map(s.drop_last()).insert(s.last().0, s.last().1)
    }
}

/// No two entries share a key.
pub open spec fn unique_keys(s: Seq<(Label, Sprite)>) -> bool {
    forall|i: int, j: int| 0 <= i < j < s.len() ==> s[i].0 != s[j].0
}

/// A key is in the table's map exactly when some entry carries it.
pub proof fn lemma_table_map_contains(s: Seq<(Label, Sprite)>, l: Label)
    ensures
        table_map(s).contains_key(l) <==> exists|i: int| 0 <= i < s.len() && s[i].0 == l,
    decreases s.len(),
{
    if s.len() > 0 {
        lemma_table_map_contains(s.drop_last(), l);
        if s.last().0 == l {
            assert(s[s.len() - 1].0 == l);
        } else {
            if exists|i: int| 0 <= i < s.len() && s[i].0 == l {
                let i = choose|i: int| 0 <= i < s.len() && s[i].0 == l;
                assert(s.drop_last()[i].0 == l);
            }
        }
    }
}

/// With unique keys, the map sends each entry's key to that entry's value.
pub proof fn lemma_table_map_index(s: Seq<(Label, Sprite)>, i: int)
    requires
        unique_keys(s),
        0 <= i < s.len(),
    ensures
        table_map(s).contains_key(s[i].0),
        table_map(s)[s[i].0] == s[i].1,
    decreases s.len(),
{
    if i < s.len() - 1 {
        assert(unique_keys(s.drop_last()));
        lemma_table_map_index(s.drop_last(), i);
        assert(s[i].0 != s.last().0);
    }
}

/// Removing the entry at `i` removes exactly its key from the map.
pub proof fn lemma_table_map_remove(s: Seq<(Label, Sprite)>, i: int)
    requires
        unique_keys(s),
        0 <= i < s.len(),
    ensures
        table_map(s.remove(i)) == table_map(s).remove(s[i].0),
    decreases s.len(),
{
    if i == s.len() - 1 {
        assert(s.remove(i) =~= s.drop_last());
        lemma_table_map_contains(s.drop_last(), s[i].0);
        assert(forall|j: int| 0 <= j < s.len() - 1 ==> s.drop_last()[j].0 != s[i].0);
        assert(!table_map(s.drop_last()).contains_key(s[i].0));
        assert(table_map(s.drop_last()) =~= table_map(s).remove(s[i].0));
    } else {
        let t = s.remove(i);
        let dl = s.drop_last();
        s.remove_ensures(i);
        dl.remove_ensures(i);
        assert(unique_keys(dl));
        assert(t.len() == s.len() - 1);
        assert(t.last() == s.last());
        assert(t.drop_last() =~= dl.remove(i));
        lemma_table_map_remove(dl, i);
        assert(dl[i] == s[i]);
        assert(table_map(t) == table_map(dl).remove(s[i].0).insert(s.last().0, s.last().1));
        assert(s[i].0 != s.last().0);
        assert(table_map(dl).remove(s[i].0).insert(s.last().0, s.last().1) =~= table_map(
            dl,
        ).insert(s.last().0, s.last().1).remove(s[i].0));
    }
}

/// The engine's keyed sprite table: an association list with unique keys,
/// viewed as a map from key to sprite.
pub struct SpriteTable {
    pub entries: Vec<(Label, Sprite)>,
}

impl View for SpriteTable {
    type V = Map<Label, Sprite>;

    open spec fn view(&self) -> Map<Label, Sprite> {
        table_map(self.entries@)
    }
}

impl SpriteTable {
    /// The table is well formed when no key occurs twice.
    pub open spec fn wf(self) -> bool {
        unique_keys(self.entries@)
    }

    /// An empty table.
    pub fn new() -> (t: SpriteTable)
        ensures
            t.wf(),
            t@ == Map::<Label, Sprite>::empty(),
    {
        SpriteTable { entries: Vec::new() }
    }

    /// Look a key up.
    pub fn get(&self, label: Label) -> (r: Option<Sprite>)
        requires
            self.wf(),
        ensures
            match r {
                Some(s) => self@.contains_key(label) && self@[label] == s,
                None => !self@.contains_key(label),
            },
    {
        let n = self.entries.len();
        let mut i: usize = 0;
        while i < n
            invariant
                n == self.entries.len(),
                self.wf(),
                i <= n,
                forall|j: int| 0 <= j < i ==> self.entries@[j].0 != label,
            decreases n - i,
        {
            if self.entries[i].0 == label {
                proof {
                    lemma_table_map_index(self.entries@, i as int);
                }
                return Some(self.entries[i].1);
            }
            i += 1;
        }
        proof {
            lemma_table_map_contains(self.entries@, label);
        }
        None
    }

    /// Remove a key; removing an absent key changes nothing.
    pub fn remove(&mut self, label: Label)
        requires
            old(self).wf(),
        ensures
            final(self).wf(),
            final(self)@ == old(self)@.remove(label),
    {
        let n = self.entries.len();
        let mut i: usize = 0;
        while i < n
            invariant
                n == self.entries.len(),
                *self == *old(self),
                self.wf(),
                i <= n,
                forall|j: int| 0 <= j < i ==> self.entries@[j].0 != label,
            decreases n - i,
        {
            if self.entries[i].0 == label {
                let ghost s = self.entries@;
                self.entries.remove(i);
                proof {
                    lemma_table_map_remove(s, i as int);
                    s.remove_ensures(i as int);
                    assert(forall|p: int, q: int|
                        0 <= p < q < s.remove(i as int).len() ==> s.remove(i as int)[p].0 != s.remove(
                            i as int,
                        )[q].0);
                }
                return ;
            }
            i += 1;
        }
        proof {
            lemma_table_map_contains(self.entries@, label);
            assert(self@ =~= self@.remove(label));
        }
    }

    /// Insert a key, overwriting any sprite it already maps to.
    pub fn insert(&mut self, label: Label, sprite: Sprite)
        requires
            old(self).wf(),
        ensures
            final(self).wf(),
            final(self)@ == old(self)@.insert(label, sprite),
    {
        self.remove(label);
        proof {
            lemma_table_map_contains(self.entries@, label);
            assert(forall|j: int| 0 <= j < self.entries@.len() ==> self.entries@[j].0 != label);
        }
        let ghost before = self.entries@;
        self.entries.push((label, sprite));
        proof {
            assert(self.entries@.drop_last() =~= before);
            assert(self@ == table_map(before).insert(label, sprite));
            assert(self@ =~= old(self)@.insert(label, sprite));
            assert(forall|p: int, q: int|
                0 <= p < q < self.entries@.len() ==> self.entries@[p].0 != self.entries@[q].0);
        }
    }
}

/// One HUD text entity: the displayed string and its position.
pub struct Text {
    pub value: String,
    pub x: i64,
    pub y: i64,
}

/// The two well-known HUD texts. The engine setup phase creates both before
/// the first frame, so the frame logic may assume they exist.
pub struct Texts {
    pub score: Text,
    pub high_score: Text,
}

/// Everything engine-owned that one frame of game logic reads or mutates.
pub struct World {
    pub sprites: SpriteTable,
    pub texts: Texts,
    pub collision_events: Vec<CollisionEvent>,
    pub should_exit: bool,
}

impl World {
    /// A world is well formed when its sprite table is.
    pub open spec fn wf(self) -> bool {
        self.sprites.wf()
    }
}

} // verus!
