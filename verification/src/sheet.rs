//! Sprite-sheet geometry: the mapping from a frame name to the pixel
//! rectangle holding that frame and to its offset inside the logical sprite
//! box. Loading and decoding the sheet file happens outside this crate; the
//! library only consumes the resulting plain values.

use vstd::prelude::*;

verus! {

#[derive(Clone, Copy, PartialEq, Eq, Structural, Debug)]
pub struct SheetRect {
    pub x: i16,
    pub y: i16,
    pub w: i16,
    pub h: i16,
}

#[derive(Clone, Copy, PartialEq, Eq, Structural, Debug)]
pub struct Cell {
    pub frame: SheetRect,
    pub sprite_source_size: SheetRect,
}

/// One frame-name-to-geometry binding of a sheet.
#[derive(Clone, Debug)]
pub struct NamedCell {
    pub name: String,
    pub cell: Cell,
}

/// A sprite sheet's frame mapping. Names are looked up by value; the first
/// binding of a name wins.
#[derive(Clone, Debug)]
pub struct Sheet {
    pub frames: Vec<NamedCell>,
}

/// The first cell bound to `key` in `entries`, if any.
pub open spec fn spec_lookup(entries: Seq<NamedCell>, key: Seq<char>) -> Option<Cell>
    decreases entries.len(),
{
    if entries.len() == 0 {
        None
    } else if entries[0].name@ == key {
        Some(entries[0].cell)
    } else {
        spec_lookup(entries.drop_first(), key)
    }
}

proof fn lemma_lookup_skip(entries: Seq<NamedCell>, key: Seq<char>, i: int)
    requires
        0 <= i <= entries.len(),
        forall|j: int| 0 <= j < i ==> entries[j].name@ != key,
    ensures
        spec_lookup(entries, key) == spec_lookup(entries.skip(i), key),
    decreases i,
{
    if i > 0 {
        lemma_lookup_skip(entries.drop_first(), key, i - 1);
        assert(entries.drop_first().skip(i - 1) =~= entries.skip(i));
        assert(entries.skip(0) =~= entries);
    } else {
        assert(entries.skip(0) =~= entries);
    }
}

impl Sheet {
    /// The cell bound to `key`, if any.
    pub open spec fn spec_cell(self, key: Seq<char>) -> Option<Cell> {
        spec_lookup(self.frames@, key)
    }

    /// Whether the sheet binds `key` to some cell.
    pub open spec fn has_cell(self, key: Seq<char>) -> bool {
        self.spec_cell(key) is Some
    }

    pub fn new() -> (r: Sheet)
        ensures
            r.frames@.len() == 0,
    {
        Sheet { frames: Vec::new() }
    }

    /// Appends a binding of `name` to `cell`.
    pub fn add_cell(&mut self, name: String, cell: Cell)
        ensures
            final(self).frames@ == old(self).frames@.push(NamedCell { name, cell }),
    {
        self.frames.push(NamedCell { name, cell });
    }

    /// Resolves a frame name to its cell.
    pub fn cell<'a>(&'a self, name: &String) -> (r: Option<&'a Cell>)
        ensures
            match r {
                Some(c) => self.spec_cell(name@) == Some(*c),
                None => self.spec_cell(name@) is None,
            },
    {
        let n = self.frames.len();
        let mut i: usize = 0;
        while i < n
            invariant
                n == self.frames@.len(),
                0 <= i <= n,
                forall|j: int| 0 <= j < i ==> self.frames@[j].name@ != name@,
            decreases n - i,
        {
            if self.frames[i].name == *name {
                proof {
                    lemma_lookup_skip(self.frames@, name@, i as int);
                    assert(self.frames@.skip(i as int)[0] == self.frames@[i as int]);
                }
                return Some(&self.frames[i].cell);
            }
            i += 1;
        }
        proof {
            lemma_lookup_skip(self.frames@, name@, n as int);
        }
        None
    }
}

} // verus!
