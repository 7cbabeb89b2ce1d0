//! The drawable primitives and the counter that assigns their erasure
//! groups. Each primitive instance owns one group identifier per face group,
//! used by the eraser shader for per-face visibility; identifiers at or above
//! [`GROUP_COUNTER_SIZE`] are never erasable.

use vstd::prelude::*;

verus! {

/// One more group identifier than the eraser mask can hold; identifiers are
/// assigned from 1 up to this bound, and unerasable ones from this bound up.
pub const GROUP_COUNTER_SIZE: u16 = 4096;

/// A drawable mesh shape, including the digit and label glyphs used for the
/// in-world score board.
#[derive(Clone, Copy, PartialEq, Eq, Structural, Debug)]
pub enum Primitive {
    Plane,
    SquarePyramid,
    TrianglePyramid,
    Sphere,
    Six,
    Cube,
    Cylinder,
    PitCube,
    Hook,
    Text0,
    Text1,
    Text2,
    Text3,
    Text4,
    Text5,
    Text6,
    Text7,
    Text8,
    Text9,
    TextUnderScore,
    TextColon,
    TextALL,
    TextLastScores,
    TextBestScores,
}

impl Primitive {
    /// The primitive's position in the mesh buffer table.
    pub open spec fn spec_index(self) -> int {
        match self {
            Primitive::Plane => 0,
            Primitive::SquarePyramid => 1,
            Primitive::TrianglePyramid => 2,
            Primitive::Sphere => 3,
            Primitive::Six => 4,
            Primitive::Cube => 5,
            Primitive::Cylinder => 6,
            Primitive::PitCube => 7,
            Primitive::Hook => 8,
            Primitive::Text0 => 9,
            Primitive::Text1 => 10,
            Primitive::Text2 => 11,
            Primitive::Text3 => 12,
            Primitive::Text4 => 13,
            Primitive::Text5 => 14,
            Primitive::Text6 => 15,
            Primitive::Text7 => 16,
            Primitive::Text8 => 17,
            Primitive::Text9 => 18,
            Primitive::TextUnderScore => 19,
            Primitive::TextColon => 20,
            Primitive::TextALL => 21,
            Primitive::TextLastScores => 22,
            Primitive::TextBestScores => 23,
        }
    }

    pub fn index(&self) -> (r: usize)
        ensures
            r == self.spec_index(),
    {
        match self {
            Primitive::Plane => 0,
            Primitive::SquarePyramid => 1,
            Primitive::TrianglePyramid => 2,
            Primitive::Sphere => 3,
            Primitive::Six => 4,
            Primitive::Cube => 5,
            Primitive::Cylinder => 6,
            Primitive::PitCube => 7,
            Primitive::Hook => 8,
            Primitive::Text0 => 9,
            Primitive::Text1 => 10,
            Primitive::Text2 => 11,
            Primitive::Text3 => 12,
            Primitive::Text4 => 13,
            Primitive::Text5 => 14,
            Primitive::Text6 => 15,
            Primitive::Text7 => 16,
            Primitive::Text8 => 17,
            Primitive::Text9 => 18,
            Primitive::TextUnderScore => 19,
            Primitive::TextColon => 20,
            Primitive::TextALL => 21,
            Primitive::TextLastScores => 22,
            Primitive::TextBestScores => 23,
        }
    }

    /// The glyph for a character of the score board: digits and the colon map
    /// to their glyphs, everything else to the underscore.
    pub open spec fn spec_from_char(c: char) -> Primitive {
        match c {
            '0' => Primitive::Text0,
            '1' => Primitive::Text1,
            '2' => Primitive::Text2,
            '3' => Primitive::Text3,
            '4' => Primitive::Text4,
            '5' => Primitive::Text5,
            '6' => Primitive::Text6,
            '7' => Primitive::Text7,
            '8' => Primitive::Text8,
            '9' => Primitive::Text9,
            ':' => Primitive::TextColon,
            _ => Primitive::TextUnderScore,
        }
    }

    pub fn from_char(c: char) -> (r: Primitive)
        ensures
            r == Primitive::spec_from_char(c),
    {
        match c {
            '0' => Primitive::Text0,
            '1' => Primitive::Text1,
            '2' => Primitive::Text2,
            '3' => Primitive::Text3,
            '4' => Primitive::Text4,
            '5' => Primitive::Text5,
            '6' => Primitive::Text6,
            '7' => Primitive::Text7,
            '8' => Primitive::Text8,
            '9' => Primitive::Text9,
            ':' => Primitive::TextColon,
            _ => Primitive::TextUnderScore,
        }
    }

    /// The glyph for one decimal digit.
    pub open spec fn spec_digit(d: int) -> Primitive {
        if d == 0 {
            Primitive::Text0
        } else if d == 1 {
            Primitive::Text1
        } else if d == 2 {
            Primitive::Text2
        } else if d == 3 {
            Primitive::Text3
        } else if d == 4 {
            Primitive::Text4
        } else if d == 5 {
            Primitive::Text5
        } else if d == 6 {
            Primitive::Text6
        } else if d == 7 {
            Primitive::Text7
        } else if d == 8 {
            Primitive::Text8
        } else {
            Primitive::Text9
        }
    }

    fn digit(d: u64) -> (r: Primitive)
        requires
            d < 10,
        ensures
            r == Primitive::spec_digit(d as int),
    {
        if d == 0 {
            Primitive::Text0
        } else if d == 1 {
            Primitive::Text1
        } else if d == 2 {
            Primitive::Text2
        } else if d == 3 {
            Primitive::Text3
        } else if d == 4 {
            Primitive::Text4
        } else if d == 5 {
            Primitive::Text5
        } else if d == 6 {
            Primitive::Text6
        } else if d == 7 {
            Primitive::Text7
        } else if d == 8 {
            Primitive::Text8
        } else {
            Primitive::Text9
        }
    }

    /// The eight glyphs of a duration readout, `MM:SS:CC` (minutes, seconds,
    /// centiseconds), or underscores when there is no duration to show.
    pub open spec fn spec_from_duration(duration: Option<u64>) -> Seq<Primitive> {
        match duration {
            Some(ns) => {
                let sec = ns as int / 1_000_000_000;
                let minute = sec / 60;
                let remain_sec = sec % 60;
                let cs = (ns as int % 1_000_000_000) / 10_000_000;
                seq![
                    Primitive::spec_digit((minute / 10) % 10),
                    Primitive::spec_digit(minute % 10),
                    Primitive::TextColon,
                    Primitive::spec_digit((remain_sec / 10) % 10),
                    Primitive::spec_digit(remain_sec % 10),
                    Primitive::TextColon,
                    Primitive::spec_digit((cs / 10) % 10),
                    Primitive::spec_digit(cs % 10),
                ]
            },
            None => seq![
                Primitive::TextUnderScore,
                Primitive::TextUnderScore,
                Primitive::TextColon,
                Primitive::TextUnderScore,
                Primitive::TextUnderScore,
                Primitive::TextColon,
                Primitive::TextUnderScore,
                Primitive::TextUnderScore,
            ],
        }
    }

    /// Renders a duration in nanoseconds as the eight score-board glyphs.
    pub fn from_duration(duration: Option<u64>) -> (r: Vec<Primitive>)
        ensures
            r@ == Primitive::spec_from_duration(duration),
    {
        let mut v: Vec<Primitive> = Vec::new();
        match duration {
            Some(ns) => {
                let sec = ns / 1_000_000_000;
                let minute = sec / 60;
                let remain_sec = sec % 60;
                let cs = (ns % 1_000_000_000) / 10_000_000;
                v.push(Primitive::digit((minute / 10) % 10));
                v.push(Primitive::digit(minute % 10));
                v.push(Primitive::TextColon);
                v.push(Primitive::digit((remain_sec / 10) % 10));
                v.push(Primitive::digit(remain_sec % 10));
                v.push(Primitive::TextColon);
                v.push(Primitive::digit((cs / 10) % 10));
                v.push(Primitive::digit(cs % 10));
            },
            None => {
                v.push(Primitive::TextUnderScore);
                v.push(Primitive::TextUnderScore);
                v.push(Primitive::TextColon);
                v.push(Primitive::TextUnderScore);
                v.push(Primitive::TextUnderScore);
                v.push(Primitive::TextColon);
                v.push(Primitive::TextUnderScore);
                v.push(Primitive::TextUnderScore);
            },
        }
        proof {
            assert(v@ =~= Primitive::spec_from_duration(duration));
        }
        v
    }

    /// How many face groups one instance of this primitive owns. The hook is
    /// drawn as a chain, so its group count scales with the configured link
    /// count.
    pub open spec fn spec_groups_size(self, hook_links: usize) -> int {
        match self {
            Primitive::Plane => 1,
            Primitive::SquarePyramid => 5,
            Primitive::TrianglePyramid => 4,
            Primitive::Sphere => 1,
            Primitive::Six => 8,
            Primitive::Cube => 6,
            Primitive::Cylinder => 1,
            Primitive::PitCube => 11,
            Primitive::Hook => 10 * hook_links as int,
            _ => 1,
        }
    }

    pub fn groups_size(&self, hook_links: usize) -> (r: usize)
        requires
            hook_links <= 256,
        ensures
            r == self.spec_groups_size(hook_links),
    {
        match self {
            Primitive::Plane => 1,
            Primitive::SquarePyramid => 5,
            Primitive::TrianglePyramid => 4,
            Primitive::Sphere => 1,
            Primitive::Six => 8,
            Primitive::Cube => 6,
            Primitive::Cylinder => 1,
            Primitive::PitCube => 11,
            Primitive::Hook => 10 * hook_links,
            _ => 1,
        }
    }

    /// Draws `size` instances' worth of group identifiers in a row.
    pub fn reserve(&self, size: usize, counter: &mut GroupCounter, hook_links: usize) -> (r: Vec<
        Vec<u16>,
    >)
        requires
            hook_links <= 256,
            old(counter).counter >= 1,
            old(counter).counter + size * self.spec_groups_size(hook_links) <= GROUP_COUNTER_SIZE,
        ensures
            r@.len() == size,
            forall|i: int|
                0 <= i < size ==> #[trigger] r@[i]@.len() == self.spec_groups_size(hook_links),
            forall|i: int, j: int|
                0 <= i < size && 0 <= j < self.spec_groups_size(hook_links) ==> #[trigger] r@[i]@[j]
                    == old(counter).counter + i * self.spec_groups_size(hook_links) + j,
            final(counter).counter == old(counter).counter + size * self.spec_groups_size(
                hook_links,
            ),
            final(counter).unerasable_counter == old(counter).unerasable_counter,
    {
        let gs = self.groups_size(hook_links);
        let mut r: Vec<Vec<u16>> = Vec::new();
        let mut i: usize = 0;
        while i < size
        invariant
                gs == self.spec_groups_size(hook_links),
                i <= size,
                old(counter).counter + size * gs <= GROUP_COUNTER_SIZE,
                counter.counter == old(counter).counter + i * gs,
                counter.unerasable_counter == old(counter).unerasable_counter,
                r@.len() == i,
                forall|k: int| 0 <= k < i ==> #[trigger] r@[k]@.len() == gs,
                forall|k: int, j: int|
                    0 <= k < i && 0 <= j < gs ==> #[trigger] r@[k]@[j] == old(counter).counter + k
                        * gs + j,
            decreases size - i,
        {
            proof {
                assert((i + 1) * gs <= size * gs && i * gs + gs == (i + 1) * gs)
                    by (nonlinear_arith)
                    requires
                        0 <= i < size,
                        0 <= gs,
                ;
            }
            let groups = counter.instantiate(gs);
            r.push(groups);
            i = i + 1;
        }
        r
    }

    /// One instance: the primitive's buffer index and its freshly assigned
    /// erasable group identifiers.
    pub fn instantiate(&self, counter: &mut GroupCounter, hook_links: usize) -> (r: (
        usize,
        Vec<u16>,
    ))
        requires
            hook_links <= 256,
            old(counter).counter >= 1,
            old(counter).counter + self.spec_groups_size(hook_links) <= GROUP_COUNTER_SIZE,
        ensures
            r.0 == self.spec_index(),
            r.1@.len() == self.spec_groups_size(hook_links),
            forall|j: int|
                0 <= j < r.1@.len() ==> #[trigger] r.1@[j] == old(counter).counter + j,
            final(counter).counter == old(counter).counter + self.spec_groups_size(hook_links),
            final(counter).unerasable_counter == old(counter).unerasable_counter,
    {
        let gs = self.groups_size(hook_links);
        (self.index(), counter.instantiate(gs))
    }

    /// One instance whose group identifiers the eraser pass can never erase.
    pub fn instantiate_unerasable(&self, counter: &mut GroupCounter, hook_links: usize) -> (r: (
        usize,
        Vec<u16>,
    ))
        requires
            hook_links <= 256,
            old(counter).counter >= 1,
            old(counter).counter + self.spec_groups_size(hook_links) <= GROUP_COUNTER_SIZE,
        ensures
            r.0 == self.spec_index(),
            r.1@.len() == self.spec_groups_size(hook_links),
            forall|j: int|
                0 <= j < r.1@.len() ==> #[trigger] r.1@[j] == old(counter).counter + j
                    + GROUP_COUNTER_SIZE,
            final(counter).counter == old(counter).counter + self.spec_groups_size(hook_links),
            final(counter).unerasable_counter == old(counter).unerasable_counter,
    {
        let gs = self.groups_size(hook_links);
        (self.index(), counter.instantiate_unerasable(gs))
    }
}

/// Hands out the per-face erasure group identifiers, starting at 1 after
/// every rebuild.
pub struct GroupCounter {
    pub counter: u16,
    pub unerasable_counter: u16,
}

impl GroupCounter {
    pub fn new() -> (r: GroupCounter)
        ensures
            r.counter == 1,
            r.unerasable_counter == 1,
    {
        GroupCounter { counter: 1, unerasable_counter: 1 }
    }

    /// Starts both identifier ranges over, when the world is rebuilt.
    pub fn reset(&mut self)
        ensures
            final(self).counter == 1,
            final(self).unerasable_counter == 1,
    {
        self.counter = 1;
        self.unerasable_counter = 1;
    }

    /// The next erasable group identifier; they never reach
    /// [`GROUP_COUNTER_SIZE`], which the eraser shader's mask is sized to.
    pub fn next(&mut self) -> (r: u16)
        requires
            old(self).counter < GROUP_COUNTER_SIZE,
        ensures
            r == old(self).counter,
            final(self).counter == old(self).counter + 1,
            final(self).unerasable_counter == old(self).unerasable_counter,
    {
        let r = self.counter;
        self.counter = self.counter + 1;
        r
    }

    /// The next unerasable group identifier: the erasable sequence shifted up
    /// by [`GROUP_COUNTER_SIZE`], out of the eraser's reach.
    pub fn next_unerasable(&mut self) -> (r: u16)
        requires
            old(self).counter < GROUP_COUNTER_SIZE,
        ensures
            r == old(self).counter + GROUP_COUNTER_SIZE,
            final(self).counter == old(self).counter + 1,
            final(self).unerasable_counter == old(self).unerasable_counter,
    {
        let r = self.counter;
        self.counter = self.counter + 1;
        r + GROUP_COUNTER_SIZE
    }

    /// `n` erasable identifiers in a row.
    pub fn instantiate(&mut self, n: usize) -> (r: Vec<u16>)
        requires
            old(self).counter + n <= GROUP_COUNTER_SIZE,
        ensures
            r@.len() == n,
            forall|j: int| 0 <= j < n ==> #[trigger] r@[j] == old(self).counter + j,
            final(self).counter == old(self).counter + n,
            final(self).unerasable_counter == old(self).unerasable_counter,
    {
        let mut r: Vec<u16> = Vec::new();
        let mut j: usize = 0;
        while j < n
            invariant
                old(self).counter + n <= GROUP_COUNTER_SIZE,
                j <= n,
                self.counter == old(self).counter + j,
                self.unerasable_counter == old(self).unerasable_counter,
                r@.len() == j,
                forall|k: int| 0 <= k < j ==> #[trigger] r@[k] == old(self).counter + k,
            decreases n - j,
        {
            let g = self.next();
            r.push(g);
            j = j + 1;
        }
        r
    }

    /// `n` unerasable identifiers in a row.
    pub fn instantiate_unerasable(&mut self, n: usize) -> (r: Vec<u16>)
        requires
            old(self).counter + n <= GROUP_COUNTER_SIZE,
        ensures
            r@.len() == n,
            forall|j: int|
                0 <= j < n ==> #[trigger] r@[j] == old(self).counter + j + GROUP_COUNTER_SIZE,
            final(self).counter == old(self).counter + n,
            final(self).unerasable_counter == old(self).unerasable_counter,
    {
        let mut r: Vec<u16> = Vec::new();
        let mut j: usize = 0;
        while j < n
            invariant
                old(self).counter + n <= GROUP_COUNTER_SIZE,
                j <= n,
                self.counter == old(self).counter + j,
                self.unerasable_counter == old(self).unerasable_counter,
                r@.len() == j,
                forall|k: int|
                    0 <= k < j ==> #[trigger] r@[k] == old(self).counter + k + GROUP_COUNTER_SIZE,
            decreases n - j,
        {
            let g = self.next_unerasable();
            r.push(g);
            j = j + 1;
        }
        r
    }
}

} // verus!
