//! Integer vectors, odometer-style grid iterators and flattened grid accessors.
use vstd::prelude::*;

verus! {

/// A pair of signed integers.
#[derive(Clone, Copy, Debug, PartialEq, Eq, Structural)]
pub struct IVec2 {
    pub x: i32,
    pub y: i32,
}

/// A triple of signed integers.
#[derive(Clone, Copy, Debug, PartialEq, Eq, Structural)]
pub struct IVec3 {
    pub x: i32,
    pub y: i32,
    pub z: i32,
}

/// A quadruple of signed integers.
#[derive(Clone, Copy, Debug, PartialEq, Eq, Structural)]
pub struct IVec4 {
    pub x: i32,
    pub y: i32,
    pub z: i32,
    pub w: i32,
}

impl IVec2 {
    pub fn new(x: i32, y: i32) -> (r: Self)
        ensures
            r == (IVec2 { x, y }),
    {
        IVec2 { x, y }
    }
}

impl IVec3 {
    pub fn new(x: i32, y: i32, z: i32) -> (r: Self)
        ensures
            r == (IVec3 { x, y, z }),
    {
        IVec3 { x, y, z }
    }
}

impl IVec4 {
    pub fn new(x: i32, y: i32, z: i32, w: i32) -> (r: Self)
        ensures
            r == (IVec4 { x, y, z, w }),
    {
        IVec4 { x, y, z, w }
    }
}

/// Whether a digit sitting at `cur` rolls over on its next increment.
pub open spec fn digit_carries(cur: i32, size: i32) -> bool {
    cur == size - 1
}

/// The digit after one increment: back to zero on a carry, one more otherwise.
pub open spec fn digit_next(cur: i32, size: i32) -> int {
    if digit_carries(cur, size) {
        0
    } else {
        cur + 1
    }
}

/// A digit that can be incremented within the machine's range.
pub open spec fn digit_ok(cur: i32, size: i32) -> bool {
    cur < i32::MAX && size > i32::MIN
}

/// Increments one digit of an odometer and reports whether it rolled over.
fn bump(cur: &mut i32, size: i32) -> (carry: bool)
    requires
        digit_ok(*old(cur), size),
    ensures
        carry == digit_carries(*old(cur), size),
        *final(cur) == digit_next(*old(cur), size),
{
    if *cur == size - 1 {
        *cur = 0;
        true
    } else {
        *cur = *cur + 1;
        false
    }
}

/// Walks a 2D grid, `x` fastest.
pub struct IteratorVec2 {
    pub size: IVec2,
    pub cur: IVec2,
}

/// Walks a 3D grid, `x` fastest, then `y`, then `z`.
pub struct IteratorVec3 {
    pub size: IVec3,
    pub cur: IVec3,
}

/// Walks a 4D grid, `x` fastest, then `y`, then `z`, then `w`.
pub struct IteratorVec4 {
    pub size: IVec4,
    pub cur: IVec4,
}

impl IteratorVec2 {
    /// Every digit can be incremented without leaving the machine's range.
    pub open spec fn wf(self) -> bool {
        digit_ok(self.cur.x, self.size.x) && digit_ok(self.cur.y, self.size.y)
    }

    /// All digits roll over at once: the walk is finished.
    pub open spec fn exhausted(self) -> bool {
        digit_carries(self.cur.x, self.size.x) && digit_carries(self.cur.y, self.size.y)
    }

    /// The position after one step.
    pub open spec fn stepped(self) -> IVec2 {
        let cx = digit_carries(self.cur.x, self.size.x);
        IVec2 {
            x: digit_next(self.cur.x, self.size.x) as i32,
            y: if cx {
                digit_next(self.cur.y, self.size.y) as i32
            } else {
                self.cur.y
            },
        }
    }

    /// Starts just before the first cell `(0, 0)`.
    pub fn new(size: IVec2) -> (r: Self)
        ensures
            r.size == size,
            r.cur == (IVec2 { x: -1i32, y: 0 }),
    {
        Self { size, cur: IVec2 { x: -1, y: 0 } }
    }

    /// Moves to the next cell and returns it, or returns `None` once every
    /// digit has rolled over (the position is then all zeros again).
    pub fn next(&mut self) -> (r: Option<IVec2>)
        requires
            old(self).wf(),
        ensures
            final(self).size == old(self).size,
            final(self).cur == old(self).stepped(),
            r == if old(self).exhausted() {
                None
            } else {
                Some(old(self).stepped())
            },
    {
        let mut x: i32 = self.cur.x;
        let mut y: i32 = self.cur.y;
        let mut up: bool = bump(&mut x, self.size.x);
        if up {
            up = bump(&mut y, self.size.y);
        }
        self.cur = IVec2 { x, y };
        if up {
            None
        } else {
            Some(self.cur)
        }
    }
}

impl IteratorVec3 {
    /// Every digit can be incremented without leaving the machine's range.
    pub open spec fn wf(self) -> bool {
        digit_ok(self.cur.x, self.size.x) && digit_ok(self.cur.y, self.size.y) && digit_ok(
            self.cur.z,
            self.size.z,
        )
    }

    /// All digits roll over at once: the walk is finished.
    pub open spec fn exhausted(self) -> bool {
        digit_carries(self.cur.x, self.size.x) && digit_carries(self.cur.y, self.size.y)
            && digit_carries(self.cur.z, self.size.z)
    }

    /// The position after one step.
    pub open spec fn stepped(self) -> IVec3 {
        let cx = digit_carries(self.cur.x, self.size.x);
        let cy = cx && digit_carries(self.cur.y, self.size.y);
        IVec3 {
            x: digit_next(self.cur.x, self.size.x) as i32,
            y: if cx {
                digit_next(self.cur.y, self.size.y) as i32
            } else {
                self.cur.y
            },
            z: if cy {
                digit_next(self.cur.z, self.size.z) as i32
            } else {
                self.cur.z
            },
        }
    }

    /// Starts just before the first cell `(0, 0, 0)`.
    pub fn new(size: IVec3) -> (r: Self)
        ensures
            r.size == size,
            r.cur == (IVec3 { x: -1i32, y: 0, z: 0 }),
    {
        Self { size, cur: IVec3 { x: -1, y: 0, z: 0 } }
    }

    /// Moves to the next cell and returns it, or returns `None` once every
    /// digit has rolled over (the position is then all zeros again).
    pub fn next(&mut self) -> (r: Option<IVec3>)
        requires
            old(self).wf(),
        ensures
            final(self).size == old(self).size,
            final(self).cur == old(self).stepped(),
            r == if old(self).exhausted() {
                None
            } else {
                Some(old(self).stepped())
            },
    {
        let mut x: i32 = self.cur.x;
        let mut y: i32 = self.cur.y;
        let mut z: i32 = self.cur.z;
        let mut up: bool = bump(&mut x, self.size.x);
        if up {
            up = bump(&mut y, self.size.y);
            if up {
                up = bump(&mut z, self.size.z);
            }
        }
        self.cur = IVec3 { x, y, z };
        if up {
            None
        } else {
            Some(self.cur)
        }
    }
}

impl IteratorVec4 {
    /// Every digit can be incremented without leaving the machine's range.
    pub open spec fn wf(self) -> bool {
        digit_ok(self.cur.x, self.size.x) && digit_ok(self.cur.y, self.size.y) && digit_ok(
            self.cur.z,
            self.size.z,
        ) && digit_ok(self.cur.w, self.size.w)
    }

    /// All digits roll over at once: the walk is finished.
    pub open spec fn exhausted(self) -> bool {
        digit_carries(self.cur.x, self.size.x) && digit_carries(self.cur.y, self.size.y)
            && digit_carries(self.cur.z, self.size.z) && digit_carries(self.cur.w, self.size.w)
    }

    /// The position after one step.
    pub open spec fn stepped(self) -> IVec4 {
        let cx = digit_carries(self.cur.x, self.size.x);
        let cy = cx && digit_carries(self.cur.y, self.size.y);
        let cz = cy && digit_carries(self.cur.z, self.size.z);
        IVec4 {
            x: digit_next(self.cur.x, self.size.x) as i32,
            y: if cx {
                digit_next(self.cur.y, self.size.y) as i32
            } else {
                self.cur.y
            },
            z: if cy {
                digit_next(self.cur.z, self.size.z) as i32
            } else {
                self.cur.z
            },
            w: if cz {
                digit_next(self.cur.w, self.size.w) as i32
            } else {
                self.cur.w
            },
        }
    }

    /// Starts just before the first cell `(0, 0, 0, 0)`.
    pub fn new(size: IVec4) -> (r: Self)
        ensures
            r.size == size,
            r.cur == (IVec4 { x: -1i32, y: 0, z: 0, w: 0 }),
    {
        Self { size, cur: IVec4 { x: -1, y: 0, z: 0, w: 0 } }
    }

    /// Moves to the next cell and returns it, or returns `None` once every
    /// digit has rolled over (the position is then all zeros again).
    pub fn next(&mut self) -> (r: Option<IVec4>)
        requires
            old(self).wf(),
        ensures
            final(self).size == old(self).size,
            final(self).cur == old(self).stepped(),
            r == if old(self).exhausted() {
                None
            } else {
                Some(old(self).stepped())
            },
    {
        let mut x: i32 = self.cur.x;
        let mut y: i32 = self.cur.y;
        let mut z: i32 = self.cur.z;
        let mut w: i32 = self.cur.w;
        let mut up: bool = bump(&mut x, self.size.x);
        if up {
            up = bump(&mut y, self.size.y);
            if up {
                up = bump(&mut z, self.size.z);
                if up {
                    up = bump(&mut w, self.size.w);
                }
            }
        }
        self.cur = IVec4 { x, y, z, w };
        if up {
            None
        } else {
            Some(self.cur)
        }
    }
}

/// Flattens 2D grid coordinates, `y` fastest.
pub struct GridAccessor2(pub IVec2);

impl GridAccessor2 {
    /// Non-negative extents whose product fits a signed 32-bit integer.
    pub open spec fn wf(self) -> bool {
        0 <= self.0.x && 0 <= self.0.y && self.0.x * self.0.y <= i32::MAX
    }

    /// The coordinates of a cell of the grid. `get` flattens these; every
    /// other coordinate maps to 0.
    pub open spec fn contains(self, p: IVec2) -> bool {
        0 <= p.x < self.0.x && 0 <= p.y < self.0.y
    }

    /// The flattened index of `p`.
    pub open spec fn spec_get(self, p: IVec2) -> int {
        if self.contains(p) {
            p.x * self.0.y + p.y
        } else {
            0
        }
    }

    /// The number of cells.
    pub open spec fn spec_size(self) -> int {
        self.0.x * self.0.y
    }

    pub fn get(&self, p: &IVec2) -> (r: usize)
        requires
            self.wf(),
        ensures
            r == self.spec_get(*p),
            self.contains(*p) ==> r < self.spec_size(),
    {
        if p.x < 0 || p.y < 0 || p.x >= self.0.x || p.y >= self.0.y {
            0
        } else {
            proof {
                lemma_flat2(p.x as int, p.y as int, self.0.x as int, self.0.y as int);
            }
            let sy: i64 = self.0.y as i64;
            let r: i64 = (p.x as i64) * sy + (p.y as i64);
            r as usize
        }
    }

    pub fn size(&self) -> (r: usize)
        requires
            self.wf(),
        ensures
            r == self.spec_size(),
    {
        proof {
            assert(0 <= self.0.x * self.0.y) by (nonlinear_arith)
                requires
                    0 <= self.0.x,
                    0 <= self.0.y,
            ;
        }
        (self.0.x * self.0.y) as usize
    }
}

/// Flattens 3D grid coordinates, `z` fastest, then `y`, then `x`.
pub struct GridAccessor3(pub IVec3);

impl GridAccessor3 {
    /// Non-negative extents whose product fits a signed 32-bit integer.
    pub open spec fn wf(self) -> bool {
        0 <= self.0.x && 0 <= self.0.y && 0 <= self.0.z && self.0.x * self.0.y * self.0.z
            <= i32::MAX
    }

    /// The coordinates of a cell of the grid. `get` flattens these; every
    /// other coordinate maps to 0.
    pub open spec fn contains(self, p: IVec3) -> bool {
        0 <= p.x < self.0.x && 0 <= p.y < self.0.y && 0 <= p.z < self.0.z
    }

    /// The flattened index of `p`.
    pub open spec fn spec_get(self, p: IVec3) -> int {
        if self.contains(p) {
            p.x * self.0.y * self.0.z + p.y * self.0.z + p.z
        } else {
            0
        }
    }

    /// The number of cells.
    pub open spec fn spec_size(self) -> int {
        self.0.x * self.0.y * self.0.z
    }

    pub fn get(&self, p: &IVec3) -> (r: usize)
        requires
            self.wf(),
        ensures
            r == self.spec_get(*p),
            self.contains(*p) ==> r < self.spec_size(),
    {
        if p.x < 0 || p.y < 0 || p.z < 0 || p.x >= self.0.x || p.y >= self.0.y || p.z >= self.0.z {
            0
        } else {
            proof {
                lemma_flat3(
                    p.x as int,
                    p.y as int,
                    p.z as int,
                    self.0.x as int,
                    self.0.y as int,
                    self.0.z as int,
                );
            }
            let sy: i64 = self.0.y as i64;
            let sz: i64 = self.0.z as i64;
            let a: i64 = (p.x as i64) * sy;
            let b: i64 = a * sz;
            let c: i64 = (p.y as i64) * sz;
            let r: i64 = b + c + (p.z as i64);
            r as usize
        }
    }

    pub fn size(&self) -> (r: usize)
        requires
            self.wf(),
        ensures
            r == self.spec_size(),
    {
        if self.0.x == 0 || self.0.y == 0 || self.0.z == 0 {
            proof {
                assert(self.0.x == 0 || self.0.y == 0 || self.0.z == 0 ==> self.0.x * self.0.y
                    * self.0.z == 0) by (nonlinear_arith);
            }
            0
        } else {
            proof {
                lemma_flat3(0, 0, 0, self.0.x as int, self.0.y as int, self.0.z as int);
            }
            (self.0.x * self.0.y * self.0.z) as usize
        }
    }
}

/// Bounds of a flattened 2D index with `0 <= x < sx` and `0 <= y <= sy`.
pub proof fn lemma_flat2(x: int, y: int, sx: int, sy: int)
    requires
        0 <= x < sx,
        0 <= y <= sy,
    ensures
        0 <= x * sy <= x * sy + y <= sx * sy,
        y < sy ==> x * sy + y < sx * sy,
{
    assert(0 <= x * sy && (x + 1) * sy <= sx * sy && (x + 1) * sy == x * sy + sy)
        by (nonlinear_arith)
        requires
            0 <= x < sx,
            0 <= sy,
    ;
}

/// Bounds of a flattened 3D index with `0 <= x < sx`, `0 <= y <= sy` and
/// `0 <= z < sz`.
pub proof fn lemma_flat3(x: int, y: int, z: int, sx: int, sy: int, sz: int)
    requires
        0 <= x < sx,
        0 <= y <= sy,
        0 <= z < sz,
    ensures
        0 <= x * sy <= sx * sy,
        0 <= x * sy * sz <= sx * sy * sz,
        0 <= y * sz <= sy * sz,
        0 <= x * sy * sz + y * sz + z < sx * sy * sz + sz,
        sy * sz <= sx * sy * sz,
        sx * sy <= sx * sy * sz,
        y < sy ==> x * sy * sz + y * sz + z < sx * sy * sz,
{
    assert(0 <= x * sy <= sx * sy) by (nonlinear_arith)
        requires
            0 <= x < sx,
            0 <= sy,
    ;
    assert(sx * sy <= sx * sy * sz) by (nonlinear_arith)
        requires
            0 < sx,
            0 <= sy,
            0 < sz,
    ;
    assert(0 <= y * sz <= sy * sz && (y < sy ==> (y + 1) * sz <= sy * sz) && (y + 1) * sz == y
        * sz + sz) by (nonlinear_arith)
        requires
            0 <= y <= sy,
            0 <= sz,
    ;
    assert(0 <= x * sy * sz && (x + 1) * sy * sz <= sx * sy * sz && (x + 1) * sy * sz == x * sy
        * sz + sy * sz && sy * sz <= sx * sy * sz) by (nonlinear_arith)
        requires
            0 <= x < sx,
            0 <= sy,
            0 <= sz,
    ;
}

} // verus!
