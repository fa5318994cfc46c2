//! The irradiance probe grid of one chamber and its padded texture atlas.
//!
//! Colour triples and scalars are whatever the caller's numeric types are
//! (`V` and `S`): the volume stores, places and copies them, it never
//! computes with them.
use crate::vec::{lemma_flat3, GridAccessor3, IVec3};
use vstd::arithmetic::div_mod::lemma_fundamental_div_mod_converse;
use vstd::prelude::*;

verus! {

/// One sample point of the grid: its position and one `(diffuse,
/// illumination, depth)` entry per coefficient.
pub struct Probe<V, S> {
    pub pos: V,
    pub sh: Vec<(V, V, S)>,
}

/// The probe grid of a chamber with the three flattened atlas buffers that
/// the shader samples.
pub struct ProbeVolume<V, S> {
    pub fb_size: usize,
    /// Number of coefficients per probe.
    pub param: usize,
    pub room_size: V,
    pub min_gap: S,
    /// Extent of the atlas: the grid with one cell of border on each side
    /// of every axis. Every coefficient has one layer of this extent.
    pub texture_size: IVec3,
    pub texture_diffuse: Vec<V>,
    pub texture_illumination: Vec<V>,
    pub texture_depth: Vec<S>,
    pub probes: Vec<Probe<V, S>>,
    pub cell_size: V,
    /// Number of probes along each axis.
    pub number: IVec3,
    pub offset: V,
}

/// The nearest coordinate inside `0..n`.
pub open spec fn clamp_axis(v: int, n: int) -> int {
    if v < 0 {
        0
    } else if v >= n {
        n - 1
    } else {
        v
    }
}

/// A cell of the padded grid: the grid itself and one cell of border on
/// every side.
pub open spec fn padded_cell(number: IVec3, x: int, y: int, z: int) -> bool {
    -1 <= x <= number.x && -1 <= y <= number.y && -1 <= z <= number.z
}

/// A border cell: a padded cell outside the grid.
pub open spec fn border_cell(number: IVec3, x: int, y: int, z: int) -> bool {
    padded_cell(number, x, y, z) && !(0 <= x < number.x && 0 <= y < number.y && 0 <= z
        < number.z)
}

/// Number of cells in one coefficient layer of the atlas.
pub open spec fn layer_len(number: IVec3) -> int {
    (number.x + 2) * (number.y + 2) * (number.z + 2)
}

/// Number of cells in the whole atlas.
pub open spec fn atlas_len(number: IVec3, param: int) -> int {
    layer_len(number) * param
}

/// Where the padded cell `(x, y, z)` of coefficient `t` sits in an atlas
/// buffer: `x` fastest, then `y`, then `z`, then the layer.
pub open spec fn atlas_index(number: IVec3, x: int, y: int, z: int, t: int) -> int {
    (z + 1) * (number.y + 2) * (number.x + 2) + (y + 1) * (number.x + 2) + (x + 1) + t
        * layer_len(number)
}

/// Where the probe `(x, y, z)` sits in the probe list: `z` fastest.
pub open spec fn probe_slot(number: IVec3, x: int, y: int, z: int) -> int {
    x * number.y * number.z + y * number.z + z
}

/// The probe that a padded cell takes its values from: itself inside the
/// grid, the nearest probe for a border cell.
pub open spec fn source_slot(number: IVec3, x: int, y: int, z: int) -> int {
    probe_slot(
        number,
        clamp_axis(x, number.x as int),
        clamp_axis(y, number.y as int),
        clamp_axis(z, number.z as int),
    )
}

/// A grid with at least one probe along each axis and at least one
/// coefficient, whose atlas fits a signed 32-bit cell count.
pub open spec fn valid_layout(number: IVec3, param: int) -> bool {
    1 <= number.x && 1 <= number.y && 1 <= number.z && 1 <= param && atlas_len(number, param)
        <= i32::MAX
}

/// The same index with the axes nested, innermost `x`.
spec fn nested_index(number: IVec3, x: int, y: int, z: int, t: int) -> int {
    ((t * (number.z + 2) + (z + 1)) * (number.y + 2) + (y + 1)) * (number.x + 2) + (x + 1)
}

proof fn lemma_nested(number: IVec3, x: int, y: int, z: int, t: int)
    ensures
        atlas_index(number, x, y, z, t) == nested_index(number, x, y, z, t),
{
    let a = number.x + 2;
    let b = number.y + 2;
    let c = number.z + 2;
    let z1 = z + 1;
    let y1 = y + 1;
    let q = t * c + z1;
    let qb = q * b;
    assert((qb + y1) * a == qb * a + y1 * a) by (nonlinear_arith);
    assert(q * b == t * c * b + z1 * b) by (nonlinear_arith)
        requires
            q == t * c + z1,
    ;
    let tcb = t * c * b;
    let zb = z1 * b;
    assert((tcb + zb) * a == tcb * a + zb * a) by (nonlinear_arith);
    assert(t * c * b * a == t * (a * b * c)) by (nonlinear_arith);
}

proof fn lemma_digit(q: int, r: int, d: int, n: int)
    requires
        0 <= q < n,
        0 <= r < d,
    ensures
        0 <= q * d + r < n * d,
{
    assert(0 <= q * d && (q + 1) * d <= n * d && (q + 1) * d == q * d + d) by (nonlinear_arith)
        requires
            0 <= q < n,
            0 < d,
    ;
}

/// Every cell of the padded grid has its own place inside the atlas.
pub proof fn lemma_atlas_index_bounds(number: IVec3, param: int, x: int, y: int, z: int, t: int)
    requires
        1 <= number.x && 1 <= number.y && 1 <= number.z,
        padded_cell(number, x, y, z),
        0 <= t < param,
    ensures
        0 <= atlas_index(number, x, y, z, t) < atlas_len(number, param),
{
    lemma_nested(number, x, y, z, t);
    let a = number.x + 2;
    let b = number.y + 2;
    let c = number.z + 2;
    lemma_digit(t, z + 1, c, param);
    lemma_digit(t * c + (z + 1), y + 1, b, param * c);
    lemma_digit((t * c + (z + 1)) * b + (y + 1), x + 1, a, param * c * b);
    assert(param * c * b * a == (a * b * c) * param) by (nonlinear_arith);
}

/// Two cells of the padded grid that share a place in the atlas are the
/// same cell of the same coefficient layer.
pub proof fn lemma_atlas_index_injective(
    number: IVec3,
    x1: int,
    y1: int,
    z1: int,
    t1: int,
    x2: int,
    y2: int,
    z2: int,
    t2: int,
)
    requires
        1 <= number.x && 1 <= number.y && 1 <= number.z,
        padded_cell(number, x1, y1, z1),
        padded_cell(number, x2, y2, z2),
        atlas_index(number, x1, y1, z1, t1) == atlas_index(number, x2, y2, z2, t2),
    ensures
        x1 == x2 && y1 == y2 && z1 == z2 && t1 == t2,
{
    lemma_nested(number, x1, y1, z1, t1);
    lemma_nested(number, x2, y2, z2, t2);
    let a = number.x + 2;
    let b = number.y + 2;
    let c = number.z + 2;
    let i = atlas_index(number, x1, y1, z1, t1);
    let row1 = (t1 * c + (z1 + 1)) * b + (y1 + 1);
    let row2 = (t2 * c + (z2 + 1)) * b + (y2 + 1);
    lemma_fundamental_div_mod_converse(i, a, row1, x1 + 1);
    lemma_fundamental_div_mod_converse(i, a, row2, x2 + 1);
    let q1 = t1 * c + (z1 + 1);
    let q2 = t2 * c + (z2 + 1);
    lemma_fundamental_div_mod_converse(row1, b, q1, y1 + 1);
    lemma_fundamental_div_mod_converse(row1, b, q2, y2 + 1);
    lemma_fundamental_div_mod_converse(q1, c, t1, z1 + 1);
    lemma_fundamental_div_mod_converse(q1, c, t2, z2 + 1);
}

/// The source probe of a padded cell is a probe of the grid.
pub proof fn lemma_source_slot_bounds(number: IVec3, x: int, y: int, z: int)
    requires
        1 <= number.x && 1 <= number.y && 1 <= number.z,
    ensures
        0 <= source_slot(number, x, y, z) < number.x * number.y * number.z,
{
    lemma_flat3(
        clamp_axis(x, number.x as int),
        clamp_axis(y, number.y as int),
        clamp_axis(z, number.z as int),
        number.x as int,
        number.y as int,
        number.z as int,
    );
}

/// The parts of a valid layout fit the machine's integers.
pub proof fn lemma_layout_sizes(number: IVec3, param: int)
    requires
        valid_layout(number, param),
    ensures
        number.x * number.y * number.z <= layer_len(number) <= atlas_len(number, param),
        (number.x + 2) * (number.y + 2) <= layer_len(number),
        (number.z + 2) * param <= atlas_len(number, param),
        param <= atlas_len(number, param),
        0 < number.x * number.y * number.z,
        number.x + 2 <= layer_len(number),
        number.y + 2 <= layer_len(number),
        number.z + 2 <= layer_len(number),
{
    let a = number.x + 2;
    let b = number.y + 2;
    let c = number.z + 2;
    assert(number.x * number.y * number.z <= a * b * c && 0 < number.x * number.y * number.z)
        by (nonlinear_arith)
        requires
            1 <= number.x,
            1 <= number.y,
            1 <= number.z,
            a == number.x + 2,
            b == number.y + 2,
            c == number.z + 2,
    ;
    assert(a <= a * b && b <= a * b) by (nonlinear_arith)
        requires
            3 <= a,
            3 <= b,
    ;
    assert(c <= a * b * c) by (nonlinear_arith)
        requires
            3 <= a,
            3 <= b,
            3 <= c,
    ;
    assert(a * b * c <= (a * b * c) * param && a * b <= a * b * c && c * param <= (a * b * c)
        * param && param <= (a * b * c) * param) by (nonlinear_arith)
        requires
            3 <= a,
            3 <= b,
            3 <= c,
            1 <= param,
    ;
}

/// A vector of `n` copies of `value`.
pub fn init_buffer<T: Copy>(value: T, n: usize) -> (r: Vec<T>)
    ensures
        r@ == Seq::new(n as nat, |i: int| value),
{
    let mut r: Vec<T> = Vec::new();
    let mut i: usize = 0;
    while i < n
        invariant
            i <= n,
            r@ == Seq::new(i as nat, |j: int| value),
        decreases n - i,
    {
        r.push(value);
        i = i + 1;
        assert(r@ =~= Seq::new(i as nat, |j: int| value));
    }
    r
}

/// Whether every probe of the list carries exactly `param` coefficients.
fn all_have_len<V, S>(probes: &Vec<Probe<V, S>>, param: usize) -> (r: bool)
    ensures
        r == (forall|i: int| 0 <= i < probes@.len() ==> (#[trigger] probes@[i]).sh@.len() == param),
{
    let mut i: usize = 0;
    while i < probes.len()
        invariant
            i <= probes@.len(),
            forall|j: int| 0 <= j < i ==> (#[trigger] probes@[j]).sh@.len() == param,
        decreases probes@.len() - i,
    {
        if probes[i].sh.len() != param {
            return false;
        }
        i = i + 1;
    }
    true
}

/// The atlas length of a layout, or `None` where the layout is not valid.
fn checked_atlas_len(number: &IVec3, param: usize) -> (r: Option<usize>)
    ensures
        r.is_some() == valid_layout(*number, param as int),
        r.is_some() ==> r.unwrap() == atlas_len(*number, param as int),
{
    if number.x < 1 || number.y < 1 || number.z < 1 || param < 1 || param > 0x7fff_ffff {
        proof {
            if 1 <= number.x && 1 <= number.y && 1 <= number.z && 1 <= param {
                lemma_layout_sizes_lower(*number, param as int);
            }
        }
        return None;
    }
    let limit: i64 = 0x7fff_ffff;
    let a: i64 = number.x as i64 + 2;
    let b: i64 = number.y as i64 + 2;
    let c: i64 = number.z as i64 + 2;
    let p: i64 = param as i64;
    proof {
        lemma_layout_sizes_lower(*number, param as int);
        assert(0 <= a * b <= 0x8000_0001 * 0x8000_0001) by (nonlinear_arith)
            requires
                0 <= a <= 0x8000_0001,
                0 <= b <= 0x8000_0001,
        ;
    }
    let ab: i64 = a * b;
    if ab > limit {
        return None;
    }
    proof {
        assert(0 <= ab * c <= 0x7fff_ffff * 0x8000_0001) by (nonlinear_arith)
            requires
                0 <= ab <= 0x7fff_ffff,
                0 <= c <= 0x8000_0001,
        ;
    }
    let abc: i64 = ab * c;
    if abc > limit {
        return None;
    }
    proof {
        assert(0 <= abc * p <= 0x7fff_ffff * 0x7fff_ffff) by (nonlinear_arith)
            requires
                0 <= abc <= 0x7fff_ffff,
                0 <= p <= 0x7fff_ffff,
        ;
    }
    let total: i64 = abc * p;
    if total > limit {
        return None;
    }
    Some(total as usize)
}

/// With every factor at least one, each partial product of the atlas
/// length is at most the whole.
proof fn lemma_layout_sizes_lower(number: IVec3, param: int)
    requires
        1 <= number.x && 1 <= number.y && 1 <= number.z && 1 <= param,
    ensures
        (number.x + 2) * (number.y + 2) <= layer_len(number) <= atlas_len(number, param),
        param <= atlas_len(number, param),
{
    let a = number.x + 2;
    let b = number.y + 2;
    let c = number.z + 2;
    assert(a * b <= a * b * c && a * b * c <= (a * b * c) * param && param <= (a * b * c)
        * param) by (nonlinear_arith)
        requires
            3 <= a,
            3 <= b,
            3 <= c,
            1 <= param,
    ;
}

impl<V: Copy, S: Copy> ProbeVolume<V, S> {
    /// The layout is valid, there is one probe per grid cell, every probe
    /// carries `param` coefficients and the buffers have the atlas length.
    pub open spec fn wf(&self) -> bool {
        &&& valid_layout(self.number, self.param as int)
        &&& self.probes@.len() == self.number.x * self.number.y * self.number.z
        &&& forall|i: int|
            0 <= i < self.probes@.len() ==> (#[trigger] self.probes@[i]).sh@.len() == self.param
        &&& self.texture_diffuse@.len() == atlas_len(self.number, self.param as int)
        &&& self.texture_illumination@.len() == atlas_len(self.number, self.param as int)
        &&& self.texture_depth@.len() == atlas_len(self.number, self.param as int)
        &&& self.texture_size.x == self.number.x + 2
        &&& self.texture_size.y == self.number.y + 2
        &&& self.texture_size.z == self.number.z + 2
    }

    /// Every cell of the atlas, border included, holds the coefficient of
    /// its source probe.
    pub open spec fn atlas_synced(&self) -> bool {
        forall|x: int, y: int, z: int, t: int|
            #![trigger atlas_index(self.number, x, y, z, t)]
            padded_cell(self.number, x, y, z) && 0 <= t < self.param ==> {
                let i = atlas_index(self.number, x, y, z, t);
                let e = self.probes@[source_slot(self.number, x, y, z)].sh@[t];
                &&& self.texture_diffuse@[i] == e.0
                &&& self.texture_illumination@[i] == e.1
                &&& self.texture_depth@[i] == e.2
            }
    }

    /// Builds the volume around a given probe list, with every atlas cell
    /// set to the zero values. `None` where the layout is not valid, the
    /// list does not hold one probe per grid cell, or a probe does not
    /// carry `param` coefficients.
    pub fn new(
        number: IVec3,
        param: usize,
        fb_size: usize,
        room_size: V,
        min_gap: S,
        cell_size: V,
        offset: V,
        probes: Vec<Probe<V, S>>,
        zero_color: V,
        zero_depth: S,
    ) -> (r: Option<Self>)
        ensures
            r.is_some() == (valid_layout(number, param as int) && probes@.len() == number.x
                * number.y * number.z && forall|i: int|
                0 <= i < probes@.len() ==> (#[trigger] probes@[i]).sh@.len() == param),
            r.is_some() ==> {
                let v = r.unwrap();
                &&& v.wf()
                &&& v.number == number
                &&& v.param == param
                &&& v.fb_size == fb_size
                &&& v.room_size == room_size
                &&& v.min_gap == min_gap
                &&& v.cell_size == cell_size
                &&& v.offset == offset
                &&& v.probes == probes
                &&& v.texture_size == (IVec3 {
                    x: (number.x + 2) as i32,
                    y: (number.y + 2) as i32,
                    z: (number.z + 2) as i32,
                })
                &&& v.texture_diffuse@ == Seq::new(
                    atlas_len(number, param as int) as nat,
                    |i: int| zero_color,
                )
                &&& v.texture_illumination@ == Seq::new(
                    atlas_len(number, param as int) as nat,
                    |i: int| zero_color,
                )
                &&& v.texture_depth@ == Seq::new(
                    atlas_len(number, param as int) as nat,
                    |i: int| zero_depth,
                )
            },
    {
        let total: usize = match checked_atlas_len(&number, param) {
            Some(n) => n,
            None => {
                return None;
            },
        };
        proof {
            lemma_layout_sizes(number, param as int);
        }
        let ga = GridAccessor3(number);
        if probes.len() != ga.size() {
            return None;
        }
        if !all_have_len(&probes, param) {
            return None;
        }
        let texture_size = IVec3 { x: number.x + 2, y: number.y + 2, z: number.z + 2 };
        Some(
            ProbeVolume {
                fb_size,
                param,
                room_size,
                min_gap,
                texture_size,
                texture_diffuse: init_buffer(zero_color, total),
                texture_illumination: init_buffer(zero_color, total),
                texture_depth: init_buffer(zero_depth, total),
                probes,
                cell_size,
                number,
                offset,
            },
        )
    }

    pub fn probes(&self) -> (r: &Vec<Probe<V, S>>)
        ensures
            *r == self.probes,
    {
        &self.probes
    }

    /// The probe at a grid index.
    pub fn probe_at(&self, index: &IVec3) -> (r: &Probe<V, S>)
        requires
            self.wf(),
            GridAccessor3(self.number).contains(*index),
        ensures
            *r == self.probes@[probe_slot(
                self.number,
                index.x as int,
                index.y as int,
                index.z as int,
            )],
    {
        proof {
            lemma_layout_sizes(self.number, self.param as int);
        }
        let slot: usize = GridAccessor3(self.number).get(index);
        &self.probes[slot]
    }

    pub fn fb_size(&self) -> (r: usize)
        ensures
            r == self.fb_size,
    {
        self.fb_size
    }

    pub fn room_size(&self) -> (r: V)
        ensures
            r == self.room_size,
    {
        self.room_size
    }

    pub fn min_gap(&self) -> (r: S)
        ensures
            r == self.min_gap,
    {
        self.min_gap
    }

    /// Number of coefficients per probe.
    pub fn params(&self) -> (r: usize)
        ensures
            r == self.param,
    {
        self.param
    }

    pub fn cell_size(&self) -> (r: V)
        ensures
            r == self.cell_size,
    {
        self.cell_size
    }

    /// Number of probes along each axis.
    pub fn number(&self) -> (r: IVec3)
        ensures
            r == self.number,
    {
        self.number
    }

    /// Position of the first probe relative to the floor corner of the room.
    pub fn offset(&self) -> (r: V)
        ensures
            r == self.offset,
    {
        self.offset
    }

    /// Extent of the atlas: the grid with one cell of border on each side
    /// of every axis.
    pub fn texture_size(&self) -> (r: IVec3)
        requires
            self.wf(),
        ensures
            r == self.texture_size,
            r.x == self.number.x + 2,
            r.y == self.number.y + 2,
            r.z == self.number.z + 2,
    {
        self.texture_size
    }

    /// Extent of the three buffers taken as one 3D texture each: the
    /// atlas, with the layers of the coefficients stacked along `z`.
    pub fn stacked_size(&self) -> (r: IVec3)
        requires
            self.wf(),
        ensures
            r.x == self.number.x + 2,
            r.y == self.number.y + 2,
            r.z == (self.number.z + 2) * self.param,
    {
        proof {
            lemma_layout_sizes(self.number, self.param as int);
        }
        IVec3 {
            x: self.number.x + 2,
            y: self.number.y + 2,
            z: (self.number.z + 2) * (self.param as i32),
        }
    }

    pub fn texture_diffuse(&self) -> (r: &Vec<V>)
        ensures
            *r == self.texture_diffuse,
    {
        &self.texture_diffuse
    }

    pub fn texture_illumination(&self) -> (r: &Vec<V>)
        ensures
            *r == self.texture_illumination,
    {
        &self.texture_illumination
    }

    pub fn texture_depth(&self) -> (r: &Vec<S>)
        ensures
            *r == self.texture_depth,
    {
        &self.texture_depth
    }

    /// The place of padded cell `loc` (each coordinate from `-1` up to the
    /// grid's extent) of coefficient layer `index` in the atlas buffers.
    pub fn get_coordinate(&self, loc: &IVec3, index: usize) -> (r: usize)
        requires
            self.wf(),
            padded_cell(self.number, loc.x as int, loc.y as int, loc.z as int),
            index < self.param,
        ensures
            r == atlas_index(self.number, loc.x as int, loc.y as int, loc.z as int, index as int),
            r < atlas_len(self.number, self.param as int),
    {
        proof {
            lemma_layout_sizes(self.number, self.param as int);
            lemma_atlas_index_bounds(
                self.number,
                self.param as int,
                loc.x as int,
                loc.y as int,
                loc.z as int,
                index as int,
            );
            lemma_atlas_index_bounds(
                self.number,
                self.param as int,
                loc.x as int,
                loc.y as int,
                loc.z as int,
                0,
            );
            assert((self.number.z + 2) * (self.number.y + 2) * (self.number.x + 2) == layer_len(
                self.number,
            )) by (nonlinear_arith);
            assert(0 <= index * layer_len(self.number)) by (nonlinear_arith)
                requires
                    0 <= index,
                    0 <= layer_len(self.number),
            ;
        }
        let ga = GridAccessor3(
            IVec3 { x: self.number.z + 2, y: self.number.y + 2, z: self.number.x + 2 },
        );
        let cell: usize = ga.get(&IVec3 { x: loc.z + 1, y: loc.y + 1, z: loc.x + 1 });
        let layer: usize = ga.size();
        cell + index * layer
    }

    /// Replaces the coefficients of the probe at `index` wholesale; nothing
    /// of the previous bake survives. Returns whether the probe exists and
    /// `sh` carries one entry per coefficient; otherwise nothing changes.
    /// The atlas is left as it was: `update_texture` brings it up to date.
    pub fn update_probe(&mut self, index: IVec3, sh: Vec<(V, V, S)>) -> (applied: bool)
        requires
            old(self).wf(),
        ensures
            final(self).wf(),
            applied == (GridAccessor3(old(self).number).contains(index) && sh@.len() == old(
                self,
            ).param),
            applied ==> final(self).probes@ == old(self).probes@.update(
                probe_slot(old(self).number, index.x as int, index.y as int, index.z as int),
                (Probe {
                    pos: old(self).probes@[probe_slot(
                        old(self).number,
                        index.x as int,
                        index.y as int,
                        index.z as int,
                    )].pos,
                    sh,
                }),
            ),
            !applied ==> final(self).probes == old(self).probes,
            final(self).number == old(self).number,
            final(self).param == old(self).param,
            final(self).fb_size == old(self).fb_size,
            final(self).room_size == old(self).room_size,
            final(self).min_gap == old(self).min_gap,
            final(self).cell_size == old(self).cell_size,
            final(self).offset == old(self).offset,
            final(self).texture_size == old(self).texture_size,
            final(self).texture_diffuse == old(self).texture_diffuse,
            final(self).texture_illumination == old(self).texture_illumination,
            final(self).texture_depth == old(self).texture_depth,
    {
        let ga = GridAccessor3(self.number);
        let inside: bool = 0 <= index.x && index.x < self.number.x && 0 <= index.y && index.y
            < self.number.y && 0 <= index.z && index.z < self.number.z;
        if !inside || sh.len() != self.param {
            return false;
        }
        proof {
            lemma_layout_sizes(self.number, self.param as int);
        }
        let slot: usize = ga.get(&index);
        let pos: V = self.probes[slot].pos;
        self.probes.set(slot, Probe { pos, sh });
        true
    }

    /// Rewrites the three atlas buffers from the probes' coefficients:
    /// every cell of the grid from its own probe, and every border cell
    /// (the six faces, twelve edges and eight corners of the padded grid)
    /// from the nearest probe.
    pub fn update_texture(&mut self)
        requires
            old(self).wf(),
        ensures
            final(self).wf(),
            final(self).atlas_synced(),
            final(self).probes == old(self).probes,
            final(self).number == old(self).number,
            final(self).param == old(self).param,
            final(self).fb_size == old(self).fb_size,
            final(self).room_size == old(self).room_size,
            final(self).min_gap == old(self).min_gap,
            final(self).cell_size == old(self).cell_size,
            final(self).offset == old(self).offset,
            final(self).texture_size == old(self).texture_size,
    {
        let number: IVec3 = self.number;
        let ga = GridAccessor3(number);
        let total: usize = self.texture_diffuse.len();
        let mut diffuse: Vec<V> = Vec::new();
        let mut illumination: Vec<V> = Vec::new();
        let mut depth: Vec<S> = Vec::new();
        let mut x: i32 = -1;
        let mut y: i32 = -1;
        let mut z: i32 = -1;
        let mut t: usize = 0;
        proof {
            lemma_layout_sizes(number, self.param as int);
            let c = number.z + 2;
            let b = number.y + 2;
            let a = number.x + 2;
            assert(((0 * c + 0) * b + 0) * a + 0 == 0) by (nonlinear_arith);
        }
        while diffuse.len() < total
            invariant
                self.wf(),
                number == self.number,
                ga.0 == number,
                ga.wf(),
                total == atlas_len(number, self.param as int),
                diffuse@.len() == illumination@.len() == depth@.len(),
                diffuse@.len() <= total,
                t <= self.param,
                padded_cell(number, x as int, y as int, z as int),
                t == self.param ==> x == -1 && y == -1 && z == -1,
                diffuse@.len() == nested_index(number, x as int, y as int, z as int, t as int),
                forall|px: int, py: int, pz: int, pt: int|
                    #![trigger atlas_index(number, px, py, pz, pt)]
                    padded_cell(number, px, py, pz) && 0 <= pt < self.param && atlas_index(
                        number,
                        px,
                        py,
                        pz,
                        pt,
                    ) < diffuse@.len() ==> {
                        let i = atlas_index(number, px, py, pz, pt);
                        let e = self.probes@[source_slot(number, px, py, pz)].sh@[pt];
                        &&& diffuse@[i] == e.0
                        &&& illumination@[i] == e.1
                        &&& depth@[i] == e.2
                    },
            decreases total - diffuse@.len(),
        {
            proof {
                if t == self.param {
                    assert(nested_index(number, -1, -1, -1, t as int) == atlas_len(
                        number,
                        self.param as int,
                    )) by (nonlinear_arith)
                        requires
                            t == self.param,
                    ;
                }
                lemma_source_slot_bounds(number, x as int, y as int, z as int);
                lemma_flat3(0, 0, 0, number.x as int, number.y as int, number.z as int);
            }
            let cx: i32 = if x < 0 {
                0
            } else if x >= number.x {
                number.x - 1
            } else {
                x
            };
            let cy: i32 = if y < 0 {
                0
            } else if y >= number.y {
                number.y - 1
            } else {
                y
            };
            let cz: i32 = if z < 0 {
                0
            } else if z >= number.z {
                number.z - 1
            } else {
                z
            };
            let slot: usize = ga.get(&IVec3 { x: cx, y: cy, z: cz });
            assert(slot == source_slot(number, x as int, y as int, z as int));
            let e: (V, V, S) = self.probes[slot].sh[t];
            let ghost before = diffuse@.len() as int;
            diffuse.push(e.0);
            illumination.push(e.1);
            depth.push(e.2);
            proof {
                lemma_nested(number, x as int, y as int, z as int, t as int);
                assert forall|px: int, py: int, pz: int, pt: int|
                    #![trigger atlas_index(number, px, py, pz, pt)]
                    padded_cell(number, px, py, pz) && 0 <= pt < self.param && atlas_index(
                        number,
                        px,
                        py,
                        pz,
                        pt,
                    ) < diffuse@.len() implies {
                    let i = atlas_index(number, px, py, pz, pt);
                    let e = self.probes@[source_slot(number, px, py, pz)].sh@[pt];
                    &&& diffuse@[i] == e.0
                    &&& illumination@[i] == e.1
                    &&& depth@[i] == e.2
                } by {
                    lemma_atlas_index_bounds(number, self.param as int, px, py, pz, pt);
                    if atlas_index(number, px, py, pz, pt) == before {
                        lemma_atlas_index_injective(
                            number,
                            px,
                            py,
                            pz,
                            pt,
                            x as int,
                            y as int,
                            z as int,
                            t as int,
                        );
                    }
                }
                lemma_successor(number, x as int, y as int, z as int, t as int);
            }
            if x < number.x {
                x = x + 1;
            } else {
                x = -1;
                if y < number.y {
                    y = y + 1;
                } else {
                    y = -1;
                    if z < number.z {
                        z = z + 1;
                    } else {
                        z = -1;
                        t = t + 1;
                    }
                }
            }
        }
        proof {
            assert forall|px: int, py: int, pz: int, pt: int|
                #![trigger atlas_index(number, px, py, pz, pt)]
                padded_cell(number, px, py, pz) && 0 <= pt < self.param implies atlas_index(
                number,
                px,
                py,
                pz,
                pt,
            ) < diffuse@.len() by {
                lemma_atlas_index_bounds(number, self.param as int, px, py, pz, pt);
            }
        }
        self.texture_diffuse = diffuse;
        self.texture_illumination = illumination;
        self.texture_depth = depth;
    }
}

/// The cell after `(x, y, z, t)` in atlas order sits one place further.
proof fn lemma_successor(number: IVec3, x: int, y: int, z: int, t: int)
    ensures
        nested_index(number, x + 1, y, z, t) == nested_index(number, x, y, z, t) + 1,
        x == number.x ==> nested_index(number, -1, y + 1, z, t) == nested_index(
            number,
            x,
            y,
            z,
            t,
        ) + 1,
        x == number.x && y == number.y ==> nested_index(number, -1, -1, z + 1, t) == nested_index(
            number,
            x,
            y,
            z,
            t,
        ) + 1,
        x == number.x && y == number.y && z == number.z ==> nested_index(number, -1, -1, -1, t + 1)
            == nested_index(number, x, y, z, t) + 1,
{
    let a = number.x + 2;
    let b = number.y + 2;
    let c = number.z + 2;
    assert(forall|p: int| #[trigger] ((p + 1) * a) == p * a + a) by (nonlinear_arith);
    assert(forall|p: int| #[trigger] ((p + 1) * b) == p * b + b) by (nonlinear_arith);
    assert(forall|p: int| #[trigger] ((p + 1) * c) == p * c + c) by (nonlinear_arith);
    let q = t * c + (z + 1);
    let p = q * b + (y + 1);
    assert((p + 1) * a == p * a + a);
    assert((q + 1) * b == q * b + b);
    assert((t + 1) * c == t * c + c);
    if x == number.x {
        assert(nested_index(number, -1, y + 1, z, t) == (p + 1) * a);
        if y == number.y {
            assert(q * b + (y + 1) + 1 == (q + 1) * b);
            assert(nested_index(number, -1, -1, z + 1, t) == ((q + 1) * b) * a);
            if z == number.z {
                assert(t * c + (z + 1) + 1 == (t + 1) * c);
                assert(nested_index(number, -1, -1, -1, t + 1) == (((t + 1) * c) * b) * a);
            }
        }
    }
}

/// The border fill is a round trip: after `update_texture`, every border
/// cell of every layer equals, in all three buffers, the cell of the grid
/// nearest to it.
pub proof fn lemma_border_equals_interior<V: Copy, S: Copy>(
    volume: &ProbeVolume<V, S>,
    x: int,
    y: int,
    z: int,
    t: int,
)
    requires
        volume.wf(),
        volume.atlas_synced(),
        border_cell(volume.number, x, y, z),
        0 <= t < volume.param,
    ensures
        ({
            let n = volume.number;
            let border = atlas_index(n, x, y, z, t);
            let inside = atlas_index(
                n,
                clamp_axis(x, n.x as int),
                clamp_axis(y, n.y as int),
                clamp_axis(z, n.z as int),
                t,
            );
            &&& 0 <= border < atlas_len(n, volume.param as int)
            &&& 0 <= inside < atlas_len(n, volume.param as int)
            &&& volume.texture_diffuse@[border] == volume.texture_diffuse@[inside]
            &&& volume.texture_illumination@[border] == volume.texture_illumination@[inside]
            &&& volume.texture_depth@[border] == volume.texture_depth@[inside]
        }),
{
    let n = volume.number;
    let cx = clamp_axis(x, n.x as int);
    let cy = clamp_axis(y, n.y as int);
    let cz = clamp_axis(z, n.z as int);
    lemma_atlas_index_bounds(n, volume.param as int, x, y, z, t);
    lemma_atlas_index_bounds(n, volume.param as int, cx, cy, cz, t);
    assert(source_slot(n, cx, cy, cz) == source_slot(n, x, y, z));
    let _ = atlas_index(n, x, y, z, t);
    let _ = atlas_index(n, cx, cy, cz, t);
}

} // verus!
