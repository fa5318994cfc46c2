//! A chamber: a bounded room with its probe volume and the cursor that
//! walks the volume one cubemap face per frame.
use crate::geo::SixDir;
use crate::probe_volume::{probe_slot, Probe, ProbeVolume};
use crate::vec::{IVec3, IVec4, IteratorVec4};
use vstd::prelude::*;

verus! {

/// Where a chamber lies: its base position and its extent.
pub struct ChamberConfig<V> {
    pub bpos: V,
    pub size: V,
}

/// What a chamber keeps from frame to frame: the probe cursor (a grid
/// index and a cubemap face) and the probe volume.
pub struct ChamberState<V, S> {
    pub current_probe: (IVec3, SixDir),
    pub probe_volume: ProbeVolume<V, S>,
}

/// A registered chamber.
pub struct Chamber<V, S> {
    pub config: ChamberConfig<V>,
    pub state: ChamberState<V, S>,
}

/// One step of probe baking: which probe to look from, along which face,
/// and whether this capture completes the probe, so that its coefficients
/// are to be projected anew.
#[derive(Clone, Copy, Debug, PartialEq, Eq, Structural)]
pub struct ProbeCapture {
    pub index: IVec3,
    pub face: SixDir,
    pub bake: bool,
}

/// A cursor that points at a probe of the grid and at one of the six faces.
pub open spec fn cursor_valid(number: IVec3, cur: (IVec3, SixDir)) -> bool {
    0 <= cur.1 < 6 && 0 <= cur.0.x < number.x && 0 <= cur.0.y < number.y && 0 <= cur.0.z
        < number.z
}

/// The first cursor: probe `(0, 0, 0)`, face 0.
pub open spec fn cursor_start() -> (IVec3, SixDir) {
    (IVec3 { x: 0, y: 0, z: 0 }, 0i8)
}

/// The cursor as the position of a four-digit counter with extents
/// `[6, nx, ny, nz]`, the face being the fastest digit.
pub open spec fn cursor_walk(number: IVec3, cur: (IVec3, SixDir)) -> IteratorVec4 {
    IteratorVec4 {
        size: IVec4 { x: 6, y: number.x, z: number.y, w: number.z },
        cur: IVec4 { x: cur.1 as i32, y: cur.0.x, z: cur.0.y, w: cur.0.z },
    }
}

/// The cursor after one step: the face first, then `x`, `y`, `z`, and back
/// to the start after the last face of the last probe.
pub open spec fn cursor_next(number: IVec3, cur: (IVec3, SixDir)) -> (IVec3, SixDir) {
    let walk = cursor_walk(number, cur);
    if walk.exhausted() {
        cursor_start()
    } else {
        let s = walk.stepped();
        (IVec3 { x: s.y, y: s.z, z: s.w }, s.x as i8)
    }
}

/// The cursor after `steps` steps.
pub open spec fn cursor_after(number: IVec3, cur: (IVec3, SixDir), steps: nat) -> (IVec3, SixDir)
    decreases steps,
{
    if steps == 0 {
        cur
    } else {
        cursor_next(number, cursor_after(number, cur, (steps - 1) as nat))
    }
}

/// How many steps a cursor is away from the start.
pub open spec fn cursor_rank(number: IVec3, cur: (IVec3, SixDir)) -> int {
    cur.1 + 6 * (cur.0.x + number.x * (cur.0.y + number.y * cur.0.z))
}

/// Number of captures in one pass over the whole volume.
pub open spec fn cycle_len(number: IVec3) -> int {
    6 * (number.x * (number.y * number.z))
}

proof fn lemma_rank_bounds(number: IVec3, cur: (IVec3, SixDir))
    requires
        cursor_valid(number, cur),
    ensures
        0 <= cursor_rank(number, cur) < cycle_len(number),
        cursor_walk(number, cur).exhausted() <==> cursor_rank(number, cur) == cycle_len(number)
            - 1,
{
    let nx = number.x as int;
    let ny = number.y as int;
    let nz = number.z as int;
    let x = cur.0.x as int;
    let y = cur.0.y as int;
    let z = cur.0.z as int;
    let a = y + ny * z;
    assert(0 <= ny * z && ny * z + ny <= ny * nz && (z < nz - 1 ==> ny * z + ny + ny <= ny * nz))
        by (nonlinear_arith)
        requires
            0 <= z < nz,
            0 < ny,
    ;
    assert(ny * (nz - 1) == ny * nz - ny) by (nonlinear_arith);
    let m = ny * nz;
    assert(0 <= a < m);
    assert(a == m - 1 <==> (y == ny - 1 && z == nz - 1));
    assert(0 <= nx * a && nx * a + nx <= nx * m && (a < m - 1 ==> nx * a + nx + nx <= nx * m))
        by (nonlinear_arith)
        requires
            0 <= a < m,
            0 < nx,
    ;
    assert(nx * (m - 1) == nx * m - nx) by (nonlinear_arith);
    let b = x + nx * a;
    assert(0 <= b < nx * m);
    assert(b == nx * m - 1 <==> (x == nx - 1 && a == m - 1));
}

/// One step moves a valid cursor to the valid cursor one rank further, or
/// from the last rank back to the start.
proof fn lemma_cursor_step(number: IVec3, cur: (IVec3, SixDir))
    requires
        cursor_valid(number, cur),
    ensures
        cursor_valid(number, cursor_next(number, cur)),
        cursor_rank(number, cur) < cycle_len(number) - 1 ==> cursor_rank(
            number,
            cursor_next(number, cur),
        ) == cursor_rank(number, cur) + 1,
        cursor_rank(number, cur) == cycle_len(number) - 1 ==> cursor_next(number, cur)
            == cursor_start(),
{
    lemma_rank_bounds(number, cur);
    let nx = number.x as int;
    let ny = number.y as int;
    let x = cur.0.x as int;
    let y = cur.0.y as int;
    let z = cur.0.z as int;
    let next = cursor_next(number, cur);
    if cursor_walk(number, cur).exhausted() {
    } else if cur.1 != 5 {
    } else if x != nx - 1 {
    } else if y != ny - 1 {
        assert(nx * (y + 1 + ny * z) == nx * (y + ny * z) + nx) by (nonlinear_arith);
    } else {
        assert(ny * (z + 1) == ny * z + ny) by (nonlinear_arith);
        assert(nx * (ny * z + ny) == nx * (ny - 1 + ny * z) + nx) by (nonlinear_arith);
        assert(next.0.x == 0 && next.0.y == 0 && next.0.z == z + 1 && next.1 == 0);
    }
}

proof fn lemma_cursor_progress(number: IVec3, steps: nat)
    requires
        1 <= number.x && 1 <= number.y && 1 <= number.z,
        steps < cycle_len(number),
    ensures
        cursor_valid(number, cursor_after(number, cursor_start(), steps)),
        cursor_rank(number, cursor_after(number, cursor_start(), steps)) == steps,
    decreases steps,
{
    if steps == 0 {
        assert(number.x * (0 + number.y * 0) == 0) by (nonlinear_arith);
    } else {
        lemma_cursor_progress(number, (steps - 1) as nat);
        lemma_cursor_step(number, cursor_after(number, cursor_start(), (steps - 1) as nat));
    }
}

/// A whole pass ends where it began: advanced `6 * nx * ny * nz` times
/// from the start, the cursor is back at probe `(0, 0, 0)`, face 0, and
/// not before.
pub proof fn lemma_cursor_full_cycle(number: IVec3)
    requires
        1 <= number.x && 1 <= number.y && 1 <= number.z,
    ensures
        cycle_len(number) == 6 * number.x * number.y * number.z,
        cycle_len(number) > 0,
        cursor_after(number, cursor_start(), cycle_len(number) as nat) == cursor_start(),
        forall|k: nat|
            0 < k < cycle_len(number) ==> #[trigger] cursor_after(number, cursor_start(), k)
                != cursor_start(),
{
    let n = cycle_len(number);
    assert(6 * (number.x * (number.y * number.z)) == 6 * number.x * number.y * number.z && 0
        < number.x * (number.y * number.z)) by (nonlinear_arith)
        requires
            1 <= number.x && 1 <= number.y && 1 <= number.z,
    ;
    lemma_cursor_progress(number, (n - 1) as nat);
    lemma_cursor_step(number, cursor_after(number, cursor_start(), (n - 1) as nat));
    assert forall|k: nat| 0 < k < n implies #[trigger] cursor_after(number, cursor_start(), k)
        != cursor_start() by {
        lemma_cursor_progress(number, k);
        lemma_cursor_progress(number, 0);
    }
}

impl<V: Copy, S: Copy> ChamberState<V, S> {
    /// The volume is well formed and the cursor points into it.
    pub open spec fn wf(&self) -> bool {
        self.probe_volume.wf() && cursor_valid(self.probe_volume.number, self.current_probe)
    }

    /// The state of a fresh chamber: the cursor at the start.
    pub fn new(probe_volume: ProbeVolume<V, S>) -> (r: Self)
        requires
            probe_volume.wf(),
        ensures
            r.wf(),
            r.current_probe == cursor_start(),
            r.probe_volume == probe_volume,
    {
        ChamberState { current_probe: (IVec3 { x: 0, y: 0, z: 0 }, 0), probe_volume }
    }

    pub fn probe_volume(&self) -> (r: &ProbeVolume<V, S>)
        ensures
            *r == self.probe_volume,
    {
        &self.probe_volume
    }

    pub fn current_probe(&self) -> (r: (IVec3, SixDir))
        ensures
            r == self.current_probe,
    {
        self.current_probe
    }

    /// The capture that this frame owes: from the probe under the cursor,
    /// along the cursor's face. The probe is to be baked only with its last
    /// face, face 5.
    pub fn capture_request(&self) -> (r: ProbeCapture)
        ensures
            r.index == self.current_probe.0,
            r.face == self.current_probe.1,
            r.bake == (self.current_probe.1 == 5),
    {
        ProbeCapture {
            index: self.current_probe.0,
            face: self.current_probe.1,
            bake: self.current_probe.1 == 5,
        }
    }

    /// Moves the cursor one step.
    pub fn set_next_probe(&mut self)
        requires
            old(self).wf(),
        ensures
            final(self).wf(),
            final(self).current_probe == cursor_next(
                old(self).probe_volume.number,
                old(self).current_probe,
            ),
            final(self).probe_volume == old(self).probe_volume,
    {
        proof {
            lemma_cursor_step(self.probe_volume.number, self.current_probe);
        }
        let num: IVec3 = self.probe_volume.number();
        let mut i = IteratorVec4 {
            size: IVec4 { x: 6, y: num.x, z: num.y, w: num.z },
            cur: IVec4 {
                x: self.current_probe.1 as i32,
                y: self.current_probe.0.x,
                z: self.current_probe.0.y,
                w: self.current_probe.0.z,
            },
        };
        self.current_probe = match i.next() {
            Some(x) => (IVec3 { x: x.y, y: x.z, z: x.w }, x.x as i8),
            None => (IVec3 { x: 0, y: 0, z: 0 }, 0),
        };
    }

    /// Whether closing the capture replaces the probe's coefficients: face
    /// 5 is under the cursor and `baked` holds one entry per coefficient.
    pub open spec fn bakes(&self, baked: Option<Vec<(V, V, S)>>) -> bool {
        self.current_probe.1 == 5 && baked.is_some() && baked.unwrap()@.len()
            == self.probe_volume.param
    }

    /// The state `after` closing the capture with `baked`: the cursor has
    /// moved one step; where the probe was baked, its coefficients are
    /// `baked` and the atlas is rewritten from the probes; otherwise the
    /// volume is exactly as before.
    pub open spec fn capture_completed(&self, baked: Option<Vec<(V, V, S)>>, after: Self) -> bool {
        &&& after.current_probe == cursor_next(self.probe_volume.number, self.current_probe)
        &&& !self.bakes(baked) ==> after.probe_volume == self.probe_volume
        &&& self.bakes(baked) ==> {
            let before = self.probe_volume;
            let at = self.current_probe.0;
            let slot = probe_slot(before.number, at.x as int, at.y as int, at.z as int);
            &&& after.probe_volume.probes@ == before.probes@.update(
                slot,
                (Probe { pos: before.probes@[slot].pos, sh: baked.unwrap() }),
            )
            &&& after.probe_volume.atlas_synced()
            &&& after.probe_volume.number == before.number
            &&& after.probe_volume.param == before.param
            &&& after.probe_volume.texture_size == before.texture_size
            &&& after.probe_volume.fb_size == before.fb_size
            &&& after.probe_volume.room_size == before.room_size
            &&& after.probe_volume.min_gap == before.min_gap
            &&& after.probe_volume.cell_size == before.cell_size
            &&& after.probe_volume.offset == before.offset
        }
    }

    /// Closes this frame's capture and moves the cursor one step.
    ///
    /// Only with face 5 under the cursor, and only when `baked` holds one
    /// entry per coefficient, are the probe's coefficients replaced by
    /// `baked` and the atlas rewritten. With any other face the volume
    /// stays exactly as it was, whatever `baked` holds.
    pub fn complete_capture(&mut self, baked: Option<Vec<(V, V, S)>>) -> (applied: bool)
        requires
            old(self).wf(),
        ensures
            old(self).capture_completed(baked, *final(self)),
            final(self).wf(),
            applied == old(self).bakes(baked),
    {
        let index: IVec3 = self.current_probe.0;
        let face: SixDir = self.current_probe.1;
        let mut applied: bool = false;
        if face == 5 {
            match baked {
                Some(sh) => {
                    applied = self.probe_volume.update_probe(index, sh);
                    if applied {
                        self.probe_volume.update_texture();
                    }
                },
                None => {},
            }
        }
        self.set_next_probe();
        applied
    }
}

/// No probe is baked before its last face: closing a capture with any
/// face but face 5 under the cursor leaves the probes' coefficients and the
/// whole volume as they were, whatever coefficients the caller brings.
pub proof fn lemma_no_bake_before_last_face<V: Copy, S: Copy>(
    before: ChamberState<V, S>,
    baked: Option<Vec<(V, V, S)>>,
    after: ChamberState<V, S>,
)
    requires
        before.capture_completed(baked, after),
        before.current_probe.1 != 5,
    ensures
        after.probe_volume == before.probe_volume,
        after.probe_volume.probes == before.probe_volume.probes,
{
}

} // verus!
