//! The orientation record of a 3D object.
use vstd::prelude::*;

verus! {

/// Position, size and axes of an object together with the model transform
/// that was derived from them. `V` is the caller's vector type and `M` its
/// matrix type; the record keeps the six values together and hands them
/// back unchanged.
pub struct Ori<V, M> {
    pub pos: V,
    pub size: V,
    pub xdir: V,
    pub ydir: V,
    pub zdir: V,
    pub trans: M,
}

impl<V, M> Ori<V, M> {
    /// Puts the six parts together.
    pub fn from_parts(pos: V, size: V, xdir: V, ydir: V, zdir: V, trans: M) -> (r: Self)
        ensures
            r == (Ori { pos, size, xdir, ydir, zdir, trans }),
    {
        Ori { pos, size, xdir, ydir, zdir, trans }
    }

    pub fn trans(&self) -> (r: &M)
        ensures
            *r == self.trans,
    {
        &self.trans
    }

    pub fn pos(&self) -> (r: &V)
        ensures
            *r == self.pos,
    {
        &self.pos
    }

    pub fn size(&self) -> (r: &V)
        ensures
            *r == self.size,
    {
        &self.size
    }

    pub fn xdir(&self) -> (r: &V)
        ensures
            *r == self.xdir,
    {
        &self.xdir
    }

    pub fn ydir(&self) -> (r: &V)
        ensures
            *r == self.ydir,
    {
        &self.ydir
    }

    pub fn zdir(&self) -> (r: &V)
        ensures
            *r == self.zdir,
    {
        &self.zdir
    }
}

} // verus!
