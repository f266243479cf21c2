use vstd::prelude::*;

use crate::device::{run, DeviceState, GlCommand};
use crate::program::ProgramId;

verus! {

/// A uniform's location in its program.
#[derive(Debug, Clone, Copy, PartialEq, Eq, Structural, Hash)]
pub struct LayoutLocation(pub i32);

/// A resolved uniform of a program, holding values of type `T`.
#[derive(Debug)]
pub struct Uniform<T: ?Sized> {
    pub program_id: ProgramId,
    pub location: LayoutLocation,
    pub phantom: std::marker::PhantomData<T>,
}

impl<T: ?Sized> Uniform<T> {
    /// What precedes every upload of a value: making the owning program current,
    /// whichever program was current before.
    pub fn select_program(&self) -> (r: Vec<GlCommand>)
        ensures
            r@ == seq![GlCommand::UseProgram { id: self.program_id.0 }],
    {
        vec![GlCommand::UseProgram { id: self.program_id.0 }]
    }
}

/// Uploads are scoped to their program: whichever program was current before,
/// the uniform's own program is current once its selection has run.
pub proof fn lemma_upload_scoped_to_program<T: ?Sized>(s: DeviceState, u: Uniform<T>)
    ensures
        run(s, seq![GlCommand::UseProgram { id: u.program_id.0 }]).program == u.program_id.0,
{
    reveal_with_fuel(run, 2);
}

} // verus!
