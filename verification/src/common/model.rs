use vstd::prelude::*;

verus! {

/// The hardware models of one device class, as the device names them in its
/// setup frame.
pub trait Model: Sized + Copy {
    /// The model that a byte of the setup frame stands for.
    spec fn spec_from_byte(byte: u8) -> Self;

    fn from_byte(byte: u8) -> (model: Self)
        ensures
            model == Self::spec_from_byte(byte),
    ;
}

} // verus!
