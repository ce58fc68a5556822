use vstd::prelude::*;

verus! {

/// Premier vecteur du contrôleur d'interruptions maître.
pub const PIC_1_OFFSET: u8 = 32;

/// Premier vecteur du contrôleur d'interruptions esclave.
pub const PIC_2_OFFSET: u8 = 40;

/// Interruptions matérielles traitées : l'horloge et le clavier, aux deux premiers vecteurs du
/// contrôleur maître.
#[derive(Debug, Clone, Copy, PartialEq, Eq, Structural)]
pub enum InterruptIndex {
    Timer,
    Keyboard,
}

/// Vecteur d'une interruption.
pub open spec fn vecteur(i: InterruptIndex) -> u8 {
    match i {
        InterruptIndex::Timer => PIC_1_OFFSET,
        InterruptIndex::Keyboard => (PIC_1_OFFSET + 1) as u8,
    }
}

impl InterruptIndex {
    /// Vecteur de l'interruption.
    pub fn as_u8(self) -> (r: u8)
        ensures
            r == vecteur(self),
    {
        match self {
            InterruptIndex::Timer => PIC_1_OFFSET,
            InterruptIndex::Keyboard => PIC_1_OFFSET + 1,
        }
    }

    /// Vecteur de l'interruption, comme indice dans la table des descripteurs.
    pub fn as_usize(self) -> (r: usize)
        ensures
            r == vecteur(self),
    {
        self.as_u8() as usize
    }
}

} // verus!
