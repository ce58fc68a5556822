use vstd::prelude::*;
use crate::vga_buffer::{Ecrivain, VueEcrivain, clear_screen, ecrivain_valide, vide};

verus! {

/// Commande `ntr` : efface l'écran et ramène le curseur au début de la ligne.
pub fn executer(ecrivain: &mut Ecrivain)
    requires
        ecrivain_valide(old(ecrivain)@),
    ensures
        ecrivain_valide(final(ecrivain)@),
        final(ecrivain)@ == (VueEcrivain {
            colonne: 0,
            ecran: vide(2000, old(ecrivain)@.couleur),
            ..old(ecrivain)@
        }),
{
    clear_screen(ecrivain)
}

} // verus!
