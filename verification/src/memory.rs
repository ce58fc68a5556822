use vstd::prelude::*;

verus! {

/// Adresse virtuelle d'une adresse physique, la mémoire physique étant projetée à partir de
/// `offset` dans l'espace virtuel du noyau.
pub fn physique_vers_virtuelle(adresse_physique: u64, offset: u64) -> (r: u64)
    requires
        adresse_physique + offset <= u64::MAX,
    ensures
        r == adresse_physique + offset,
{
    adresse_physique + offset
}

} // verus!
