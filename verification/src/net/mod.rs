use vstd::prelude::*;
use std::vec::Vec;
use crate::pci::{PeripheriquePci, est_e1000};

pub mod e1000;

verus! {

/// Démarrage du réseau : recherche de la carte e1000 et de l'adresse de ses registres.
pub fn initialiser(peripheriques: &Vec<PeripheriquePci>, offset: u64) -> (r: Option<(PeripheriquePci, u64)>)
    requires
        offset <= u64::MAX - 0xFFFF_FFFF,
    ensures
        r is None <==> forall|i: int| 0 <= i < peripheriques@.len() ==> !est_e1000(#[trigger] peripheriques@[i]),
        r matches Some((p, v)) ==> {
            &&& v == e1000::base_mmio_v(p.bar0) + offset
            &&& exists|i: int|
                0 <= i < peripheriques@.len() && #[trigger] peripheriques@[i] == p && est_e1000(p) && forall|j: int|
                    0 <= j < i ==> !est_e1000(#[trigger] peripheriques@[j])
        },
{
    e1000::initialiser(peripheriques, offset)
}

} // verus!
