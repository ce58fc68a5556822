use vstd::prelude::*;
use std::string::String;
use std::vec::Vec;
use crate::net::e1000::base_mmio_v;
use crate::pci::{E1000_DEV_ID, INTEL_VENDOR_ID, PeripheriquePci, description_v, est_e1000};
use crate::texte::{decimal, deux_chiffres, hex, pousser_decimal, pousser_deux_chiffres, pousser_hex, pousser_texte, vers_chaine, vue_mots};

verus! {

/// Ligne de `pci` pour un périphérique : bus, emplacement et fonction, identifiants fabricant
/// et modèle, adresse de BAR0 sans ses drapeaux, type, et marque des cartes e1000.
pub open spec fn ligne_pci_v(p: PeripheriquePci) -> Seq<char> {
    "  "@ + deux_chiffres(p.bus as nat) + ":"@ + deux_chiffres(p.slot as nat) + "."@ + decimal(p.fonction as nat)
        + "     "@ + hex(p.vendor_id as nat, 4) + ":"@ + hex(p.device_id as nat, 4) + "    0x"@ + hex(
        base_mmio_v(p.bar0),
        8,
    ) + "     "@ + description_v(p.classe, p.sous_classe) + " "@ + if est_e1000(p) {
        "[E1000]"@
    } else {
        ""@
    }
}

/// Lignes affichées par `pci` pour les périphériques relevés.
pub open spec fn pci_v(ps: Seq<PeripheriquePci>) -> Seq<Seq<char>> {
    seq!["--- Périphériques détectés sur le bus PCI ---"@, "  BUS:DEV.FN  IDENTIFIANT   BAR0 MEMOIRE   TYPE"@]
        + ps.map_values(|p: PeripheriquePci| ligne_pci_v(p)) + seq![
        "---------------------------------------------"@,
        "  Total : "@ + decimal(ps.len()) + " périphérique(s)"@,
    ]
}

fn ligne_pci(p: &PeripheriquePci) -> (r: String)
    ensures
        r@ == ligne_pci_v(*p),
{
    let mut l = vers_chaine("  ");
    pousser_deux_chiffres(&mut l, p.bus as u64);
    pousser_texte(&mut l, ":");
    pousser_deux_chiffres(&mut l, p.slot as u64);
    pousser_texte(&mut l, ".");
    pousser_decimal(&mut l, p.fonction as u64);
    pousser_texte(&mut l, "     ");
    pousser_hex(&mut l, p.vendor_id as u64, 4);
    pousser_texte(&mut l, ":");
    pousser_hex(&mut l, p.device_id as u64, 4);
    pousser_texte(&mut l, "    0x");
    let b = p.bar0;
    let base = b & !0x0Fu32;
    assert(base == b - b % 16) by (bit_vector)
        requires
            base == b & !0x0Fu32,
    ;
    pousser_hex(&mut l, base as u64, 8);
    pousser_texte(&mut l, "     ");
    pousser_texte(&mut l, p.description());
    pousser_texte(&mut l, " ");
    if p.vendor_id == INTEL_VENDOR_ID && p.device_id == E1000_DEV_ID {
        pousser_texte(&mut l, "[E1000]");
    } else {
        pousser_texte(&mut l, "");
    }
    assert(l@ =~= ligne_pci_v(*p));
    l
}

/// Commande `pci` : tableau des périphériques relevés sur le bus.
pub fn executer(peripheriques: &Vec<PeripheriquePci>) -> (r: Vec<String>)
    ensures
        vue_mots(r@) == pci_v(peripheriques@),
{
    let mut r: Vec<String> = Vec::new();
    r.push(vers_chaine("--- Périphériques détectés sur le bus PCI ---"));
    r.push(vers_chaine("  BUS:DEV.FN  IDENTIFIANT   BAR0 MEMOIRE   TYPE"));
    let ghost entete = vue_mots(r@);
    let mut i: usize = 0;
    while i < peripheriques.len()
        invariant
            i <= peripheriques@.len(),
            vue_mots(r@) == entete + peripheriques@.take(i as int).map_values(|p: PeripheriquePci| ligne_pci_v(p)),
        decreases peripheriques@.len() - i,
    {
        let l = ligne_pci(&peripheriques[i]);
        let ghost avant = r@;
        r.push(l);
        i = i + 1;
        assert(vue_mots(r@) =~= vue_mots(avant).push(l@));
        assert(peripheriques@.take(i as int).map_values(|p: PeripheriquePci| ligne_pci_v(p)) =~= peripheriques@.take(
            (i - 1) as int,
        ).map_values(|p: PeripheriquePci| ligne_pci_v(p)).push(ligne_pci_v(peripheriques@[i - 1])));
    }
    assert(peripheriques@.take(i as int) =~= peripheriques@);
    let ghost corps = vue_mots(r@);
    let sep = vers_chaine("---------------------------------------------");
    r.push(sep);
    assert(vue_mots(r@) =~= corps.push(sep@));
    let mut total = vers_chaine("  Total : ");
    pousser_decimal(&mut total, peripheriques.len() as u64);
    pousser_texte(&mut total, " périphérique(s)");
    let ghost avant = r@;
    r.push(total);
    assert(vue_mots(r@) =~= vue_mots(avant).push(total@));
    assert(vue_mots(r@) =~= pci_v(peripheriques@));
    r
}

} // verus!
