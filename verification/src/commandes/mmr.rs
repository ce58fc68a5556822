use vstd::prelude::*;
use std::string::String;
use std::vec::Vec;
use crate::allocator::HEAP_START;
use crate::texte::{decimal, hex_minuscule, pousser_decimal, pousser_hex_minuscule, pousser_texte, vers_chaine, vue_mots};

verus! {

/// Part du tas allouée, en pour cent arrondi vers le bas ; 0 pour un tas vide.
pub open spec fn pourcentage_v(utilise: nat, total: nat) -> nat {
    if total > 0 { (utilise * 100) / total } else { 0 }
}

/// Ligne « taille en Ko (taille en octets) ».
pub open spec fn ko_octets(n: nat) -> Seq<char> {
    decimal(n / 1024) + " Ko ("@ + decimal(n) + " octets)"@
}

/// Lignes affichées par `mmr` pour un tas de `total` octets dont `utilise` sont alloués et
/// `libre` disponibles.
pub open spec fn mmr_v(utilise: nat, libre: nat, total: nat) -> Seq<Seq<char>> {
    seq![
        "--- Statistiques mémoire QBX (Heap) ---"@,
        "  Plage virtuelle : 0x"@ + hex_minuscule(HEAP_START as nat) + " - 0x"@ + hex_minuscule((HEAP_START + total) as nat),
        "  Capacité totale : "@ + ko_octets(total),
        "  Mémoire allouée : "@ + ko_octets(utilise) + " ["@ + decimal(pourcentage_v(utilise, total)) + "%]"@,
        "  Mémoire libre   : "@ + ko_octets(libre),
        "---------------------------------------"@,
    ]
}

fn pousser_ko_octets(s: &mut String, n: usize)
    ensures
        final(s)@ == old(s)@ + ko_octets(n as nat),
{
    pousser_decimal(s, (n / 1024) as u64);
    pousser_texte(s, " Ko (");
    pousser_decimal(s, n as u64);
    pousser_texte(s, " octets)");
    assert(final(s)@ =~= old(s)@ + ko_octets(n as nat));
}

/// Commande `mmr` : statistiques du tas (octets alloués, libres, taille totale), telles que
/// l'allocateur les donne.
pub fn executer(utilise: usize, libre: usize, total: usize) -> (r: Vec<String>)
    requires
        HEAP_START + total <= u64::MAX,
        total > 0 ==> utilise * 100 <= usize::MAX,
    ensures
        vue_mots(r@) == mmr_v(utilise as nat, libre as nat, total as nat),
{
    let fin: u64 = HEAP_START + total as u64;
    let pourcentage: usize = if total > 0 { (utilise * 100) / total } else { 0 };
    let mut r: Vec<String> = Vec::new();
    r.push(vers_chaine("--- Statistiques mémoire QBX (Heap) ---"));
    let mut l1 = vers_chaine("  Plage virtuelle : 0x");
    pousser_hex_minuscule(&mut l1, HEAP_START);
    pousser_texte(&mut l1, " - 0x");
    pousser_hex_minuscule(&mut l1, fin);
    r.push(l1);
    let mut l2 = vers_chaine("  Capacité totale : ");
    pousser_ko_octets(&mut l2, total);
    r.push(l2);
    let mut l3 = vers_chaine("  Mémoire allouée : ");
    pousser_ko_octets(&mut l3, utilise);
    pousser_texte(&mut l3, " [");
    pousser_decimal(&mut l3, pourcentage as u64);
    pousser_texte(&mut l3, "%]");
    r.push(l3);
    let mut l4 = vers_chaine("  Mémoire libre   : ");
    pousser_ko_octets(&mut l4, libre);
    r.push(l4);
    r.push(vers_chaine("---------------------------------------"));
    assert(vue_mots(r@) =~= mmr_v(utilise as nat, libre as nat, total as nat));
    r
}

} // verus!
