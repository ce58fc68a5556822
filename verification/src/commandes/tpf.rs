use vstd::prelude::*;
use std::vec::Vec;
use crate::session::{NiveauPrivilege, Session, rang};
use crate::texte::{vers_chaine, vue_mots};
use crate::commandes::qtr::{Autorisation, vue_autorisation, qtr_v};

verus! {

/// `tpf` : défaut de page volontaire, réservé à l'Architecte.
pub open spec fn tpf_v(niveau: NiveauPrivilege) -> (Seq<Seq<char>>, Option<Seq<char>>, bool) {
    if rang(niveau) < rang(NiveauPrivilege::Architecte) {
        (
            seq!["tpf: opération réservée au niveau Architecte (EPERM)"@],
            Some("[SEC] Tentative non autorisée de déclenchement Page Fault"@),
            false,
        )
    } else {
        (seq!["[QBX] Déclenchement volontaire d'un Page Fault sur 0xdeadbeef..."@], None, true)
    }
}

/// Commande `tpf`.
pub fn executer(session: &Session) -> (r: Autorisation)
    ensures
        vue_autorisation(r) == tpf_v(session@.niveau),
{
    let mut lignes: Vec<String> = Vec::new();
    if !session.a_privilege(NiveauPrivilege::Architecte) {
        lignes.push(vers_chaine("tpf: opération réservée au niveau Architecte (EPERM)"));
        assert(vue_mots(lignes@) =~= tpf_v(session@.niveau).0);
        return Autorisation {
            lignes,
            audit: Some(vers_chaine("[SEC] Tentative non autorisée de déclenchement Page Fault")),
            declencher: false,
        };
    }
    lignes.push(vers_chaine("[QBX] Déclenchement volontaire d'un Page Fault sur 0xdeadbeef..."));
    assert(vue_mots(lignes@) =~= tpf_v(session@.niveau).0);
    Autorisation { lignes, audit: None, declencher: true }
}

/// Aucune commande réservée à l'Architecte n'agit sous un palier inférieur.
pub proof fn loi_reserve_architecte(niveau: NiveauPrivilege)
    ensures
        qtr_v(niveau).2 <==> niveau == NiveauPrivilege::Architecte,
        tpf_v(niveau).2 <==> niveau == NiveauPrivilege::Architecte,
{
}

} // verus!
