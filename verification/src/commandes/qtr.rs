use vstd::prelude::*;
use std::string::String;
use std::vec::Vec;
use crate::session::{NiveauPrivilege, Session, rang};
use crate::texte::{vers_chaine, vue_mots};

verus! {

/// Issue d'une commande réservée à l'Architecte : lignes affichées, entrée d'audit, et si l'action
/// (extinction ou défaut de page volontaire) est à déclencher.
pub struct Autorisation {
    pub lignes: Vec<String>,
    pub audit: Option<String>,
    pub declencher: bool,
}

pub open spec fn vue_autorisation(a: Autorisation) -> (Seq<Seq<char>>, Option<Seq<char>>, bool) {
    (
        vue_mots(a.lignes@),
        match a.audit {
            Some(s) => Some(s@),
            None => None,
        },
        a.declencher,
    )
}

/// `qtr` : extinction, réservée à l'Architecte.
pub open spec fn qtr_v(niveau: NiveauPrivilege) -> (Seq<Seq<char>>, Option<Seq<char>>, bool) {
    if rang(niveau) < rang(NiveauPrivilege::Architecte) {
        (
            seq!["qtr: extinction réservée au niveau Architecte (EPERM)"@],
            Some("[SEC] Tentative d'extinction non autorisée"@),
            false,
        )
    } else {
        (seq!["[QBX] Extinction du système..."@], None, true)
    }
}

/// Commande `qtr`.
pub fn executer(session: &Session) -> (r: Autorisation)
    ensures
        vue_autorisation(r) == qtr_v(session@.niveau),
{
    let mut lignes: Vec<String> = Vec::new();
    if !session.a_privilege(NiveauPrivilege::Architecte) {
        lignes.push(vers_chaine("qtr: extinction réservée au niveau Architecte (EPERM)"));
        assert(vue_mots(lignes@) =~= qtr_v(session@.niveau).0);
        return Autorisation {
            lignes,
            audit: Some(vers_chaine("[SEC] Tentative d'extinction non autorisée")),
            declencher: false,
        };
    }
    lignes.push(vers_chaine("[QBX] Extinction du système..."));
    assert(vue_mots(lignes@) =~= qtr_v(session@.niveau).0);
    Autorisation { lignes, audit: None, declencher: true }
}

} // verus!
