use vstd::prelude::*;
use std::string::String;
use std::vec::Vec;
use crate::net::e1000::{CarteE1000, REG_STATUS, lien_v};
use crate::texte::{hex, pousser_hex, pousser_texte, vers_chaine, vue_mots};

verus! {

/// Adresse MAC en six octets hexadécimaux séparés par ':'.
pub open spec fn mac_texte(m: Seq<u8>) -> Seq<char> {
    hex(m[0] as nat, 2) + ":"@ + hex(m[1] as nat, 2) + ":"@ + hex(m[2] as nat, 2) + ":"@ + hex(m[3] as nat, 2)
        + ":"@ + hex(m[4] as nat, 2) + ":"@ + hex(m[5] as nat, 2)
}

/// Lignes affichées par `net` pour une carte d'adresse `mac` et d'état de liaison `lien`.
pub open spec fn net_v(mac: Seq<u8>, lien: bool) -> Seq<Seq<char>> {
    seq![
        "--- Interface Réseau eth0 (Intel 82540EM) ---"@,
        "  Adresse MAC  : "@ + mac_texte(mac),
        if lien {
            "  État liaison : ACTIF / CONNECTÉ (Full Duplex 1000 Mbps)"@
        } else {
            "  État liaison : DÉCONNECTÉ (Down)"@
        },
        "  Pilote       : MMIO Direct (BAR0)"@,
        "---------------------------------------------"@,
    ]
}

/// Commande `net` : met à jour l'état de la liaison (registre STATUS, lu par `lire`) puis décrit
/// l'interface ; une seule ligne s'il n'y a pas de carte.
pub fn executer<F: Fn(u32) -> u32>(pilote: &mut Option<CarteE1000>, lire: F) -> (r: Vec<String>)
    requires
        forall|x: u32| lire.requires((x,)),
    ensures
        *old(pilote) is None ==> *final(pilote) is None && vue_mots(r@) == seq![
            "net: Aucune interface réseau active détectée."@,
        ],
        *old(pilote) matches Some(c) ==> (*final(pilote) matches Some(c2) && {
            &&& exists|v: u32| lire.ensures((REG_STATUS,), v) && c2.lien_actif == lien_v(v)
            &&& c2.mac == c.mac
            &&& c2.base() == c.base()
            &&& c2.rx() == c.rx()
            &&& c2.tx() == c.tx()
            &&& vue_mots(r@) == net_v(c2.mac@, c2.lien_actif)
        }),
{
    let mut r: Vec<String> = Vec::new();
    match pilote.take() {
        Some(mut carte) => {
            carte.rafraichir_statut(lire);
            r.push(vers_chaine("--- Interface Réseau eth0 (Intel 82540EM) ---"));
            let mut l = vers_chaine("  Adresse MAC  : ");
            pousser_hex(&mut l, carte.mac[0] as u64, 2);
            pousser_texte(&mut l, ":");
            pousser_hex(&mut l, carte.mac[1] as u64, 2);
            pousser_texte(&mut l, ":");
            pousser_hex(&mut l, carte.mac[2] as u64, 2);
            pousser_texte(&mut l, ":");
            pousser_hex(&mut l, carte.mac[3] as u64, 2);
            pousser_texte(&mut l, ":");
            pousser_hex(&mut l, carte.mac[4] as u64, 2);
            pousser_texte(&mut l, ":");
            pousser_hex(&mut l, carte.mac[5] as u64, 2);
            assert(l@ =~= "  Adresse MAC  : "@ + mac_texte(carte.mac@));
            r.push(l);
            let etat = if carte.lien_actif {
                vers_chaine("  État liaison : ACTIF / CONNECTÉ (Full Duplex 1000 Mbps)")
            } else {
                vers_chaine("  État liaison : DÉCONNECTÉ (Down)")
            };
            assert(etat@ =~= net_v(carte.mac@, carte.lien_actif)[2]);
            r.push(etat);
            r.push(vers_chaine("  Pilote       : MMIO Direct (BAR0)"));
            r.push(vers_chaine("---------------------------------------------"));
            assert(vue_mots(r@) =~= net_v(carte.mac@, carte.lien_actif));
            *pilote = Some(carte);
        },
        None => {
            r.push(vers_chaine("net: Aucune interface réseau active détectée."));
            assert(vue_mots(r@) =~= seq!["net: Aucune interface réseau active détectée."@]);
        },
    }
    r
}

} // verus!
