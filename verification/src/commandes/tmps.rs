use vstd::prelude::*;
use std::string::String;
use crate::texte::{deux_chiffres, pousser_deux_chiffres, pousser_texte, vers_chaine};

verus! {

/// Valeur d'un registre de l'horloge codé en BCD (deux chiffres décimaux de 4 bits).
pub open spec fn bcd_v(v: u8) -> u8 {
    ((v % 16) + (v / 16) * 10) as u8
}

/// Décode un registre BCD de l'horloge.
pub fn lire_registre_rtc(valeur: u8) -> (r: u8)
    ensures
        r == bcd_v(valeur),
{
    let bas = valeur & 0x0F;
    assert(bas == valeur % 16) by (bit_vector)
        requires
            bas == valeur & 0x0F,
    ;
    bas + ((valeur / 16) * 10)
}

/// Heure (heures, minutes, secondes) d'après les registres 0x04, 0x02 et 0x00 de l'horloge.
pub fn obtenir_heure_actuelle(heures_bcd: u8, minutes_bcd: u8, secondes_bcd: u8) -> (r: (u8, u8, u8))
    ensures
        r == (bcd_v(heures_bcd), bcd_v(minutes_bcd), bcd_v(secondes_bcd)),
{
    let secondes = lire_registre_rtc(secondes_bcd);
    let minutes = lire_registre_rtc(minutes_bcd);
    let heures = lire_registre_rtc(heures_bcd);
    (heures, minutes, secondes)
}

/// Ligne affichée par `tmps`.
pub open spec fn tmps_v(h: u8, m: u8, s: u8) -> Seq<char> {
    "Horloge système (RTC) : "@ + deux_chiffres(h as nat) + "h "@ + deux_chiffres(m as nat) + "m "@
        + deux_chiffres(s as nat) + "s"@
}

/// Commande `tmps` : la ligne à afficher pour l'heure donnée.
pub fn executer(heure: (u8, u8, u8)) -> (r: String)
    ensures
        r@ == tmps_v(heure.0, heure.1, heure.2),
{
    let mut l = vers_chaine("Horloge système (RTC) : ");
    pousser_deux_chiffres(&mut l, heure.0 as u64);
    pousser_texte(&mut l, "h ");
    pousser_deux_chiffres(&mut l, heure.1 as u64);
    pousser_texte(&mut l, "m ");
    pousser_deux_chiffres(&mut l, heure.2 as u64);
    pousser_texte(&mut l, "s");
    l
}

} // verus!
