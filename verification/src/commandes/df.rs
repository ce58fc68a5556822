use vstd::prelude::*;
use std::string::String;
use std::vec::Vec;
use crate::commandes::ls::{a_droite, pousser_a_droite};
use crate::storage::partitions::{LBA_BOOT_DEBUT, LBA_BOOT_TAILLE, LBA_SEC_DEBUT, LBA_SEC_TAILLE, LBA_VAR_DEBUT};
use crate::texte::{a_gauche, decimal, pousser_a_gauche, pousser_decimal, pousser_texte, vers_chaine, vue_mots};

verus! {

/// Dernier secteur du disque (1 Gio de secteurs de 512 octets).
pub const LBA_DERNIER: u64 = 2_097_151;

/// Plage de secteurs « début..fin », alignée comme dans le tableau.
pub open spec fn plage_v(debut: nat, fin: nat) -> Seq<char> {
    a_droite(decimal(debut), 7) + ".."@ + a_gauche(decimal(fin), 7)
}

/// Lignes affichées par `df`.
pub open spec fn df_v() -> Seq<Seq<char>> {
    seq![
        "Volume    Point de montage  Plage LBA           Taille     Rôle / État"@,
        "─────────────────────────────────────────────────────────────────────────────"@,
        "hd0s0     (boot)            "@ + plage_v(LBA_BOOT_DEBUT as nat, (LBA_BOOT_DEBUT + LBA_BOOT_TAILLE - 1) as nat)
            + "   1 Mo       Amorçage noyau [RO]"@,
        "hd0s1     /sec              "@ + plage_v(LBA_SEC_DEBUT as nat, (LBA_SEC_DEBUT + LBA_SEC_TAILLE - 1) as nat)
            + "   9 Mo       Coffre RBAC / Clés [RW]"@,
        "hd0s2     /var              "@ + plage_v(LBA_VAR_DEBUT as nat, LBA_DERNIER as nat)
            + "   1014 Mo    Audit & Fichiers [RW]"@,
        "─────────────────────────────────────────────────────────────────────────────"@,
        "Disque physique : SATA Port 0 (1024 Mo / 2097152 secteurs LBA de 512 octets)"@,
    ]
}

fn texte_decimal(n: u64) -> (r: String)
    ensures
        r@ == decimal(n as nat),
{
    let mut s = String::new();
    pousser_decimal(&mut s, n);
    assert(s@ =~= decimal(n as nat));
    s
}

fn ligne_volume(debut_ligne: &str, debut: u64, fin: u64, fin_ligne: &str) -> (r: String)
    ensures
        r@ == debut_ligne@ + plage_v(debut as nat, fin as nat) + fin_ligne@,
{
    let mut l = vers_chaine(debut_ligne);
    pousser_a_droite(&mut l, &texte_decimal(debut), 7);
    pousser_texte(&mut l, "..");
    pousser_a_gauche(&mut l, &texte_decimal(fin), 7);
    pousser_texte(&mut l, fin_ligne);
    assert(l@ =~= debut_ligne@ + plage_v(debut as nat, fin as nat) + fin_ligne@);
    l
}

/// Commande `df` : table des partitions du disque.
pub fn executer() -> (r: Vec<String>)
    ensures
        vue_mots(r@) == df_v(),
{
    let mut r: Vec<String> = Vec::new();
    r.push(vers_chaine("Volume    Point de montage  Plage LBA           Taille     Rôle / État"));
    r.push(vers_chaine("─────────────────────────────────────────────────────────────────────────────"));
    r.push(ligne_volume("hd0s0     (boot)            ", LBA_BOOT_DEBUT, LBA_BOOT_DEBUT + LBA_BOOT_TAILLE - 1, "   1 Mo       Amorçage noyau [RO]"));
    r.push(ligne_volume("hd0s1     /sec              ", LBA_SEC_DEBUT, LBA_SEC_DEBUT + LBA_SEC_TAILLE - 1, "   9 Mo       Coffre RBAC / Clés [RW]"));
    r.push(ligne_volume("hd0s2     /var              ", LBA_VAR_DEBUT, LBA_DERNIER, "   1014 Mo    Audit & Fichiers [RW]"));
    r.push(vers_chaine("─────────────────────────────────────────────────────────────────────────────"));
    r.push(vers_chaine("Disque physique : SATA Port 0 (1024 Mo / 2097152 secteurs LBA de 512 octets)"));
    assert(vue_mots(r@) =~= df_v());
    r
}

} // verus!
