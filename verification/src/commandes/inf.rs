use vstd::prelude::*;
use std::string::String;
use std::vec::Vec;
use crate::texte::{vers_chaine, vue_mots};

verus! {

/// Lignes affichées par `inf`.
pub open spec fn inf_v() -> Seq<Seq<char>> {
    seq![
        "=== INFORMATIONS SYSTÈME QBX ==="@,
        "Système d'exploitation : QBX (Québec UNIX)"@,
        "Version                 : 0.1.0-baremetal"@,
        "Architecture            : x86_64 (64-bit)"@,
        "Mode d'affichage        : Texte VGA 80x25 (CP437)"@,
        "Gestionnaire d'energie  : ACPI / APM actif"@,
        "================================="@,
    ]
}

/// Commande `inf` : caractéristiques du système.
pub fn executer() -> (r: Vec<String>)
    ensures
        vue_mots(r@) == inf_v(),
{
    let mut r: Vec<String> = Vec::new();
    r.push(vers_chaine("=== INFORMATIONS SYSTÈME QBX ==="));
    r.push(vers_chaine("Système d'exploitation : QBX (Québec UNIX)"));
    r.push(vers_chaine("Version                 : 0.1.0-baremetal"));
    r.push(vers_chaine("Architecture            : x86_64 (64-bit)"));
    r.push(vers_chaine("Mode d'affichage        : Texte VGA 80x25 (CP437)"));
    r.push(vers_chaine("Gestionnaire d'energie  : ACPI / APM actif"));
    r.push(vers_chaine("================================="));
    assert(vue_mots(r@) =~= inf_v());
    r
}

} // verus!
