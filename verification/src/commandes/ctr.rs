use vstd::prelude::*;
use std::string::String;
use std::vec::Vec;
use crate::fs::{FileSystem, VueFs, avec_entrees, dossier_a, sync_si};
use crate::fs::node::{Horodatage, NoeudV, a_enfant, inserer_enfant};
use crate::texte::{concat3, contient, vers_chaine, vue_mots};

verus! {

/// Effet de `ctr <nom>` : le VFS et les lignes affichées. Le répertoire est créé s'il n'existe pas
/// d'entrée de ce nom dans le répertoire courant.
pub open spec fn ctr_v(fs: VueFs, nom: Seq<char>, h: Horodatage) -> (VueFs, Seq<Seq<char>>) {
    if nom.len() == 0 {
        (fs, seq!["Utilisation : ctr <nom_dossier>"@])
    } else if nom.contains('/') {
        (fs, seq!["Erreur : Le nom du dossier ne peut pas contenir le caractère '/'."@])
    } else if dossier_a(fs.racine, fs.cwd) is Some && !a_enfant(dossier_a(fs.racine, fs.cwd).unwrap().0, nom) {
        (
            VueFs {
                racine: avec_entrees(
                    fs.racine,
                    fs.cwd,
                    inserer_enfant(dossier_a(fs.racine, fs.cwd).unwrap().0, nom, NoeudV::Dossier(Seq::empty(), h)),
                ),
                ..fs
            },
            seq!["Répertoire '"@ + nom + "' créé avec succès."@],
        )
    } else {
        (fs, seq!["Erreur : Impossible de créer le répertoire '"@ + nom + "' (existe déjà ou invalide)."@])
    }
}

/// `ctr <nom>` crée bien le répertoire.
pub open spec fn ctr_reussi(fs: VueFs, nom: Seq<char>) -> bool {
    nom.len() != 0 && !nom.contains('/') && dossier_a(fs.racine, fs.cwd) is Some && !a_enfant(
        dossier_a(fs.racine, fs.cwd).unwrap().0,
        nom,
    )
}

/// Commande `ctr <nom>` : crée un sous-répertoire du répertoire courant, horodaté `h` ; rend les
/// lignes affichées et, si le répertoire a été créé, les écritures qui synchronisent /var.
pub fn executer(fs: &mut FileSystem, nom_dossier: &str, h: Horodatage) -> (r: (Vec<String>, Vec<(u64, Vec<u8>)>))
    ensures
        (final(fs)@, vue_mots(r.0@)) == ctr_v(old(fs)@, nom_dossier@, h),
        sync_si(ctr_reussi(old(fs)@, nom_dossier@), final(fs)@.racine, r.1@),
{
    let mut ecritures: Vec<(u64, Vec<u8>)> = Vec::new();
    let mut lignes: Vec<String> = Vec::new();
    if nom_dossier.unicode_len() == 0 {
        lignes.push(vers_chaine("Utilisation : ctr <nom_dossier>"));
    } else if contient(nom_dossier, '/') {
        lignes.push(vers_chaine("Erreur : Le nom du dossier ne peut pas contenir le caractère '/'."));
    } else {
        let (cree, w) = fs.creer_repertoire(nom_dossier, h);
        if cree {
            lignes.push(concat3("Répertoire '", nom_dossier, "' créé avec succès."));
        } else {
            lignes.push(concat3("Erreur : Impossible de créer le répertoire '", nom_dossier, "' (existe déjà ou invalide)."));
        }
        ecritures = w;
    }
    assert(vue_mots(lignes@) =~= ctr_v(old(fs)@, nom_dossier@, h).1);
    (lignes, ecritures)
}

} // verus!
