use vstd::prelude::*;
use std::string::String;
use std::vec::Vec;
use crate::fs::{FileSystem, VueFs, dossier_a, resoudre};
use crate::texte::{concat3, rogner, rogner_v, vers_chaine, vue_mots};

verus! {

/// Effet de `cdr <chemin>` : le VFS et les lignes affichées.
pub open spec fn cdr_v(fs: VueFs, args: Seq<char>) -> (VueFs, Seq<Seq<char>>) {
    let c = rogner_v(args);
    if c.len() == 0 {
        (fs, seq!["Usage : cdr <chemin>"@])
    } else if dossier_a(fs.racine, resoudre(fs.cwd, c)) is Some {
        (VueFs { cwd: resoudre(fs.cwd, c), ..fs }, seq!["Déplacement réussi vers '"@ + c + "'."@])
    } else {
        (fs, seq!["Erreur : Répertoire introuvable ou invalide."@])
    }
}

/// Commande `cdr <chemin>` : rend les lignes à afficher.
pub fn executer(fs: &mut FileSystem, args: &str) -> (r: Vec<String>)
    ensures
        (final(fs)@, vue_mots(r@)) == cdr_v(old(fs)@, args@),
{
    let chemin = rogner(args);
    let mut lignes: Vec<String> = Vec::new();
    if chemin.as_str().unicode_len() == 0 {
        lignes.push(vers_chaine("Usage : cdr <chemin>"));
    } else if fs.changer_repertoire(chemin.as_str()) {
        lignes.push(concat3("Déplacement réussi vers '", chemin.as_str(), "'."));
    } else {
        lignes.push(vers_chaine("Erreur : Répertoire introuvable ou invalide."));
    }
    assert(vue_mots(lignes@) =~= cdr_v(old(fs)@, args@).1);
    lignes
}

} // verus!
