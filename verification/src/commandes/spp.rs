use vstd::prelude::*;
use std::string::String;
use std::vec::Vec;
use crate::fs::{FileSystem, VueFs, supprimer_resultat, suppression_v, sync_si};
use crate::texte::{concat3, concat5, contient, decouper_mots, egal, mots, vers_chaine, vue_mots};

verus! {

/// Arguments lus : (nom, répertoire attendu), ou les lignes d'usage à afficher.
pub open spec fn arguments_spp(a: Seq<Seq<char>>) -> Result<(Seq<char>, bool), Seq<Seq<char>>> {
    if a.len() == 1 {
        if a[0] == "-r"@ {
            Err(seq!["Erreur : Spécifiez le nom du répertoire après '-r'."@, "Utilisation : spp [-r] <nom>"@])
        } else {
            Ok((a[0], false))
        }
    } else if a.len() == 2 {
        if a[0] == "-r"@ {
            Ok((a[1], true))
        } else if a[1] == "-r"@ {
            Ok((a[0], true))
        } else {
            Err(seq!["Erreur : Paramètre inconnu '"@ + a[0] + "'."@, "Utilisation : spp [-r] <nom>"@])
        }
    } else {
        Err(seq!["Utilisation : spp <fichier> ou spp -r <repertoire>"@])
    }
}

/// Message d'une suppression refusée par le VFS.
pub open spec fn message_erreur_spp(e: Seq<char>, n: Seq<char>) -> Seq<char> {
    if e == "est_dossier"@ {
        "Erreur : '"@ + n + "' est un répertoire. Utilisez 'spp -r "@ + n + "' pour le supprimer."@
    } else if e == "est_fichier"@ {
        "Erreur : '"@ + n + "' est un fichier. Utilisez 'spp "@ + n + "' sans l'option '-r'."@
    } else if e == "introuvable"@ {
        "Erreur : '"@ + n + "' introuvable."@
    } else {
        "Erreur : Impossible d'accéder au répertoire courant."@
    }
}

/// Effet de `spp [-r] <nom>` : le VFS et les lignes affichées.
pub open spec fn spp_v(fs: VueFs, args: Seq<char>) -> (VueFs, Seq<Seq<char>>) {
    match arguments_spp(mots(args)) {
        Err(l) => (fs, l),
        Ok((n, d)) => if n.contains('/') {
            (fs, seq!["Erreur : Le nom ne peut pas contenir le caractère '/'."@])
        } else {
            match supprimer_resultat(fs, n, d) {
                Ok(_) => (
                    suppression_v(fs, n),
                    seq![
                        (if d {
                            "Répertoire '"@
                        } else {
                            "Fichier '"@
                        }) + n + "' supprimé avec succès."@,
                    ],
                ),
                Err(e) => (fs, seq![message_erreur_spp(e@, n)]),
            }
        },
    }
}

/// `spp` supprime bien une entrée.
pub open spec fn spp_reussi(fs: VueFs, args: Seq<char>) -> bool {
    match arguments_spp(mots(args)) {
        Ok((n, d)) => !n.contains('/') && supprimer_resultat(fs, n, d) is Ok,
        Err(_) => false,
    }
}

fn message_erreur(e: &str, n: &str) -> (r: String)
    ensures
        r@ == message_erreur_spp(e@, n@),
{
    if egal(e, "est_dossier") {
        concat5("Erreur : '", n, "' est un répertoire. Utilisez 'spp -r ", n, "' pour le supprimer.")
    } else if egal(e, "est_fichier") {
        concat5("Erreur : '", n, "' est un fichier. Utilisez 'spp ", n, "' sans l'option '-r'.")
    } else if egal(e, "introuvable") {
        concat3("Erreur : '", n, "' introuvable.")
    } else {
        vers_chaine("Erreur : Impossible d'accéder au répertoire courant.")
    }
}

/// Commande `spp [-r] <nom>` : rend les lignes à afficher.
pub fn executer(fs: &mut FileSystem, arguments: &str) -> (r: (Vec<String>, Vec<(u64, Vec<u8>)>))
    ensures
        (final(fs)@, vue_mots(r.0@)) == spp_v(old(fs)@, arguments@),
        sync_si(spp_reussi(old(fs)@, arguments@), final(fs)@.racine, r.1@),
{
    let args = decouper_mots(arguments);
    let ghost ws = mots(arguments@);
    assert(vue_mots(args@).len() == args@.len());
    let mut lignes: Vec<String> = Vec::new();
    let (nom, dossier): (String, bool) = if args.len() == 1 {
        proof {
            assert(vue_mots(args@)[0] == args@[0]@);
        }
        if egal(args[0].as_str(), "-r") {
            lignes.push(vers_chaine("Erreur : Spécifiez le nom du répertoire après '-r'."));
            lignes.push(vers_chaine("Utilisation : spp [-r] <nom>"));
            assert(vue_mots(lignes@) =~= arguments_spp(ws)->Err_0);
            return (lignes, Vec::new());
        }
        (vers_chaine(args[0].as_str()), false)
    } else if args.len() == 2 {
        proof {
            assert(vue_mots(args@)[0] == args@[0]@);
            assert(vue_mots(args@)[1] == args@[1]@);
        }
        if egal(args[0].as_str(), "-r") {
            (vers_chaine(args[1].as_str()), true)
        } else if egal(args[1].as_str(), "-r") {
            (vers_chaine(args[0].as_str()), true)
        } else {
            lignes.push(concat3("Erreur : Paramètre inconnu '", args[0].as_str(), "'."));
            lignes.push(vers_chaine("Utilisation : spp [-r] <nom>"));
            assert(vue_mots(lignes@) =~= arguments_spp(ws)->Err_0);
            return (lignes, Vec::new());
        }
    } else {
        lignes.push(vers_chaine("Utilisation : spp <fichier> ou spp -r <repertoire>"));
        assert(vue_mots(lignes@) =~= arguments_spp(ws)->Err_0);
        return (lignes, Vec::new());
    };
    if contient(nom.as_str(), '/') {
        lignes.push(vers_chaine("Erreur : Le nom ne peut pas contenir le caractère '/'."));
        assert(vue_mots(lignes@) =~= spp_v(old(fs)@, arguments@).1);
        return (lignes, Vec::new());
    }
    let (res, ecritures) = crate::fs::supprimer(fs, nom.as_str(), dossier);
    match res {
        Ok(()) => {
            let tete = if dossier {
                "Répertoire '"
            } else {
                "Fichier '"
            };
            lignes.push(concat3(tete, nom.as_str(), "' supprimé avec succès."));
            assert(vue_mots(lignes@) =~= spp_v(old(fs)@, arguments@).1);
            (lignes, ecritures)
        },
        Err(e) => {
            lignes.push(message_erreur(e, nom.as_str()));
            assert(vue_mots(lignes@) =~= spp_v(old(fs)@, arguments@).1);
            (lignes, ecritures)
        },
    }
}

} // verus!
