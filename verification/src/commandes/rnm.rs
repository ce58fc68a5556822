use vstd::prelude::*;
use std::string::String;
use std::vec::Vec;
use crate::fs::{FileSystem, VueFs, renommer_resultat, sync_si};
use crate::session::{NiveauPrivilege, Session, rang};
use crate::texte::{concat3, concat5, contient, decouper_mots, egal, mots, pousser_texte, vers_chaine, vue_mots};

verus! {

/// Arguments lus : (ancien, nouveau, répertoire attendu), ou les lignes d'usage à afficher.
pub open spec fn arguments_rnm(a: Seq<Seq<char>>) -> Result<(Seq<char>, Seq<char>, bool), Seq<Seq<char>>> {
    if a.len() == 2 {
        if a[0] == "-r"@ || a[1] == "-r"@ {
            Err(seq!["Utilisation : rnm -r <ancien_rep> <nouveau_rep>"@])
        } else {
            Ok((a[0], a[1], false))
        }
    } else if a.len() == 3 {
        if a[0] == "-r"@ {
            Ok((a[1], a[2], true))
        } else {
            Err(
                seq![
                    "Paramètre invalide : '"@ + a[0] + "'."@,
                    "Utilisation : rnm <ancien_fichier> <nouveau_fichier> ou rnm -r <ancien_rep> <nouveau_rep>"@,
                ],
            )
        }
    } else {
        Err(
            seq![
                "Utilisation :"@,
                "  rnm <ancien_fichier> <nouveau_fichier>"@,
                "  rnm -r <ancien_rep> <nouveau_rep>"@,
            ],
        )
    }
}

/// Message d'un renommage refusé par le VFS.
pub open spec fn message_erreur_rnm(e: Seq<char>, a: Seq<char>, n: Seq<char>) -> Seq<char> {
    if e == "est_dossier"@ {
        "Erreur : '"@ + a + "' est un répertoire. Utilisez 'rnm -r "@ + a + " "@ + n + "' pour le renommer."@
    } else if e == "est_fichier"@ {
        "Erreur : '"@ + a + "' est un fichier. Utilisez 'rnm "@ + a + " "@ + n + "' sans l'option '-r'."@
    } else if e == "existe_deja"@ {
        "Erreur : '"@ + n + "' existe déjà."@
    } else if e == "introuvable"@ {
        "Erreur : '"@ + a + "' introuvable."@
    } else {
        "Erreur : Impossible d'accéder au répertoire courant."@
    }
}

/// Effet de `rnm [-r] <ancien> <nouveau>` : le VFS, les lignes affichées et l'entrée d'audit.
/// Renommer un répertoire exige le palier Administrateur.
pub open spec fn rnm_v(fs: VueFs, niveau: NiveauPrivilege, args: Seq<char>) -> (VueFs, Seq<Seq<char>>, Option<Seq<char>>) {
    match arguments_rnm(mots(args)) {
        Err(l) => (fs, l, None),
        Ok((a, n, d)) => if a.contains('/') || n.contains('/') {
            (fs, seq!["Erreur : Les noms ne peuvent pas contenir le caractère '/'."@], None)
        } else if d && rang(niveau) < rang(NiveauPrivilege::Administrateur) {
            (
                fs,
                seq!["rnm: EPERM - Privilèges insuffisants pour renommer un répertoire (Administrateur requis)."@],
                Some("[AUDIT] rnm: tentative non autorisée de renommage du répertoire '"@ + a + "' (EPERM)"@),
            )
        } else {
            match renommer_resultat(fs, a, n, d) {
                Ok(_) => (
                    crate::fs::renommage_v(fs, a, n),
                    seq![
                        (if d {
                            "Répertoire '"@
                        } else {
                            "Fichier '"@
                        }) + a + "' renommé en '"@ + n + "'."@,
                    ],
                    Some(
                        (if d {
                            "[VFS] Répertoire '"@
                        } else {
                            "[VFS] Fichier '"@
                        }) + a + "' renommé en '"@ + n + "'"@,
                    ),
                ),
                Err(e) => (fs, seq![message_erreur_rnm(e@, a, n)], None),
            }
        },
    }
}

fn message_erreur(e: &str, a: &str, n: &str) -> (r: String)
    ensures
        r@ == message_erreur_rnm(e@, a@, n@),
{
    if egal(e, "est_dossier") {
        let mut s = concat3("Erreur : '", a, "' est un répertoire. Utilisez 'rnm -r ");
        pousser_texte(&mut s, a);
        pousser_texte(&mut s, " ");
        pousser_texte(&mut s, n);
        pousser_texte(&mut s, "' pour le renommer.");
        s
    } else if egal(e, "est_fichier") {
        let mut s = concat3("Erreur : '", a, "' est un fichier. Utilisez 'rnm ");
        pousser_texte(&mut s, a);
        pousser_texte(&mut s, " ");
        pousser_texte(&mut s, n);
        pousser_texte(&mut s, "' sans l'option '-r'.");
        s
    } else if egal(e, "existe_deja") {
        concat3("Erreur : '", n, "' existe déjà.")
    } else if egal(e, "introuvable") {
        concat3("Erreur : '", a, "' introuvable.")
    } else {
        vers_chaine("Erreur : Impossible d'accéder au répertoire courant.")
    }
}

/// `rnm` renomme bien une entrée.
pub open spec fn rnm_reussi(fs: VueFs, niveau: NiveauPrivilege, args: Seq<char>) -> bool {
    match arguments_rnm(mots(args)) {
        Ok((a, n, d)) => !a.contains('/') && !n.contains('/') && !(d && rang(niveau) < rang(
            NiveauPrivilege::Administrateur,
        )) && renommer_resultat(fs, a, n, d) is Ok,
        Err(_) => false,
    }
}

/// Commande `rnm [-r] <ancien> <nouveau>` : rend les lignes à afficher, l'entrée d'audit
/// éventuelle et, si le renommage a eu lieu, les écritures qui synchronisent /var.
pub fn executer(fs: &mut FileSystem, session: &Session, arguments: &str) -> (r: (
    Vec<String>,
    Option<String>,
    Vec<(u64, Vec<u8>)>,
))
    ensures
        sync_si(rnm_reussi(old(fs)@, session@.niveau, arguments@), final(fs)@.racine, r.2@),
        ({
            let (f, l, a) = rnm_v(old(fs)@, session@.niveau, arguments@);
            &&& final(fs)@ == f
            &&& vue_mots(r.0@) == l
            &&& match r.1 {
                Some(s) => a == Some(s@),
                None => a is None,
            }
        }),
{
    let args = decouper_mots(arguments);
    let ghost ws = mots(arguments@);
    assert(vue_mots(args@).len() == args@.len());
    let mut lignes: Vec<String> = Vec::new();
    let (ancien, nouveau, dossier): (String, String, bool) = if args.len() == 2 {
        proof {
            assert(vue_mots(args@)[0] == args@[0]@);
            assert(vue_mots(args@)[1] == args@[1]@);
        }
        if egal(args[0].as_str(), "-r") || egal(args[1].as_str(), "-r") {
            lignes.push(vers_chaine("Utilisation : rnm -r <ancien_rep> <nouveau_rep>"));
            assert(vue_mots(lignes@) =~= arguments_rnm(ws)->Err_0);
            return (lignes, None, Vec::new());
        }
        (vers_chaine(args[0].as_str()), vers_chaine(args[1].as_str()), false)
    } else if args.len() == 3 {
        proof {
            assert(vue_mots(args@)[0] == args@[0]@);
            assert(vue_mots(args@)[1] == args@[1]@);
            assert(vue_mots(args@)[2] == args@[2]@);
        }
        if egal(args[0].as_str(), "-r") {
            (vers_chaine(args[1].as_str()), vers_chaine(args[2].as_str()), true)
        } else {
            lignes.push(concat3("Paramètre invalide : '", args[0].as_str(), "'."));
            lignes.push(
                vers_chaine(
                    "Utilisation : rnm <ancien_fichier> <nouveau_fichier> ou rnm -r <ancien_rep> <nouveau_rep>",
                ),
            );
            assert(vue_mots(lignes@) =~= arguments_rnm(ws)->Err_0);
            return (lignes, None, Vec::new());
        }
    } else {
        lignes.push(vers_chaine("Utilisation :"));
        lignes.push(vers_chaine("  rnm <ancien_fichier> <nouveau_fichier>"));
        lignes.push(vers_chaine("  rnm -r <ancien_rep> <nouveau_rep>"));
        assert(vue_mots(lignes@) =~= arguments_rnm(ws)->Err_0);
        return (lignes, None, Vec::new());
    };
    if contient(ancien.as_str(), '/') || contient(nouveau.as_str(), '/') {
        lignes.push(vers_chaine("Erreur : Les noms ne peuvent pas contenir le caractère '/'."));
        assert(vue_mots(lignes@) =~= seq!["Erreur : Les noms ne peuvent pas contenir le caractère '/'."@]);
        return (lignes, None, Vec::new());
    }
    if dossier && !session.a_privilege(NiveauPrivilege::Administrateur) {
        lignes.push(
            vers_chaine(
                "rnm: EPERM - Privilèges insuffisants pour renommer un répertoire (Administrateur requis).",
            ),
        );
        let audit = concat3(
            "[AUDIT] rnm: tentative non autorisée de renommage du répertoire '",
            ancien.as_str(),
            "' (EPERM)",
        );
        assert(vue_mots(lignes@) =~= rnm_v(old(fs)@, session@.niveau, arguments@).1);
        return (lignes, Some(audit), Vec::new());
    }
    let (res, ecritures) = crate::fs::renommer(fs, ancien.as_str(), nouveau.as_str(), dossier);
    match res {
        Ok(()) => {
            let tete = if dossier {
                "Répertoire '"
            } else {
                "Fichier '"
            };
            let tete_audit = if dossier {
                "[VFS] Répertoire '"
            } else {
                "[VFS] Fichier '"
            };
            lignes.push(concat5(tete, ancien.as_str(), "' renommé en '", nouveau.as_str(), "'."));
            let audit = concat5(tete_audit, ancien.as_str(), "' renommé en '", nouveau.as_str(), "'");
            assert(vue_mots(lignes@) =~= rnm_v(old(fs)@, session@.niveau, arguments@).1);
            (lignes, Some(audit), ecritures)
        },
        Err(e) => {
            lignes.push(message_erreur(e, ancien.as_str(), nouveau.as_str()));
            assert(vue_mots(lignes@) =~= rnm_v(old(fs)@, session@.niveau, arguments@).1);
            (lignes, None, ecritures)
        },
    }
}

} // verus!
