use vstd::prelude::*;
use std::string::String;
use std::vec::Vec;
use crate::fs::{FileSystem, VueFs, copier_v, sync_si};
use crate::fs::ops::message_v;
use crate::texte::{egal, pousser_texte, vers_chaine, vue_mots};

verus! {

/// Option -r (ou -R) et cibles (les autres arguments non vides).
pub open spec fn arguments_cpr(a: Seq<Seq<char>>) -> (bool, Seq<Seq<char>>)
    decreases a.len(),
{
    if a.len() == 0 {
        (false, Seq::empty())
    } else {
        let (r, c) = arguments_cpr(a.drop_last());
        let x = a.last();
        if x == "-r"@ || x == "-R"@ {
            (true, c)
        } else if x.len() > 0 {
            (r, c.push(x))
        } else {
            (r, c)
        }
    }
}

/// Effet de `cpr [-r] <source> <cible>` : le VFS et les lignes affichées (rien en cas de succès).
pub open spec fn cpr_v(fs: VueFs, args: Seq<Seq<char>>) -> (VueFs, Seq<Seq<char>>) {
    let (r, c) = arguments_cpr(args);
    if c.len() < 2 {
        (fs, seq!["Usage: cpr [-r] <source> <cible>"@])
    } else {
        let (racine, res) = copier_v(fs, c[0], c[1], r);
        (
            VueFs { racine: racine, cwd: fs.cwd },
            match res {
                Ok(_) => Seq::empty(),
                Err(e) => seq!["cpr: "@ + c[0] + ": "@ + message_v(e)],
            },
        )
    }
}

/// `cpr` copie bien sa source.
pub open spec fn cpr_reussi(fs: VueFs, args: Seq<Seq<char>>) -> bool {
    let (r, c) = arguments_cpr(args);
    c.len() >= 2 && copier_v(fs, c[0], c[1], r).1 is Ok
}

/// Commande `cpr [-r] <source> <cible>` : rend les lignes à afficher.
pub fn executer(fs: &mut FileSystem, args: &Vec<String>) -> (r: (Vec<String>, Vec<(u64, Vec<u8>)>))
    ensures
        (final(fs)@, vue_mots(r.0@)) == cpr_v(old(fs)@, vue_mots(args@)),
        sync_si(cpr_reussi(old(fs)@, vue_mots(args@)), final(fs)@.racine, r.1@),
{
    let ghost va = vue_mots(args@);
    let mut recursif = false;
    let mut cibles: Vec<String> = Vec::new();
    let mut i: usize = 0;
    while i < args.len()
        invariant
            va == vue_mots(args@),
            i <= args@.len(),
            (recursif, vue_mots(cibles@)) == arguments_cpr(va.take(i as int)),
        decreases args@.len() - i,
    {
        proof {
            assert(va.take(i + 1).drop_last() =~= va.take(i as int));
            assert(va.take(i + 1).last() == args@[i as int]@);
        }
        let a = args[i].as_str();
        if egal(a, "-r") || egal(a, "-R") {
            recursif = true;
        } else if a.unicode_len() > 0 {
            let ghost avant = cibles@;
            let c = vers_chaine(a);
            let ghost cv = c@;
            cibles.push(c);
            assert(vue_mots(cibles@) =~= vue_mots(avant).push(cv));
        }
        i = i + 1;
    }
    proof {
        assert(va.take(args@.len() as int) =~= va);
    }
    let mut lignes: Vec<String> = Vec::new();
    if cibles.len() < 2 {
        lignes.push(vers_chaine("Usage: cpr [-r] <source> <cible>"));
        assert(vue_mots(lignes@) =~= seq!["Usage: cpr [-r] <source> <cible>"@]);
        return (lignes, Vec::new());
    }
    proof {
        assert(vue_mots(cibles@)[0] == cibles@[0]@);
        assert(vue_mots(cibles@)[1] == cibles@[1]@);
    }
    let (res, ecritures) = crate::fs::copier(fs, cibles[0].as_str(), cibles[1].as_str(), recursif);
    match res {
        Ok(()) => {
            assert(vue_mots(lignes@) =~= Seq::<Seq<char>>::empty());
        },
        Err(err) => {
            let mut l = vers_chaine("cpr: ");
            pousser_texte(&mut l, cibles[0].as_str());
            pousser_texte(&mut l, ": ");
            pousser_texte(&mut l, err.message());
            lignes.push(l);
            assert(vue_mots(lignes@) =~= cpr_v(old(fs)@, va).1);
        },
    }
    (lignes, ecritures)
}

} // verus!
