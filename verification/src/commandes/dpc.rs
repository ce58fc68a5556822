use vstd::prelude::*;
use std::string::String;
use std::vec::Vec;
use crate::fs::{FileSystem, VueFs, deplacer_v, sync_si};
use crate::fs::ops::message_v;
use crate::texte::{pousser_texte, vers_chaine, vue_mots};

verus! {

/// Cibles : les arguments non vides.
pub open spec fn cibles_dpc(a: Seq<Seq<char>>) -> Seq<Seq<char>>
    decreases a.len(),
{
    if a.len() == 0 {
        Seq::empty()
    } else if a.last().len() > 0 {
        cibles_dpc(a.drop_last()).push(a.last())
    } else {
        cibles_dpc(a.drop_last())
    }
}

/// Effet de `dpc <source> <cible>` : le VFS et les lignes affichées (rien en cas de succès).
pub open spec fn dpc_v(fs: VueFs, args: Seq<Seq<char>>) -> (VueFs, Seq<Seq<char>>) {
    let c = cibles_dpc(args);
    if c.len() < 2 {
        (fs, seq!["Usage: dpc <source> <cible>"@])
    } else {
        let (racine, res) = deplacer_v(fs, c[0], c[1]);
        (
            VueFs { racine: racine, cwd: fs.cwd },
            match res {
                Ok(_) => Seq::empty(),
                Err(e) => seq!["dpc: "@ + c[0] + ": "@ + message_v(e)],
            },
        )
    }
}

/// `dpc` déplace bien sa source.
pub open spec fn dpc_reussi(fs: VueFs, args: Seq<Seq<char>>) -> bool {
    let c = cibles_dpc(args);
    c.len() >= 2 && deplacer_v(fs, c[0], c[1]).1 is Ok
}

/// Commande `dpc <source> <cible>` : rend les lignes à afficher.
pub fn executer(fs: &mut FileSystem, args: &Vec<String>) -> (r: (Vec<String>, Vec<(u64, Vec<u8>)>))
    ensures
        (final(fs)@, vue_mots(r.0@)) == dpc_v(old(fs)@, vue_mots(args@)),
        sync_si(dpc_reussi(old(fs)@, vue_mots(args@)), final(fs)@.racine, r.1@),
{
    let ghost va = vue_mots(args@);
    let mut cibles: Vec<String> = Vec::new();
    let mut i: usize = 0;
    while i < args.len()
        invariant
            va == vue_mots(args@),
            i <= args@.len(),
            vue_mots(cibles@) == cibles_dpc(va.take(i as int)),
        decreases args@.len() - i,
    {
        proof {
            assert(va.take(i + 1).drop_last() =~= va.take(i as int));
            assert(va.take(i + 1).last() == args@[i as int]@);
        }
        let a = args[i].as_str();
        if a.unicode_len() > 0 {
            let ghost avant = cibles@;
            let c = vers_chaine(a);
            let ghost cv = c@;
            cibles.push(c);
            assert(vue_mots(cibles@) =~= vue_mots(avant).push(cv));
        }
        i = i + 1;
    }
    proof {
        assert(va.take(args@.len() as int) =~= va);
    }
    let mut lignes: Vec<String> = Vec::new();
    if cibles.len() < 2 {
        lignes.push(vers_chaine("Usage: dpc <source> <cible>"));
        assert(vue_mots(lignes@) =~= seq!["Usage: dpc <source> <cible>"@]);
        return (lignes, Vec::new());
    }
    proof {
        assert(vue_mots(cibles@)[0] == cibles@[0]@);
        assert(vue_mots(cibles@)[1] == cibles@[1]@);
    }
    let (res, ecritures) = crate::fs::deplacer(fs, cibles[0].as_str(), cibles[1].as_str());
    match res {
        Ok(()) => {
            assert(vue_mots(lignes@) =~= Seq::<Seq<char>>::empty());
        },
        Err(err) => {
            let mut l = vers_chaine("dpc: ");
            pousser_texte(&mut l, cibles[0].as_str());
            pousser_texte(&mut l, ": ");
            pousser_texte(&mut l, err.message());
            lignes.push(l);
            assert(vue_mots(lignes@) =~= dpc_v(old(fs)@, va).1);
        },
    }
    (lignes, ecritures)
}

} // verus!
