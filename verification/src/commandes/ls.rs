use vstd::prelude::*;
use std::string::String;
use std::vec::Vec;
use crate::fs::{FileSystem, decrit, lister_cible_v, taille_v};
use crate::fs::node::{Horodatage, NoeudV, horodatage_v};
use crate::texte::{
    caracteres, decimal, decouper_mots, deux_chiffres, mots, pousser_car, pousser_decimal,
    pousser_deux_chiffres, pousser_texte, vers_chaine, vue_mots,
};

verus! {

/// Texte aligné à droite sur `w` colonnes (`{:>w}`).
pub open spec fn a_droite(s: Seq<char>, w: nat) -> Seq<char> {
    if s.len() < w {
        Seq::new((w - s.len()) as nat, |i: int| ' ') + s
    } else {
        s
    }
}

/// Ajoute `s` aligné à droite sur `w` colonnes.
pub fn pousser_a_droite(r: &mut String, s: &String, w: usize)
    ensures
        final(r)@ == old(r)@ + a_droite(s@, w as nat),
{
    let n = s.as_str().unicode_len();
    if n < w {
        let mut i: usize = 0;
        while i < w - n
            invariant
                n < w,
                i <= w - n,
                r@ == old(r)@ + Seq::new(i as nat, |k: int| ' '),
            decreases w - n - i,
        {
            pousser_car(r, ' ');
            i = i + 1;
            assert(r@ =~= old(r)@ + Seq::new(i as nat, |k: int| ' '));
        }
    }
    pousser_texte(r, s.as_str());
    assert(r@ =~= old(r)@ + a_droite(s@, w as nat));
}

fn texte_decimal(n: usize) -> (r: String)
    ensures
        r@ == decimal(n as nat),
{
    let mut s = String::new();
    pousser_decimal(&mut s, n as u64);
    assert(s@ =~= decimal(n as nat));
    s
}

/// Taille affichée par `ls -l` : en octets sur 8 colonnes, ou avec `-h` en octets (B), kibioctets
/// (K) ou mébioctets (M), avec une décimale en dessous de 10.
pub open spec fn taille_v_texte(o: nat, lisible: bool) -> Seq<char> {
    if !lisible {
        a_droite(decimal(o), 8)
    } else if o < 1024 {
        a_droite(decimal(o), 7) + seq!['B']
    } else if o < 1048576 {
        let k = o / 1024;
        let f = (o % 1024) * 10 / 1024;
        if k < 10 {
            a_droite(decimal(k), 5) + seq!['.'] + decimal(f) + seq!['K']
        } else {
            a_droite(decimal(k), 6) + seq!['K']
        }
    } else {
        let m = o / 1048576;
        let f = (o % 1048576) * 10 / 1048576;
        if m < 10 {
            a_droite(decimal(m), 5) + seq!['.'] + decimal(f) + seq!['M']
        } else {
            a_droite(decimal(m), 6) + seq!['M']
        }
    }
}

/// Taille affichée par `ls -l`.
pub fn formater_taille(octets: usize, human_readable: bool) -> (r: String)
    ensures
        r@ == taille_v_texte(octets as nat, human_readable),
{
    let mut s = String::new();
    if !human_readable {
        pousser_a_droite(&mut s, &texte_decimal(octets), 8);
        return s;
    }
    if octets < 1024 {
        pousser_a_droite(&mut s, &texte_decimal(octets), 7);
        pousser_car(&mut s, 'B');
    } else if octets < 1048576 {
        let ko = octets / 1024;
        let frac = (octets % 1024) * 10 / 1024;
        if ko < 10 {
            pousser_a_droite(&mut s, &texte_decimal(ko), 5);
            pousser_car(&mut s, '.');
            pousser_decimal(&mut s, frac as u64);
            pousser_car(&mut s, 'K');
        } else {
            pousser_a_droite(&mut s, &texte_decimal(ko), 6);
            pousser_car(&mut s, 'K');
        }
    } else {
        let mo = octets / 1048576;
        let frac = ((octets % 1048576) * 10) / 1048576;
        if mo < 10 {
            pousser_a_droite(&mut s, &texte_decimal(mo), 5);
            pousser_car(&mut s, '.');
            pousser_decimal(&mut s, frac as u64);
            pousser_car(&mut s, 'M');
        } else {
            pousser_a_droite(&mut s, &texte_decimal(mo), 6);
            pousser_car(&mut s, 'M');
        }
    }
    s
}

/// Options de `ls` lues dans un mot : -l (format long), -h (tailles lisibles).
pub open spec fn options_mot(w: Seq<char>, long: bool, lisible: bool) -> (bool, bool)
    decreases w.len(),
{
    if w.len() == 0 {
        (long, lisible)
    } else {
        let (l, h) = options_mot(w.drop_last(), long, lisible);
        (l || w.last() == 'l', h || w.last() == 'h')
    }
}

/// Options et chemin de `ls` : les mots qui commencent par '-' (au-delà de '-' seul) portent des
/// options, le premier autre mot est le chemin.
pub open spec fn arguments_ls(ws: Seq<Seq<char>>) -> (bool, bool, Seq<char>)
    decreases ws.len(),
{
    if ws.len() == 0 {
        (false, false, Seq::empty())
    } else {
        let (l, h, c) = arguments_ls(ws.drop_last());
        let w = ws.last();
        if w.len() > 1 && w[0] == '-' {
            let (l2, h2) = options_mot(w.drop_first(), l, h);
            (l2, h2, c)
        } else if c.len() == 0 {
            (l, h, w)
        } else {
            (l, h, c)
        }
    }
}

/// Ligne `ls -l` d'une entrée.
pub open spec fn ligne_longue(nom: Seq<char>, taille: nat, est_dossier: bool, h: Horodatage, lisible: bool) -> Seq<char> {
    (if est_dossier {
        "drwxr-xr-x"@
    } else {
        "-rw-r--r--"@
    }) + seq![' '] + a_droite(decimal(if est_dossier { 2 } else { 1 }), 2) + " qbx qbx "@ + taille_v_texte(
        taille,
        lisible,
    ) + seq![' '] + deux_chiffres(h.heure as nat) + seq![':'] + deux_chiffres(h.minute as nat) + seq![':']
        + deux_chiffres(h.seconde as nat) + seq![' '] + nom
}

/// Ligne `ls` d'une entrée : son nom, suivi de '/' pour un répertoire.
pub open spec fn ligne_courte(nom: Seq<char>, est_dossier: bool) -> Seq<char> {
    if est_dossier {
        nom.push('/')
    } else {
        nom
    }
}

/// Lignes affichées par `ls` pour les entrées `enf`.
pub open spec fn lignes_ls(enf: Seq<(Seq<char>, NoeudV)>, long: bool, lisible: bool) -> Seq<Seq<char>> {
    if enf.len() == 0 {
        seq!["(Dossier vide)"@]
    } else if long {
        seq!["total "@ + decimal(enf.len())] + Seq::new(
            enf.len(),
            |i: int|
                ligne_longue(
                    enf[i].0,
                    taille_v(enf[i].1),
                    enf[i].1 is Dossier,
                    horodatage_v(enf[i].1),
                    lisible,
                ),
        )
    } else {
        Seq::new(enf.len(), |i: int| ligne_courte(enf[i].0, enf[i].1 is Dossier))
    }
}

/// Lignes affichées par `ls [-l] [-h] [chemin]`.
pub open spec fn ls_v(fs: crate::fs::VueFs, args: Seq<char>) -> Seq<Seq<char>> {
    let (long, lisible, chemin) = arguments_ls(mots(args));
    match lister_cible_v(fs, chemin) {
        Ok(enf) => lignes_ls(enf, long, lisible),
        Err(e) => if e@ == "est_fichier"@ {
            seq!["ls: '"@ + chemin + "' est un fichier."@]
        } else {
            seq!["ls: impossible d'accéder à '"@ + chemin + "': Aucun fichier ou dossier de ce type."@]
        },
    }
}

fn options_x(w: &String, long: bool, lisible: bool) -> (r: (bool, bool))
    requires
        w@.len() > 1,
    ensures
        r == options_mot(w@.drop_first(), long, lisible),
{
    let v = caracteres(w.as_str());
    let mut l = long;
    let mut h = lisible;
    let mut i: usize = 1;
    while i < v.len()
        invariant
            v@ == w@,
            1 <= i <= v@.len(),
            (l, h) == options_mot(w@.drop_first().take(i - 1), long, lisible),
        decreases v@.len() - i,
    {
        proof {
            assert(w@.drop_first().take(i as int).drop_last() =~= w@.drop_first().take(i - 1));
            assert(w@.drop_first().take(i as int).last() == v@[i as int]);
        }
        let c = v[i];
        if c == 'l' {
            l = true;
        } else if c == 'h' {
            h = true;
        }
        i = i + 1;
    }
    assert(w@.drop_first().take(v@.len() - 1) =~= w@.drop_first());
    (l, h)
}

/// Commande `ls [-l] [-h] [chemin]` : lignes à afficher.
pub fn executer(fs: &FileSystem, arguments: &str) -> (r: Vec<String>)
    ensures
        vue_mots(r@) == ls_v(fs@, arguments@),
{
    let tokens = decouper_mots(arguments);
    let ghost ws = mots(arguments@);
    let mut long = false;
    let mut lisible = false;
    let mut chemin = String::new();
    let mut i: usize = 0;
    while i < tokens.len()
        invariant
            vue_mots(tokens@) == ws,
            i <= tokens@.len(),
            (long, lisible, chemin@) == arguments_ls(ws.take(i as int)),
        decreases tokens@.len() - i,
    {
        proof {
            assert(ws.take(i + 1).drop_last() =~= ws.take(i as int));
            assert(ws.take(i + 1).last() == tokens@[i as int]@);
        }
        let t = &tokens[i];
        let n = t.as_str().unicode_len();
        if n > 1 && t.as_str().get_char(0) == '-' {
            let (l, h) = options_x(t, long, lisible);
            long = l;
            lisible = h;
        } else if chemin.as_str().unicode_len() == 0 {
            chemin = vers_chaine(t.as_str());
        }
        i = i + 1;
    }
    proof {
        assert(ws.take(tokens@.len() as int) =~= ws);
    }
    let mut lignes: Vec<String> = Vec::new();
    match crate::fs::lister_cible(fs, chemin.as_str()) {
        Ok(elements) => {
            let ghost enf = lister_cible_v(fs@, chemin@)->Ok_0;
            if elements.len() == 0 {
                lignes.push(vers_chaine("(Dossier vide)"));
                assert(vue_mots(lignes@) =~= lignes_ls(enf, long, lisible));
                return lignes;
            }
            if long {
                let mut tete = vers_chaine("total ");
                pousser_decimal(&mut tete, elements.len() as u64);
                lignes.push(tete);
            }
            let mut k: usize = 0;
            while k < elements.len()
                invariant
                    decrit(elements@, enf),
                    k <= elements@.len(),
                    elements@.len() > 0,
                    vue_mots(lignes@) == lignes_ls(enf, long, lisible).take(k + if long {
                        1int
                    } else {
                        0int
                    }),
                decreases elements@.len() - k,
            {
                let (nom, taille, est_dossier, h) = &elements[k];
                let mut l = String::new();
                if long {
                    if *est_dossier {
                        pousser_texte(&mut l, "drwxr-xr-x");
                    } else {
                        pousser_texte(&mut l, "-rw-r--r--");
                    }
                    pousser_car(&mut l, ' ');
                    let liens: usize = if *est_dossier { 2 } else { 1 };
                    pousser_a_droite(&mut l, &texte_decimal(liens), 2);
                    pousser_texte(&mut l, " qbx qbx ");
                    let t = formater_taille(*taille, lisible);
                    pousser_texte(&mut l, t.as_str());
                    pousser_car(&mut l, ' ');
                    pousser_deux_chiffres(&mut l, h.heure as u64);
                    pousser_car(&mut l, ':');
                    pousser_deux_chiffres(&mut l, h.minute as u64);
                    pousser_car(&mut l, ':');
                    pousser_deux_chiffres(&mut l, h.seconde as u64);
                    pousser_car(&mut l, ' ');
                    pousser_texte(&mut l, nom.as_str());
                } else {
                    pousser_texte(&mut l, nom.as_str());
                    if *est_dossier {
                        pousser_car(&mut l, '/');
                    }
                }
                let ghost avant = lignes@;
                proof {
                    let j = k + if long { 1int } else { 0int };
                    assert(lignes_ls(enf, long, lisible)[j] == l@);
                    assert(lignes_ls(enf, long, lisible).take(j + 1) =~= lignes_ls(enf, long, lisible).take(
                        j,
                    ).push(l@));
                }
                lignes.push(l);
                assert(vue_mots(lignes@) =~= vue_mots(avant).push(lignes@.last()@));
                k = k + 1;
            }
            proof {
                let total = lignes_ls(enf, long, lisible);
                assert(total.take(total.len() as int) =~= total);
            }
        },
        Err(e) => {
            if crate::texte::egal(e, "est_fichier") {
                lignes.push(crate::texte::concat3("ls: '", chemin.as_str(), "' est un fichier."));
            } else {
                lignes.push(
                    crate::texte::concat3(
                        "ls: impossible d'accéder à '",
                        chemin.as_str(),
                        "': Aucun fichier ou dossier de ce type.",
                    ),
                );
            }
            assert(vue_mots(lignes@) =~= ls_v(fs@, arguments@));
        },
    }
    lignes
}


/// Un mot d'options de `ls` ('-' suivi d'au moins une lettre).
pub open spec fn mot_d_options(w: Seq<char>) -> bool {
    w.len() > 1 && w[0] == '-'
}

/// Dans un mot d'options, le format long est demandé exactement quand l'une de ses lettres est 'l',
/// et les tailles lisibles exactement quand l'une d'elles est 'h', quelle que soit sa place.
pub proof fn loi_options_mot(w: Seq<char>, long: bool, lisible: bool)
    ensures
        options_mot(w, long, lisible) == (long || w.contains('l'), lisible || w.contains('h')),
    decreases w.len(),
{
    if w.len() > 0 {
        let p = w.drop_last();
        loi_options_mot(p, long, lisible);
        assert forall|x: char| w.contains(x) <==> (p.contains(x) || w.last() == x) by {
            if w.contains(x) {
                let i = choose|i: int| 0 <= i < w.len() && w[i] == x;
                if i < w.len() - 1 {
                    assert(p[i] == x);
                }
            }
            if p.contains(x) {
                let i = choose|i: int| 0 <= i < p.len() && p[i] == x;
                assert(w[i] == x);
            }
            if w.last() == x {
                assert(w[w.len() - 1] == x);
            }
        }
    }
}

/// `ls` passe au format long exactement quand l'un de ses mots d'options contient 'l', et aux
/// tailles lisibles exactement quand l'un d'eux contient 'h'.
pub proof fn loi_options_ls(ws: Seq<Seq<char>>)
    ensures
        arguments_ls(ws).0 == exists|i: int|
            0 <= i < ws.len() && mot_d_options(#[trigger] ws[i]) && ws[i].drop_first().contains('l'),
        arguments_ls(ws).1 == exists|i: int|
            0 <= i < ws.len() && mot_d_options(#[trigger] ws[i]) && ws[i].drop_first().contains('h'),
    decreases ws.len(),
{
    if ws.len() > 0 {
        let p = ws.drop_last();
        let w = ws.last();
        loi_options_ls(p);
        let (l, h, c) = arguments_ls(p);
        loi_options_mot(w.drop_first(), l, h);
        assert forall|x: char| (exists|i: int|
            0 <= i < ws.len() && mot_d_options(#[trigger] ws[i]) && ws[i].drop_first().contains(x)) <==> ((exists|i: int|
            0 <= i < p.len() && mot_d_options(#[trigger] p[i]) && p[i].drop_first().contains(x)) || (mot_d_options(w)
            && w.drop_first().contains(x))) by {
            if exists|i: int| 0 <= i < ws.len() && mot_d_options(#[trigger] ws[i]) && ws[i].drop_first().contains(x) {
                let i = choose|i: int| 0 <= i < ws.len() && mot_d_options(#[trigger] ws[i]) && ws[i].drop_first().contains(x);
                if i < ws.len() - 1 {
                    assert(p[i] == ws[i]);
                }
            }
            if exists|i: int| 0 <= i < p.len() && mot_d_options(#[trigger] p[i]) && p[i].drop_first().contains(x) {
                let i = choose|i: int| 0 <= i < p.len() && mot_d_options(#[trigger] p[i]) && p[i].drop_first().contains(x);
                assert(ws[i] == p[i]);
            }
            if mot_d_options(w) && w.drop_first().contains(x) {
                assert(ws[ws.len() - 1] == w);
            }
        }
    }
}

} // verus!
