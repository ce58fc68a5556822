use vstd::prelude::*;
use std::string::String;
use std::vec::Vec;
use crate::fs::{FileSystem, VueFs, lire_v};
use crate::texte::{
    concat3, decouper_mots, egal, lignes, lignes_v, mots, pousser_car, texte_utf8, vers_chaine,
    vue_mots,
};

verus! {

/// Lignes d'écran (80 colonnes) occupées par des lignes de texte : une pour une ligne vide.
pub open spec fn lignes_ecran_v(ls: Seq<Seq<char>>) -> nat
    decreases ls.len(),
{
    if ls.len() == 0 {
        0
    } else {
        let n = ls.last().len();
        lignes_ecran_v(ls.drop_last()) + if n == 0 {
            1
        } else {
            (n + 79) / 80
        }
    }
}

/// Somme des longueurs de lignes.
pub open spec fn somme_longueurs(ls: Seq<Seq<char>>) -> nat
    decreases ls.len(),
{
    if ls.len() == 0 {
        0
    } else {
        somme_longueurs(ls.drop_last()) + ls.last().len()
    }
}

proof fn lemme_ecran_par_longueurs(ls: Seq<Seq<char>>)
    ensures
        lignes_ecran_v(ls) <= somme_longueurs(ls) + ls.len(),
    decreases ls.len(),
{
    if ls.len() > 0 {
        lemme_ecran_par_longueurs(ls.drop_last());
    }
}

proof fn lemme_prefixe(ls: Seq<Seq<char>>, i: int)
    requires
        0 <= i <= ls.len(),
    ensures
        somme_longueurs(ls.take(i)) + i <= somme_longueurs(ls) + ls.len(),
    decreases ls.len() - i,
{
    if i < ls.len() {
        lemme_prefixe(ls, i + 1);
        assert(ls.take(i + 1).drop_last() =~= ls.take(i));
    } else {
        assert(ls.take(i) =~= ls);
    }
}

proof fn lemme_morceaux_longueurs(s: Seq<char>)
    ensures
        somme_longueurs(crate::texte::morceaux(s, '\n')) + crate::texte::morceaux(s, '\n').len() == s.len() + 1,
    decreases s.len(),
{
    if s.len() > 0 {
        lemme_morceaux_longueurs(s.drop_last());
        crate::texte::lemme_morceaux_non_vide(s.drop_last(), '\n');
        let r = crate::texte::morceaux(s.drop_last(), '\n');
        if s.last() == '\n' {
            assert(r.push(Seq::empty()).drop_last() =~= r);
            assert(r.push(Seq::<char>::empty()).last().len() == 0);
        } else {
            let u = r.update(r.len() - 1, r.last().push(s.last()));
            assert(u.drop_last() =~= r.drop_last());
            assert(u.last() == r.last().push(s.last()));
            assert(somme_longueurs(r) == somme_longueurs(r.drop_last()) + r.last().len());
            assert(somme_longueurs(u) == somme_longueurs(u.drop_last()) + u.last().len());
        }
    } else {
        let m = crate::texte::morceaux(s, '\n');
        assert(m =~= seq![Seq::<char>::empty()]);
        assert(m.drop_last() =~= Seq::<Seq<char>>::empty());
        assert(somme_longueurs(m) == somme_longueurs(m.drop_last()) + m.last().len());
    }
}

proof fn lemme_somme_cr(m: Seq<Seq<char>>, k: nat)
    requires
        k <= m.len(),
    ensures
        somme_longueurs(Seq::new(k, |i: int| crate::texte::sans_cr(m[i]))) <= somme_longueurs(m.take(k as int)),
    decreases k,
{
    if k > 0 {
        lemme_somme_cr(m, (k - 1) as nat);
        assert(Seq::new(k, |i: int| crate::texte::sans_cr(m[i])).drop_last() =~= Seq::new(
            (k - 1) as nat,
            |i: int| crate::texte::sans_cr(m[i]),
        ));
        assert(m.take(k as int).drop_last() =~= m.take(k - 1));
    }
}

/// Un texte de n caractères occupe au plus n + 1 lignes d'écran.
proof fn lemme_lignes_bornees(s: Seq<char>)
    ensures
        somme_longueurs(lignes_v(s)) + lignes_v(s).len() <= s.len() + 1,
{
    let m = crate::texte::morceaux(s, '\n');
    lemme_morceaux_longueurs(s);
    crate::texte::lemme_morceaux_non_vide(s, '\n');
    let debut = Seq::new((m.len() - 1) as nat, |i: int| crate::texte::sans_cr(m[i]));
    lemme_somme_cr(m, (m.len() - 1) as nat);
    assert(m.take(m.len() - 1).push(m.last()) =~= m);
    assert(m.drop_last() =~= m.take(m.len() - 1));
    if m.last().len() != 0 {
        assert(debut.push(m.last()).drop_last() =~= debut);
    }
}

/// Nombre de lignes d'écran occupées par un texte.
pub fn calculer_lignes_ecran(texte: &str) -> (r: usize)
    requires
        texte@.len() + 79 <= usize::MAX,
    ensures
        r == lignes_ecran_v(lignes_v(texte@)),
{
    let ls = lignes(texte);
    let ghost lv = lignes_v(texte@);
    let mut total: usize = 0;
    let mut i: usize = 0;
    proof {
        lemme_lignes_bornees(texte@);
    }
    while i < ls.len()
        invariant
            vue_mots(ls@) == lv,
            lv == lignes_v(texte@),
            i <= ls@.len(),
            total == lignes_ecran_v(lv.take(i as int)),
            somme_longueurs(lv) + lv.len() <= texte@.len() + 1,
            texte@.len() + 79 <= usize::MAX,
        decreases ls@.len() - i,
    {
        proof {
            assert(lv.take(i + 1).drop_last() =~= lv.take(i as int));
            assert(vue_mots(ls@)[i as int] == ls@[i as int]@);
            assert(lv.take(i + 1).last() == lv[i as int]);
            lemme_ecran_par_longueurs(lv.take(i + 1));
            lemme_prefixe(lv, i + 1);
            assert(somme_longueurs(lv.take(i + 1)) == somme_longueurs(lv.take(i as int)) + lv[i as int].len());
        }
        let n = ls[i].as_str().unicode_len();
        total = total + if n == 0 {
            1
        } else {
            (n + 79) / 80
        };
        i = i + 1;
    }
    proof {
        assert(lv.take(ls@.len() as int) =~= lv);
    }
    total
}

/// Ce que `cat` fait afficher.
pub enum SortieCat {
    /// Lignes de message.
    Lignes(Vec<String>),
    /// Texte à afficher page par page.
    Paginer(String),
    /// Texte à afficher tel quel.
    Brut(String),
}

pub enum SortieCatV {
    Lignes(Seq<Seq<char>>),
    Paginer(Seq<char>),
    Brut(Seq<char>),
}

pub open spec fn vue_sortie_cat(s: SortieCat) -> SortieCatV {
    match s {
        SortieCat::Lignes(v) => SortieCatV::Lignes(vue_mots(v@)),
        SortieCat::Paginer(t) => SortieCatV::Paginer(t@),
        SortieCat::Brut(t) => SortieCatV::Brut(t@),
    }
}

/// Option -ppp et nom du fichier (le premier mot qui n'est pas -ppp).
pub open spec fn arguments_cat(ws: Seq<Seq<char>>) -> (bool, Seq<char>)
    decreases ws.len(),
{
    if ws.len() == 0 {
        (false, Seq::empty())
    } else {
        let (p, n) = arguments_cat(ws.drop_last());
        if ws.last() == "-ppp"@ {
            (true, n)
        } else if n.len() == 0 {
            (p, ws.last())
        } else {
            (p, n)
        }
    }
}

/// Octets lus comme des caractères Latin-1 (un caractère par octet).
pub open spec fn latin1(d: Seq<u8>) -> Seq<char> {
    Seq::new(d.len(), |i: int| (d[i] as u32) as char)
}

/// Affichage de `cat [-ppp] <fichier>` : page par page si demandé ou si le texte dépasse 20 lignes
/// d'écran, sinon les octets tels quels, suivis d'un saut de ligne s'il n'en finit pas.
pub open spec fn cat_v(fs: VueFs, args: Seq<char>) -> SortieCatV {
    let (ppp, nom) = arguments_cat(mots(args));
    if nom.len() == 0 {
        SortieCatV::Lignes(seq!["Usage : cat <nom_fichier> [-ppp]"@])
    } else {
        match lire_v(fs, nom) {
            None => SortieCatV::Lignes(seq!["Erreur : Fichier '"@ + nom + "' introuvable."@]),
            Some(d) => if d.len() == 0 {
                SortieCatV::Lignes(seq!["(Fichier vide)"@])
            } else if !vstd::utf8::valid_utf8(d) {
                SortieCatV::Lignes(seq!["Erreur : le fichier ne contient pas de texte UTF-8 valide."@])
            } else {
                let t = vstd::utf8::decode_utf8(d);
                if ppp || lignes_ecran_v(lignes_v(t)) > 20 {
                    SortieCatV::Paginer(t)
                } else if t.last() == '\n' {
                    SortieCatV::Brut(latin1(d))
                } else {
                    SortieCatV::Brut(latin1(d).push('\n'))
                }
            },
        }
    }
}

/// Commande `cat [-ppp] <fichier>`.
pub fn executer(fs: &FileSystem, args: &str) -> (r: SortieCat)
    requires
        match lire_v(fs@, arguments_cat(mots(args@)).1) {
            Some(d) => d.len() + 79 <= usize::MAX,
            None => true,
        },
    ensures
        vue_sortie_cat(r) == cat_v(fs@, args@),
{
    let ws = decouper_mots(args);
    let ghost vw = mots(args@);
    let mut ppp = false;
    let mut nom = String::new();
    let mut i: usize = 0;
    while i < ws.len()
        invariant
            vue_mots(ws@) == vw,
            i <= ws@.len(),
            (ppp, nom@) == arguments_cat(vw.take(i as int)),
        decreases ws@.len() - i,
    {
        proof {
            assert(vw.take(i + 1).drop_last() =~= vw.take(i as int));
            assert(vw.take(i + 1).last() == ws@[i as int]@);
        }
        if egal(ws[i].as_str(), "-ppp") {
            ppp = true;
        } else if nom.as_str().unicode_len() == 0 {
            nom = vers_chaine(ws[i].as_str());
        }
        i = i + 1;
    }
    proof {
        assert(vw.take(ws@.len() as int) =~= vw);
    }
    let mut sortie: Vec<String> = Vec::new();
    if nom.as_str().unicode_len() == 0 {
        sortie.push(vers_chaine("Usage : cat <nom_fichier> [-ppp]"));
        assert(vue_mots(sortie@) =~= seq!["Usage : cat <nom_fichier> [-ppp]"@]);
        return SortieCat::Lignes(sortie);
    }
    let contenu = match crate::fs::lire(fs, nom.as_str()) {
        Some(c) => c,
        None => {
            sortie.push(concat3("Erreur : Fichier '", nom.as_str(), "' introuvable."));
            assert(vue_mots(sortie@) =~= seq!["Erreur : Fichier '"@ + nom@ + "' introuvable."@]);
            return SortieCat::Lignes(sortie);
        },
    };
    if contenu.len() == 0 {
        sortie.push(vers_chaine("(Fichier vide)"));
        assert(vue_mots(sortie@) =~= seq!["(Fichier vide)"@]);
        return SortieCat::Lignes(sortie);
    }
    let texte = match texte_utf8(contenu.as_slice()) {
        Some(t) => t,
        None => {
            sortie.push(vers_chaine("Erreur : le fichier ne contient pas de texte UTF-8 valide."));
            assert(vue_mots(sortie@) =~= seq!["Erreur : le fichier ne contient pas de texte UTF-8 valide."@]);
            return SortieCat::Lignes(sortie);
        },
    };
    proof {
        assert(texte@.len() <= contenu@.len()) by {
            lemme_decode_longueur(contenu@);
        }
    }
    let n_lignes = calculer_lignes_ecran(texte.as_str());
    if ppp || n_lignes > 20 {
        return SortieCat::Paginer(texte);
    }
    let mut brut = String::new();
    let mut k: usize = 0;
    while k < contenu.len()
        invariant
            k <= contenu@.len(),
            brut@ == latin1(contenu@.take(k as int)),
        decreases contenu@.len() - k,
    {
        pousser_car(&mut brut, char_latin1(contenu[k]));
        k = k + 1;
        assert(brut@ =~= latin1(contenu@.take(k as int)));
    }
    assert(contenu@.take(contenu@.len() as int) =~= contenu@);
    let t = texte.as_str();
    let n = t.unicode_len();
    proof {
        lemme_decode_non_vide(contenu@);
    }
    if t.get_char(n - 1) != '\n' {
        pousser_car(&mut brut, '\n');
    }
    SortieCat::Brut(brut)
}

/// Caractère Latin-1 d'un octet.
fn char_latin1(b: u8) -> (r: char)
    ensures
        r == (b as u32) as char,
{
    b as char
}

proof fn lemme_decode_longueur(b: Seq<u8>)
    requires
        vstd::utf8::valid_utf8(b),
    ensures
        vstd::utf8::decode_utf8(b).len() <= b.len(),
    decreases b.len(),
{
    vstd::utf8::decode_utf8_encode_utf8(b);
    lemme_encode_longueur(vstd::utf8::decode_utf8(b));
}

proof fn lemme_encode_longueur(c: Seq<char>)
    ensures
        c.len() <= vstd::utf8::encode_utf8(c).len(),
    decreases c.len(),
{
    reveal_with_fuel(vstd::utf8::encode_utf8, 2);
    if c.len() > 0 {
        lemme_encode_longueur(c.drop_first());
    }
}

proof fn lemme_decode_non_vide(b: Seq<u8>)
    requires
        vstd::utf8::valid_utf8(b),
        b.len() > 0,
    ensures
        vstd::utf8::decode_utf8(b).len() > 0,
{
    vstd::utf8::decode_utf8_encode_utf8(b);
    if vstd::utf8::decode_utf8(b).len() == 0 {
        assert(vstd::utf8::encode_utf8(vstd::utf8::decode_utf8(b)) =~= Seq::<u8>::empty()) by {
            reveal_with_fuel(vstd::utf8::encode_utf8, 1);
        }
    }
}

} // verus!
