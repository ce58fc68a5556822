use vstd::prelude::*;
use crate::fs::node::{
    a_enfant, acces, bien_forme, enfants_bien_formes, est_rang, indice, inserer_enfant, lemme_indice_unique,
    lemme_lex_irreflexif, lemme_rang_unique, lex_lt, remplacer, trie, NoeudV,
};
use crate::fs::arbre::{lemme_acces_parent, lemme_acces_remplacer, lemme_remplacer_bien_forme, lemme_remplacer_deux_fois, lemme_remplacer_identite};
use crate::fs::path::{decouper, non_vides, parties};
use crate::fs::lois::{encodable, loi_flux_aller_retour};
use crate::fs::{collecter, collecter_liste, decoder_flux, flux_v, inserer_chemin, prefixer, restaurer, EntreeV};

verus! {

/// Un nom d'entrée valide : non vide, sans '/'.
pub open spec fn nom_valide(n: Seq<char>) -> bool {
    n.len() != 0 && !n.contains('/')
}

/// Tous les noms de l'arbre sont valides.
pub open spec fn noms_valides(n: NoeudV) -> bool
    decreases n,
{
    match n {
        NoeudV::Fichier(_, _) => true,
        NoeudV::Dossier(enf, _) => noms_valides_liste(enf),
    }
}

pub open spec fn noms_valides_liste(enf: Seq<(Seq<char>, NoeudV)>) -> bool
    decreases enf,
{
    if enf.len() == 0 {
        true
    } else {
        noms_valides_liste(enf.drop_last()) && nom_valide(enf.last().0) && noms_valides(enf.last().1)
    }
}

/// Texte d'un chemin tel que le parcours du VFS l'écrit : éléments séparés par '/', sans '/'
/// initial.
pub open spec fn texte_chemin(ps: Seq<Seq<char>>) -> Seq<char>
    decreases ps.len(),
{
    if ps.len() == 0 {
        Seq::empty()
    } else {
        prefixer(texte_chemin(ps.drop_last()), ps.last())
    }
}

proof fn lemme_decouper_suite(a: Seq<char>, b: Seq<char>)
    requires
        !b.contains('/'),
    ensures
        decouper(a + b) == decouper(a).update(decouper(a).len() - 1, decouper(a).last() + b),
        decouper(a + b).len() == decouper(a).len(),
    decreases b.len(),
{
    crate::fs::path::lemme_decouper_non_vide(a);
    if b.len() == 0 {
        assert(a + b =~= a);
        assert(decouper(a).last() + b =~= decouper(a).last());
        assert(decouper(a).update(decouper(a).len() - 1, decouper(a).last()) =~= decouper(a));
    } else {
        let b1 = b.drop_last();
        assert forall|i: int| 0 <= i < b1.len() implies b1[i] != '/' by {
            assert(b1[i] == b[i]);
        }
        lemme_decouper_suite(a, b1);
        assert((a + b).drop_last() =~= a + b1);
        assert((a + b).last() == b.last());
        assert(b.last() != '/') by {
            if b.last() == '/' {
                assert(b.contains('/'));
            }
        }
        assert(decouper(a).last() + b1 + seq![b.last()] =~= decouper(a).last() + b);
        assert((decouper(a).last() + b1).push(b.last()) =~= decouper(a).last() + b);
        assert(decouper(a + b) =~= decouper(a).update(decouper(a).len() - 1, decouper(a).last() + b));
    }
}

/// Les éléments d'un chemin prolongé par un nom valide sont ceux du chemin, puis ce nom.
proof fn lemme_parties_prefixer(pre: Seq<char>, nom: Seq<char>)
    requires
        nom_valide(nom),
    ensures
        parties(prefixer(pre, nom)) == parties(pre).push(nom),
{
    if pre.len() == 0 {
        lemme_decouper_suite(Seq::empty(), nom);
        assert(Seq::<char>::empty() + nom =~= nom);
        assert(decouper(Seq::<char>::empty()) =~= seq![Seq::<char>::empty()]);
        assert(decouper(nom) =~= seq![nom]);
        assert(seq![nom].drop_last() =~= Seq::<Seq<char>>::empty());
        assert(non_vides(Seq::<Seq<char>>::empty()) =~= Seq::<Seq<char>>::empty());
        assert(decouper(pre) =~= seq![Seq::<char>::empty()]);
        assert(seq![Seq::<char>::empty()].drop_last() =~= Seq::<Seq<char>>::empty());
        assert(non_vides(decouper(pre)) =~= Seq::<Seq<char>>::empty());
        assert(non_vides(seq![nom]) =~= seq![nom]);
    } else {
        let a = pre + seq!['/'];
        assert(a.drop_last() =~= pre);
        crate::fs::path::lemme_decouper_non_vide(pre);
        assert(decouper(a) =~= decouper(pre).push(Seq::empty()));
        lemme_decouper_suite(a, nom);
        assert(Seq::<char>::empty() + nom =~= nom);
        assert(decouper(a + nom) =~= decouper(pre).push(nom));
        assert(prefixer(pre, nom) =~= a + nom);
        assert(decouper(pre).push(nom).drop_last() =~= decouper(pre));
    }
}

/// Les éléments du texte d'un chemin aux noms valides sont ceux du chemin.
proof fn lemme_parties_texte(ps: Seq<Seq<char>>)
    requires
        forall|i: int| 0 <= i < ps.len() ==> nom_valide(#[trigger] ps[i]),
    ensures
        parties(texte_chemin(ps)) == ps,
    decreases ps.len(),
{
    if ps.len() == 0 {
        assert(decouper(Seq::<char>::empty()) =~= seq![Seq::<char>::empty()]);
        assert(seq![Seq::<char>::empty()].drop_last() =~= Seq::<Seq<char>>::empty());
        assert(seq![Seq::<char>::empty()].last().len() == 0);
        assert(non_vides(Seq::<Seq<char>>::empty()) =~= Seq::<Seq<char>>::empty());
        assert(non_vides(seq![Seq::<char>::empty()]) =~= Seq::<Seq<char>>::empty());
        assert(parties(Seq::<char>::empty()) =~= Seq::<Seq<char>>::empty());
    } else {
        assert forall|i: int| 0 <= i < ps.drop_last().len() implies nom_valide(#[trigger] ps.drop_last()[i]) by {
            assert(ps.drop_last()[i] == ps[i]);
        }
        lemme_parties_texte(ps.drop_last());
        assert(nom_valide(ps[ps.len() - 1]));
        lemme_parties_prefixer(texte_chemin(ps.drop_last()), ps.last());
        assert(ps.drop_last().push(ps.last()) =~= ps);
    }
}

/// Restaurer deux suites d'entrées l'une après l'autre revient à restaurer leur concaténation.
proof fn lemme_restaurer_concat(r: NoeudV, a: Seq<EntreeV>, b: Seq<EntreeV>)
    ensures
        restaurer(r, a + b) == restaurer(restaurer(r, a), b),
    decreases a.len(),
{
    if a.len() == 0 {
        assert(a + b =~= b);
    } else {
        assert((a + b)[0] == a[0]);
        assert((a + b).drop_first() =~= a.drop_first() + b);
        lemme_restaurer_concat(crate::fs::appliquer_entree(r, a[0]), a.drop_first(), b);
    }
}

/// Insérer un nom plus grand que tous ceux d'une liste triée l'ajoute à la fin.
proof fn lemme_inserer_fin(s: Seq<(Seq<char>, NoeudV)>, nom: Seq<char>, v: NoeudV)
    requires
        forall|j: int| 0 <= j < s.len() ==> lex_lt(#[trigger] s[j].0, nom),
    ensures
        !a_enfant(s, nom),
        inserer_enfant(s, nom, v) == s.push((nom, v)),
{
    lemme_lex_irreflexif(nom);
    if a_enfant(s, nom) {
        let i = choose|i: int| 0 <= i < s.len() && (#[trigger] s[i]).0 == nom;
        assert(lex_lt(s[i].0, nom));
    }
    assert(est_rang(s, nom, s.len() as int));
    lemme_rang_unique(s, nom, s.len() as int);
    assert(s.insert(s.len() as int, (nom, v)) =~= s.push((nom, v)));
}

/// Insérer au bout d'un chemin existant revient à remplacer le dossier de ce chemin par le
/// dossier où l'on a inséré la suite du chemin.
proof fn lemme_inserer_chemin_sous(
    t: NoeudV,
    ps: Seq<Seq<char>>,
    enf: Seq<(Seq<char>, NoeudV)>,
    hx: crate::fs::node::Horodatage,
    q: Seq<Seq<char>>,
    d: bool,
    data: Seq<u8>,
    h: crate::fs::node::Horodatage,
)
    requires
        acces(t, ps) == Some(NoeudV::Dossier(enf, hx)),
        q.len() >= 1,
    ensures
        inserer_chemin(t, ps + q, d, data, h) == remplacer(
            t,
            ps,
            inserer_chemin(NoeudV::Dossier(enf, hx), q, d, data, h),
        ),
    decreases ps.len(),
{
    if ps.len() == 0 {
        assert(ps + q =~= q);
    } else {
        if let NoeudV::Dossier(e, ht) = t {
            let i = indice(e, ps[0]);
            assert((ps + q)[0] == ps[0]);
            assert((ps + q).drop_first() =~= ps.drop_first() + q);
            lemme_inserer_chemin_sous(e[i].1, ps.drop_first(), enf, hx, q, d, data, h);
        }
    }
}

/// Remplacer l'enfant `x` du dossier au bout de `p` revient à remplacer ce dossier par le
/// dossier dont l'entrée `x` est remplacée.
proof fn lemme_remplacer_enfant(
    n: NoeudV,
    p: Seq<Seq<char>>,
    enf: Seq<(Seq<char>, NoeudV)>,
    hx: crate::fs::node::Horodatage,
    x: Seq<char>,
    v: NoeudV,
)
    requires
        acces(n, p) == Some(NoeudV::Dossier(enf, hx)),
        a_enfant(enf, x),
    ensures
        remplacer(n, p.push(x), v) == remplacer(n, p, NoeudV::Dossier(enf.update(indice(enf, x), (x, v)), hx)),
    decreases p.len(),
{
    if p.len() == 0 {
        assert(p.push(x) =~= seq![x]);
        assert(seq![x][0] == x);
        assert(seq![x].drop_first() =~= Seq::<Seq<char>>::empty());
        let i = indice(enf, x);
        assert(remplacer(n, seq![x], v) == NoeudV::Dossier(
            enf.update(i, (x, remplacer(enf[i].1, seq![x].drop_first(), v))),
            hx,
        ));
    } else {
        if let NoeudV::Dossier(e, ht) = n {
            let i = indice(e, p[0]);
            assert(p.push(x)[0] == p[0]);
            assert(p.push(x).drop_first() =~= p.drop_first().push(x));
            lemme_remplacer_enfant(e[i].1, p.drop_first(), enf, hx, x, v);
        }
    }
}

proof fn lemme_trie_debut(s: Seq<(Seq<char>, NoeudV)>)
    requires
        trie(s),
        s.len() > 0,
    ensures
        trie(s.drop_last()),
        forall|j: int| 0 <= j < s.drop_last().len() ==> lex_lt(#[trigger] s.drop_last()[j].0, s.last().0),
{
    assert forall|i: int, j: int| 0 <= i < j < s.drop_last().len() implies lex_lt(
        #[trigger] s.drop_last()[i].0,
        #[trigger] s.drop_last()[j].0,
    ) by {
        assert(s.drop_last()[i] == s[i] && s.drop_last()[j] == s[j]);
    }
    assert forall|j: int| 0 <= j < s.drop_last().len() implies lex_lt(#[trigger] s.drop_last()[j].0, s.last().0) by {
        assert(s.drop_last()[j] == s[j]);
        assert(s.last() == s[s.len() - 1]);
    }
}

/// Restaurer, dans un arbre dont le dossier au bout de `ps` est vide, les entrées que le parcours
/// écrit pour les enfants `enf` donne à ce dossier exactement ces enfants.
proof fn lemme_restaurer_liste(
    enf: Seq<(Seq<char>, NoeudV)>,
    hd: crate::fs::node::Horodatage,
    ps: Seq<Seq<char>>,
    t: NoeudV,
)
    requires
        trie(enf),
        enfants_bien_formes(enf),
        noms_valides_liste(enf),
        forall|i: int| 0 <= i < ps.len() ==> nom_valide(#[trigger] ps[i]),
        bien_forme(t),
        acces(t, ps) == Some(NoeudV::Dossier(Seq::empty(), hd)),
    ensures
        restaurer(t, collecter_liste(enf, texte_chemin(ps))) == remplacer(t, ps, NoeudV::Dossier(enf, hd)),
    decreases enf,
{
    let pre = texte_chemin(ps);
    if enf.len() == 0 {
        assert(collecter_liste(enf, pre) =~= Seq::<EntreeV>::empty());
        lemme_remplacer_identite(t, ps);
        assert(enf =~= Seq::<(Seq<char>, NoeudV)>::empty());
    } else {
        let e = enf.last();
        let e1 = enf.drop_last();
        let ch = prefixer(pre, e.0);
        lemme_trie_debut(enf);
        crate::fs::node::lemme_enfants_bien_formes(enf);
        crate::fs::node::lemme_enfants_bien_formes(e1);
        assert forall|i: int| 0 <= i < e1.len() implies bien_forme(#[trigger] e1[i].1) by {
            assert(e1[i] == enf[i]);
        }
        lemme_restaurer_liste(e1, hd, ps, t);
        let t1 = remplacer(t, ps, NoeudV::Dossier(e1, hd));
        lemme_remplacer_bien_forme(t, ps, NoeudV::Dossier(e1, hd));
        lemme_acces_remplacer(t, ps, NoeudV::Dossier(e1, hd));
        let blk = collecter_liste(enf, pre).skip(collecter_liste(e1, pre).len() as int);
        assert(collecter_liste(enf, pre) =~= collecter_liste(e1, pre) + blk);
        lemme_restaurer_concat(t, collecter_liste(e1, pre), blk);
        // Le chemin de l'entrée est celui du dossier, prolongé par son nom.
        let ps2 = ps.push(e.0);
        assert forall|i: int| 0 <= i < ps2.len() implies nom_valide(#[trigger] ps2[i]) by {
            if i < ps.len() {
                assert(ps2[i] == ps[i]);
            }
        }
        lemme_parties_texte(ps2);
        assert(ps2.drop_last() =~= ps);
        assert(texte_chemin(ps2) == ch);
        assert(ps + seq![e.0] =~= ps2);
        lemme_remplacer_deux_fois(t, ps, NoeudV::Dossier(e1, hd), NoeudV::Dossier(enf, hd));
        assert(e1.push(e) =~= enf);
        match e.1 {
            NoeudV::Fichier(d, h) => {
                assert(collecter_liste(enf, pre) == collecter_liste(e1, pre) + seq![(ch, false, d, h)]);
                assert(blk =~= seq![(ch, false, d, h)]);
                assert(blk.drop_first() =~= Seq::<EntreeV>::empty());
                lemme_inserer_fin(e1, e.0, NoeudV::Fichier(d, h));
                lemme_inserer_chemin_sous(t1, ps, e1, hd, seq![e.0], false, d, h);
                let x1 = crate::fs::appliquer_entree(t1, blk[0]);
                assert(restaurer(x1, blk.drop_first()) == x1);
                assert(restaurer(t1, blk) == x1);
            },
            NoeudV::Dossier(sub, h2) => {
                let reste = collecter_liste(sub, ch);
                assert(collecter(e.1, ch) == reste);
                assert(collecter_liste(enf, pre) == collecter_liste(e1, pre) + (seq![
                    (ch, true, Seq::<u8>::empty(), h2),
                ] + collecter(e.1, ch)));
                assert(blk =~= seq![(ch, true, Seq::<u8>::empty(), h2)] + reste);
                assert(blk.drop_first() =~= reste);
                lemme_inserer_fin(e1, e.0, NoeudV::Dossier(Seq::empty(), h2));
                lemme_inserer_chemin_sous(t1, ps, e1, hd, seq![e.0], true, Seq::empty(), h2);
                let e2 = e1.push((e.0, NoeudV::Dossier(Seq::empty(), h2)));
                let x2 = NoeudV::Dossier(e2, hd);
                let t2 = remplacer(t1, ps, x2);
                assert(crate::fs::appliquer_entree(t1, blk[0]) == t2);
                assert(restaurer(t1, blk) == restaurer(t2, reste));
                lemme_remplacer_deux_fois(t, ps, NoeudV::Dossier(e1, hd), x2);
                // Le nouveau dossier est trié et bien formé : mêmes noms que `enf`.
                assert forall|i: int, j: int| 0 <= i < j < e2.len() implies lex_lt(
                    #[trigger] e2[i].0,
                    #[trigger] e2[j].0,
                ) by {
                    assert(e2[i].0 == enf[i].0 && e2[j].0 == enf[j].0);
                }
                crate::fs::node::lemme_enfants_bien_formes(e2);
                assert forall|i: int| 0 <= i < e2.len() implies bien_forme(#[trigger] e2[i].1) by {
                    if i < e1.len() {
                        assert(e2[i] == e1[i]);
                    } else {
                        assert(trie(Seq::<(Seq<char>, NoeudV)>::empty()));
                        crate::fs::node::lemme_enfants_bien_formes(Seq::<(Seq<char>, NoeudV)>::empty());
                    }
                }
                lemme_remplacer_bien_forme(t, ps, x2);
                lemme_acces_remplacer(t, ps, x2);
                lemme_indice_unique(e2, e.0, e1.len() as int);
                lemme_acces_parent(t2, ps2);
                assert(acces(t2, ps2) == Some(NoeudV::Dossier(Seq::<(Seq<char>, NoeudV)>::empty(), h2)));
                // Le sous-dossier se restaure de même.
                assert(bien_forme(e.1));
                assert(noms_valides(e.1));
                lemme_restaurer_liste(sub, h2, ps2, t2);
                lemme_remplacer_enfant(t2, ps, e2, hd, e.0, NoeudV::Dossier(sub, h2));
                assert(e2.update(e1.len() as int, (e.0, NoeudV::Dossier(sub, h2))) =~= enf);
                lemme_remplacer_deux_fois(t, ps, x2, NoeudV::Dossier(enf, hd));
            },
        }
    }
}

/// Un VFS persisté puis relu dans un système de fichiers neuf se retrouve tel quel : restaurer les
/// entrées décodées du flux écrit redonne à la racine exactement ses enfants, avec leurs noms,
/// leurs types, leurs données et leurs horodatages. Les noms sont non vides et sans '/', et chaque
/// entrée tient dans le format (chemin de 65535 octets au plus, fichier de moins de 4 Gio).
pub proof fn loi_vfs_aller_retour(
    enf: Seq<(Seq<char>, NoeudV)>,
    hd: crate::fs::node::Horodatage,
    hd_neuf: crate::fs::node::Horodatage,
)
    requires
        bien_forme(NoeudV::Dossier(enf, hd)),
        noms_valides(NoeudV::Dossier(enf, hd)),
        forall|i: int|
            0 <= i < collecter(NoeudV::Dossier(enf, hd), Seq::empty()).len() ==> encodable(
                #[trigger] collecter(NoeudV::Dossier(enf, hd), Seq::empty())[i],
            ),
    ensures
        restaurer(NoeudV::Dossier(Seq::empty(), hd_neuf), decoder_flux(flux_v(NoeudV::Dossier(enf, hd))))
            == NoeudV::Dossier(enf, hd_neuf),
{
    let a = NoeudV::Dossier(enf, hd);
    loi_flux_aller_retour(collecter(a, Seq::empty()));
    let t = NoeudV::Dossier(Seq::<(Seq<char>, NoeudV)>::empty(), hd_neuf);
    crate::fs::node::lemme_enfants_bien_formes(Seq::<(Seq<char>, NoeudV)>::empty());
    assert(bien_forme(t));
    assert(texte_chemin(Seq::<Seq<char>>::empty()) =~= Seq::<char>::empty());
    lemme_restaurer_liste(enf, hd_neuf, Seq::empty(), t);
}

} // verus!
