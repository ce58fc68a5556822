use vstd::prelude::*;
use std::string::String;
use std::vec::Vec;
use crate::fs::node::{
    a_enfant, bien_forme, enfant, enfants_bien_formes, est_rang, indice, inserer_enfant,
    lemme_enfants_bien_formes, lemme_indice_unique, lemme_lex_asymetrique, lemme_lex_irreflexif,
    lemme_lex_total, lemme_lex_transitif, lemme_rang_unique, lemme_vue_enfants, lex_lt, retirer_enfant,
    trie, vue_enfants, vue_noeud, Horodatage, Node, NoeudV, acces, remplacer, vue_chemin,
};
use crate::texte::lex_inferieur;

verus! {

/// Vue des enfants d'un vecteur d'entrées.
pub open spec fn ve(v: Vec<(String, Node)>) -> Seq<(Seq<char>, NoeudV)> {
    vue_enfants(v@)
}

/// Place vide laissée dans l'arbre le temps d'une modification.
pub fn noeud_vide() -> (r: Node)
    ensures
        r@ == vide_v(),
        bien_forme(r@),
{
    let r = Node::nouveau_dossier(Horodatage::zero());
    proof {
        lemme_enfants_bien_formes(Seq::empty());
    }
    r
}

/// Recherche d'une entrée par nom.
pub fn chercher(enfants: &Vec<(String, Node)>, nom: &str) -> (r: Option<usize>)
    requires
        trie(ve(*enfants)),
    ensures
        match r {
            Some(i) => i < enfants.len() && a_enfant(ve(*enfants), nom@) && indice(
                ve(*enfants),
                nom@,
            ) == i,
            None => !a_enfant(ve(*enfants), nom@),
        },
{
    proof {
        lemme_vue_enfants(enfants@);
    }
    let mut i: usize = 0;
    while i < enfants.len()
        invariant
            i <= enfants.len(),
            ve(*enfants).len() == enfants.len(),
            trie(ve(*enfants)),
            forall|j: int| 0 <= j < i ==> (#[trigger] ve(*enfants)[j]).0 != nom@,
            forall|j: int|
                0 <= j < enfants.len() ==> #[trigger] ve(*enfants)[j] == (
                    enfants@[j].0@,
                    vue_noeud(enfants@[j].1),
                ),
        decreases enfants.len() - i,
    {
        let egal = enfants[i].0.as_str().unicode_len() == nom.unicode_len() && !lex_inferieur(
            enfants[i].0.as_str(),
            nom,
        ) && !lex_inferieur(nom, enfants[i].0.as_str());
        proof {
            let a = enfants@[i as int].0@;
            lemme_lex_total(a, nom@);
            lemme_lex_irreflexif(a);
        }
        if egal {
            proof {
                lemme_indice_unique(ve(*enfants), nom@, i as int);
            }
            return Some(i);
        }
        i = i + 1;
    }
    None
}

/// Position d'insertion d'un nom absent.
fn rang_insertion(enfants: &Vec<(String, Node)>, nom: &str) -> (k: usize)
    requires
        trie(ve(*enfants)),
    ensures
        est_rang(ve(*enfants), nom@, k as int),
{
    proof {
        lemme_vue_enfants(enfants@);
    }
    let mut i: usize = 0;
    while i < enfants.len()
        invariant
            i <= enfants.len(),
            ve(*enfants).len() == enfants.len(),
            trie(ve(*enfants)),
            forall|j: int| 0 <= j < i ==> lex_lt((#[trigger] ve(*enfants)[j]).0, nom@),
            forall|j: int|
                0 <= j < enfants.len() ==> #[trigger] ve(*enfants)[j] == (
                    enfants@[j].0@,
                    vue_noeud(enfants@[j].1),
                ),
        decreases enfants.len() - i,
    {
        if !lex_inferieur(enfants[i].0.as_str(), nom) {
            proof {
                let s = ve(*enfants);
                assert forall|j: int| i <= j < s.len() implies !lex_lt(
                    #[trigger] s[j].0,
                    nom@,
                ) by {
                    if j > i {
                        assert(lex_lt(s[i as int].0, s[j].0));
                        lemme_lex_transitif(s[i as int].0, s[j].0, nom@);
                        lemme_lex_total(s[i as int].0, nom@);
                        lemme_lex_asymetrique(s[j].0, nom@);
                        if s[i as int].0 == nom@ {
                            lemme_lex_asymetrique(s[i as int].0, s[j].0);
                        }
                    }
                }
            }
            return i;
        }
        i = i + 1;
    }
    i
}

/// Insère ou remplace l'entrée `nom` en gardant l'ordre.
pub fn inserer_entree(enfants: &mut Vec<(String, Node)>, nom: String, v: Node)
    requires
        trie(ve(*old(enfants))),
    ensures
        ve(*final(enfants)) == inserer_enfant(ve(*old(enfants)), nom@, v@),
        trie(ve(*final(enfants))),
        a_enfant(ve(*final(enfants)), nom@),
        enfant(ve(*final(enfants)), nom@) == Some(v@),
        enfants_bien_formes(ve(*old(enfants))) && bien_forme(v@) ==> enfants_bien_formes(
            ve(*final(enfants)),
        ),
{
    let ghost s = ve(*enfants);
    proof {
        lemme_vue_enfants(enfants@);
        lemme_enfants_bien_formes(s);
    }
    let ghost vv = v@;
    match chercher(enfants, nom.as_str()) {
        Some(i) => {
            let ghost nv = nom@;
            enfants.set(i, (nom, v));
            proof {
                lemme_vue_enfants(enfants@);
                assert(ve(*enfants) =~= s.update(i as int, (nv, vv)));
                lemme_enfants_bien_formes(ve(*enfants));
                lemme_indice_unique(ve(*enfants), nv, i as int);
            }
        },
        None => {
            let k = rang_insertion(enfants, nom.as_str());
            proof {
                lemme_rang_unique(s, nom@, k as int);
            }
            let ghost nv = nom@;
            enfants.insert(k, (nom, v));
            proof {
                lemme_vue_enfants(enfants@);
                let t = s.insert(k as int, (nv, vv));
                assert(ve(*enfants) =~= t);
                assert forall|i: int, j: int| 0 <= i < j < t.len() implies lex_lt(
                    #[trigger] t[i].0,
                    #[trigger] t[j].0,
                ) by {
                    if j == k {
                        assert(lex_lt(s[i].0, nom@));
                    } else if i == k {
                        let sj = s[j - 1].0;
                        assert(!lex_lt(sj, nom@));
                        assert(sj != nom@);
                        lemme_lex_total(sj, nom@);
                    } else if i < k && j > k {
                        assert(lex_lt(s[i].0, s[j - 1].0));
                    } else if j < k {
                        assert(lex_lt(s[i].0, s[j].0));
                    } else {
                        assert(lex_lt(s[i - 1].0, s[j - 1].0));
                    }
                }
                lemme_enfants_bien_formes(ve(*enfants));
                lemme_indice_unique(t, nv, k as int);
            }
        },
    }
}

/// Retire l'entrée `nom` si elle existe et la rend.
pub fn retirer_entree(enfants: &mut Vec<(String, Node)>, nom: &str) -> (r: Option<(String, Node)>)
    requires
        trie(ve(*old(enfants))),
    ensures
        ve(*final(enfants)) == retirer_enfant(ve(*old(enfants)), nom@),
        trie(ve(*final(enfants))),
        enfants_bien_formes(ve(*old(enfants))) ==> enfants_bien_formes(ve(*final(enfants))),
        match r {
            Some(e) => a_enfant(ve(*old(enfants)), nom@) && e.0@ == nom@ && e.1@ == enfant(
                ve(*old(enfants)),
                nom@,
            ).unwrap() && (enfants_bien_formes(ve(*old(enfants))) ==> bien_forme(e.1@)),
            None => !a_enfant(ve(*old(enfants)), nom@),
        },
{
    let ghost s = ve(*enfants);
    proof {
        lemme_vue_enfants(enfants@);
        lemme_enfants_bien_formes(s);
    }
    match chercher(enfants, nom) {
        Some(i) => {
            let e = enfants.remove(i);
            proof {
                lemme_vue_enfants(enfants@);
                let t = s.remove(i as int);
                assert(ve(*enfants) =~= t);
                assert forall|a: int, b: int| 0 <= a < b < t.len() implies lex_lt(
                    #[trigger] t[a].0,
                    #[trigger] t[b].0,
                ) by {
                    if a < i && b >= i {
                        assert(lex_lt(s[a].0, s[b + 1].0));
                    } else if b < i {
                        assert(lex_lt(s[a].0, s[b].0));
                    } else {
                        assert(lex_lt(s[a + 1].0, s[b + 1].0));
                    }
                }
                lemme_enfants_bien_formes(ve(*enfants));
            }
            Some(e)
        },
        None => None,
    }
}


pub open spec fn vide_v() -> NoeudV {
    NoeudV::Dossier(Seq::empty(), Horodatage { heure: 0, minute: 0, seconde: 0 })
}

pub proof fn lemme_chemin(p: Seq<String>, i: int)
    requires
        0 <= i < p.len(),
    ensures
        vue_chemin(p).len() == p.len(),
        vue_chemin(p).skip(i).len() > 0,
        vue_chemin(p).skip(i)[0] == p[i]@,
        vue_chemin(p).skip(i).drop_first() =~= vue_chemin(p).skip(i + 1),
{
}

/// Un nœud atteint dans un arbre bien formé est bien formé.
pub proof fn lemme_acces_bien_forme(n: NoeudV, p: Seq<Seq<char>>)
    requires
        bien_forme(n),
        acces(n, p) is Some,
    ensures
        bien_forme(acces(n, p).unwrap()),
    decreases p.len(),
{
    if p.len() > 0 {
        if let NoeudV::Dossier(enf, _) = n {
            lemme_enfants_bien_formes(enf);
            lemme_acces_bien_forme(enf[indice(enf, p[0])].1, p.drop_first());
        }
    }
}

/// Remplacer un nœud bien formé dans un arbre bien formé garde la bonne forme.
pub proof fn lemme_remplacer_bien_forme(n: NoeudV, p: Seq<Seq<char>>, v: NoeudV)
    requires
        bien_forme(n),
        bien_forme(v),
    ensures
        bien_forme(remplacer(n, p, v)),
    decreases p.len(),
{
    if p.len() > 0 {
        if let NoeudV::Dossier(enf, h) = n {
            if a_enfant(enf, p[0]) {
                let i = indice(enf, p[0]);
                lemme_enfants_bien_formes(enf);
                lemme_remplacer_bien_forme(enf[i].1, p.drop_first(), v);
                let t = enf.update(i, (p[0], remplacer(enf[i].1, p.drop_first(), v)));
                assert forall|a: int, b: int| 0 <= a < b < t.len() implies lex_lt(
                    #[trigger] t[a].0,
                    #[trigger] t[b].0,
                ) by {
                    assert(lex_lt(enf[a].0, enf[b].0));
                }
                lemme_enfants_bien_formes(t);
            }
        }
    }
}

/// Le nœud posé au bout d'un chemin existant s'y relit.
pub proof fn lemme_acces_remplacer(n: NoeudV, p: Seq<Seq<char>>, v: NoeudV)
    requires
        bien_forme(n),
        acces(n, p) is Some,
    ensures
        acces(remplacer(n, p, v), p) == Some(v),
    decreases p.len(),
{
    if p.len() > 0 {
        if let NoeudV::Dossier(enf, h) = n {
            let i = indice(enf, p[0]);
            lemme_enfants_bien_formes(enf);
            lemme_acces_remplacer(enf[i].1, p.drop_first(), v);
            let t = enf.update(i, (p[0], remplacer(enf[i].1, p.drop_first(), v)));
            assert forall|a: int, b: int| 0 <= a < b < t.len() implies lex_lt(
                #[trigger] t[a].0,
                #[trigger] t[b].0,
            ) by {
                assert(lex_lt(enf[a].0, enf[b].0));
            }
            lemme_indice_unique(t, p[0], i);
        }
    }
}

/// Remplacer deux fois au même endroit revient au second remplacement.
pub proof fn lemme_remplacer_deux_fois(n: NoeudV, p: Seq<Seq<char>>, a: NoeudV, b: NoeudV)
    requires
        bien_forme(n),
        acces(n, p) is Some,
    ensures
        remplacer(remplacer(n, p, a), p, b) == remplacer(n, p, b),
    decreases p.len(),
{
    if p.len() > 0 {
        if let NoeudV::Dossier(enf, h) = n {
            let i = indice(enf, p[0]);
            lemme_enfants_bien_formes(enf);
            lemme_remplacer_deux_fois(enf[i].1, p.drop_first(), a, b);
            let t = enf.update(i, (p[0], remplacer(enf[i].1, p.drop_first(), a)));
            assert forall|x: int, y: int| 0 <= x < y < t.len() implies lex_lt(
                #[trigger] t[x].0,
                #[trigger] t[y].0,
            ) by {
                assert(lex_lt(enf[x].0, enf[y].0));
            }
            lemme_indice_unique(t, p[0], i);
            assert(t.update(i, (p[0], remplacer(t[i].1, p.drop_first(), b))) =~= enf.update(
                i,
                (p[0], remplacer(enf[i].1, p.drop_first(), b)),
            ));
        }
    }
}

/// Reposer le nœud qui s'y trouvait déjà ne change rien.
pub proof fn lemme_remplacer_identite(n: NoeudV, p: Seq<Seq<char>>)
    requires
        bien_forme(n),
        acces(n, p) is Some,
    ensures
        remplacer(n, p, acces(n, p).unwrap()) == n,
    decreases p.len(),
{
    if p.len() > 0 {
        if let NoeudV::Dossier(enf, h) = n {
            let i = indice(enf, p[0]);
            lemme_enfants_bien_formes(enf);
            lemme_remplacer_identite(enf[i].1, p.drop_first());
            assert(enf.update(i, (p[0], remplacer(enf[i].1, p.drop_first(), acces(n, p).unwrap())))
                =~= enf);
        }
    }
}

/// Le nœud au bout d'un chemin est l'enfant nommé `p.last()` du dossier au bout de `p.drop_last()`.
pub proof fn lemme_acces_parent(n: NoeudV, p: Seq<Seq<char>>)
    requires
        p.len() > 0,
    ensures
        acces(n, p) == match acces(n, p.drop_last()) {
            Some(NoeudV::Dossier(enf, _)) => if a_enfant(enf, p.last()) {
                Some(enf[indice(enf, p.last())].1)
            } else {
                None
            },
            _ => None,
        },
    decreases p.len(),
{
    if p.len() > 1 {
        if let NoeudV::Dossier(enf, _) = n {
            if a_enfant(enf, p[0]) {
                lemme_acces_parent(enf[indice(enf, p[0])].1, p.drop_first());
                assert(p.drop_first().drop_last() =~= p.drop_last().drop_first());
                assert(p.drop_first().last() == p.last());
                assert(p.drop_last()[0] == p[0]);
                assert(acces(n, p.drop_last()) == acces(
                    enf[indice(enf, p[0])].1,
                    p.drop_last().drop_first(),
                ));
            } else {
                assert(p.drop_last()[0] == p[0]);
            }
        }
    } else {
        assert(p.drop_last() =~= Seq::<Seq<char>>::empty());
        assert(p.drop_first() =~= Seq::<Seq<char>>::empty());
        assert(acces(n, p.drop_last()) == Some(n));
        assert(p.last() == p[0]);
        if let NoeudV::Dossier(enf, _) = n {
            if a_enfant(enf, p[0]) {
                let c = enf[indice(enf, p[0])].1;
                assert(acces(c, p.drop_first()) == Some(c));
            }
        }
    }
}

/// Le nœud au bout de `p` (lecture seule).
pub fn acceder<'a>(n: &'a Node, p: &Vec<String>) -> (r: Option<&'a Node>)
    requires
        bien_forme(n@),
    ensures
        match r {
            Some(x) => acces(n@, vue_chemin(p@)) == Some(x@),
            None => acces(n@, vue_chemin(p@)) is None,
        },
{
    let mut courant: &Node = n;
    let mut i: usize = 0;
    proof {
        assert(vue_chemin(p@).skip(0) =~= vue_chemin(p@));
    }
    while i < p.len()
        invariant
            i <= p.len(),
            bien_forme(courant@),
            acces(n@, vue_chemin(p@)) == acces(courant@, vue_chemin(p@).skip(i as int)),
        decreases p.len() - i,
    {
        proof {
            lemme_chemin(p@, i as int);
        }
        match courant {
            Node::File { .. } => {
                return None;
            },
            Node::Directory { children, .. } => {
                proof {
                    lemme_vue_enfants(children@);
                    lemme_enfants_bien_formes(ve(*children));
                }
                match chercher(children, p[i].as_str()) {
                    Some(k) => {
                        courant = &children[k].1;
                    },
                    None => {
                        return None;
                    },
                }
            },
        }
        i = i + 1;
    }
    proof {
        assert(vue_chemin(p@).skip(i as int) =~= Seq::<Seq<char>>::empty());
    }
    Some(courant)
}

/// Sort le nœud au bout de `p[i..]`, en laissant une place vide.
pub fn prendre(n: Node, p: &Vec<String>, i: usize) -> (r: (Node, Option<Node>))
    requires
        i <= p.len(),
        bien_forme(n@),
    ensures
        bien_forme(r.0@),
        match r.1 {
            Some(x) => acces(n@, vue_chemin(p@).skip(i as int)) == Some(x@) && r.0@ == remplacer(
                n@,
                vue_chemin(p@).skip(i as int),
                vide_v(),
            ),
            None => acces(n@, vue_chemin(p@).skip(i as int)) is None && r.0@ == n@,
        },
    decreases p.len() - i,
{
    if i == p.len() {
        proof {
            assert(vue_chemin(p@).skip(i as int) =~= Seq::<Seq<char>>::empty());
        }
        return (noeud_vide(), Some(n));
    }
    proof {
        lemme_chemin(p@, i as int);
    }
    match n {
        Node::File { data, horodatage } => (Node::File { data, horodatage }, None),
        Node::Directory { mut children, horodatage } => {
            let ghost s = ve(children);
            proof {
                lemme_vue_enfants(children@);
                lemme_enfants_bien_formes(s);
            }
            match chercher(&children, p[i].as_str()) {
                None => (Node::Directory { children, horodatage }, None),
                Some(k) => {
                    let (nom, c) = children.remove(k);
                    let (c2, res) = prendre(c, p, i + 1);
                    let ghost c2v = c2@;
                    children.insert(k, (nom, c2));
                    proof {
                        lemme_vue_enfants(children@);
                        assert(ve(children) =~= s.update(k as int, (s[k as int].0, c2v)));
                        let t = ve(children);
                        assert forall|a: int, b: int| 0 <= a < b < t.len() implies lex_lt(
                            #[trigger] t[a].0,
                            #[trigger] t[b].0,
                        ) by {
                            assert(lex_lt(s[a].0, s[b].0));
                        }
                        lemme_enfants_bien_formes(t);
                        if res is None {
                            assert(t =~= s);
                        }
                    }
                    (Node::Directory { children, horodatage }, res)
                },
            }
        },
    }
}

/// Pose `v` au bout de `p[i..]` (inchangé si le chemin n'existe pas).
pub fn poser(n: Node, p: &Vec<String>, i: usize, v: Node) -> (r: Node)
    requires
        i <= p.len(),
        bien_forme(n@),
    ensures
        r@ == remplacer(n@, vue_chemin(p@).skip(i as int), v@),
        bien_forme(v@) ==> bien_forme(r@),
    decreases p.len() - i,
{
    if i == p.len() {
        proof {
            assert(vue_chemin(p@).skip(i as int) =~= Seq::<Seq<char>>::empty());
        }
        return v;
    }
    proof {
        lemme_chemin(p@, i as int);
    }
    match n {
        Node::File { data, horodatage } => Node::File { data, horodatage },
        Node::Directory { mut children, horodatage } => {
            let ghost s = ve(children);
            proof {
                lemme_vue_enfants(children@);
                lemme_enfants_bien_formes(s);
            }
            match chercher(&children, p[i].as_str()) {
                None => Node::Directory { children, horodatage },
                Some(k) => {
                    let (nom, c) = children.remove(k);
                    let c2 = poser(c, p, i + 1, v);
                    let ghost c2v = c2@;
                    children.insert(k, (nom, c2));
                    proof {
                        lemme_vue_enfants(children@);
                        assert(ve(children) =~= s.update(k as int, (s[k as int].0, c2v)));
                        let t = ve(children);
                        assert forall|a: int, b: int| 0 <= a < b < t.len() implies lex_lt(
                            #[trigger] t[a].0,
                            #[trigger] t[b].0,
                        ) by {
                            assert(lex_lt(s[a].0, s[b].0));
                        }
                        lemme_enfants_bien_formes(t);
                    }
                    Node::Directory { children, horodatage }
                },
            }
        },
    }
}

} // verus!
