use vstd::prelude::*;
use std::string::String;
use std::vec::Vec;
use crate::texte::{caracteres, chaine_de_caracteres};
use crate::fs::node::vue_chemin;

verus! {

/// Découpage d'un texte sur '/', comme `str::split('/')` (morceaux vides compris).
pub open spec fn decouper(s: Seq<char>) -> Seq<Seq<char>>
    decreases s.len(),
{
    if s.len() == 0 {
        seq![Seq::<char>::empty()]
    } else {
        let d = decouper(s.drop_last());
        if s.last() == '/' {
            d.push(Seq::empty())
        } else {
            d.update(d.len() - 1, d.last().push(s.last()))
        }
    }
}

pub proof fn lemme_decouper_non_vide(s: Seq<char>)
    ensures
        decouper(s).len() >= 1,
    decreases s.len(),
{
    if s.len() > 0 {
        lemme_decouper_non_vide(s.drop_last());
    }
}

pub open spec fn point() -> Seq<char> {
    seq!['.']
}

pub open spec fn point_point() -> Seq<char> {
    seq!['.', '.']
}

/// Un élément de chemin gardé par le nettoyage : ni vide, ni '.'.
pub open spec fn element_utile(e: Seq<char>) -> bool {
    e.len() != 0 && e != point()
}

pub open spec fn garder_utiles(d: Seq<Seq<char>>) -> Seq<Seq<char>>
    decreases d.len(),
{
    if d.len() == 0 {
        Seq::empty()
    } else if element_utile(d.last()) {
        garder_utiles(d.drop_last()).push(d.last())
    } else {
        garder_utiles(d.drop_last())
    }
}

/// Éléments d'un chemin : morceaux entre '/', sans les vides ni les '.'.
pub open spec fn nettoyer(s: Seq<char>) -> Seq<Seq<char>> {
    garder_utiles(decouper(s))
}

pub open spec fn non_vides(d: Seq<Seq<char>>) -> Seq<Seq<char>>
    decreases d.len(),
{
    if d.len() == 0 {
        Seq::empty()
    } else if d.last().len() != 0 {
        non_vides(d.drop_last()).push(d.last())
    } else {
        non_vides(d.drop_last())
    }
}

/// Morceaux non vides d'un chemin (les '.' sont gardés).
pub open spec fn parties(s: Seq<char>) -> Seq<Seq<char>> {
    non_vides(decouper(s))
}

/// Découpe `s` sur '/' en gardant les morceaux non vides (et, si `sans_point`, autres que '.').
pub fn decouper_chemin(s: &str, sans_point: bool) -> (r: Vec<String>)
    ensures
        sans_point ==> vue_chemin(r@) == nettoyer(s@),
        !sans_point ==> vue_chemin(r@) == parties(s@),
{
    let cs = caracteres(s);
    let mut r: Vec<String> = Vec::new();
    let mut courant: Vec<char> = Vec::new();
    let mut i: usize = 0;
    proof {
        assert(s@.take(0) =~= Seq::<char>::empty());
    }
    while i < cs.len()
        invariant
            i <= cs.len(),
            cs@ == s@,
            decouper(s@.take(i as int)).len() >= 1,
            decouper(s@.take(i as int)).last() == courant@,
            sans_point ==> vue_chemin(r@) == garder_utiles(decouper(s@.take(i as int)).drop_last()),
            !sans_point ==> vue_chemin(r@) == non_vides(decouper(s@.take(i as int)).drop_last()),
        decreases cs.len() - i,
    {
        let c = cs[i];
        let ghost d = decouper(s@.take(i as int));
        proof {
            assert(s@.take(i + 1).drop_last() =~= s@.take(i as int));
            assert(s@.take(i + 1).last() == c);
        }
        if c == '/' {
            let garder = if sans_point {
                courant.len() != 0 && !(courant.len() == 1 && courant[0] == '.')
            } else {
                courant.len() != 0
            };
            proof {
                assert(courant@ == point() ==> courant@.len() == 1 && courant@[0] == '.');
                assert(courant@.len() == 1 && courant@[0] == '.' ==> courant@ =~= point());
                let d2 = decouper(s@.take(i + 1));
                assert(d2 == d.push(Seq::empty()));
                assert(d2.drop_last() =~= d);
                assert(d.drop_last().push(d.last()) =~= d);
            }
            if garder {
                let ghost avant = vue_chemin(r@);
                r.push(chaine_de_caracteres(&courant));
                proof {
                    assert(vue_chemin(r@) =~= avant.push(courant@));
                }
            }
            courant = Vec::new();
        } else {
            courant.push(c);
            proof {
                let d2 = decouper(s@.take(i + 1));
                assert(d2 == d.update(d.len() - 1, d.last().push(c)));
                assert(d2.drop_last() =~= d.drop_last());
            }
        }
        i = i + 1;
    }
    proof {
        assert(s@.take(i as int) =~= s@);
        let d = decouper(s@);
        assert(d.drop_last().push(d.last()) =~= d);
        assert(courant@ == point() ==> courant@.len() == 1 && courant@[0] == '.');
        assert(courant@.len() == 1 && courant@[0] == '.' ==> courant@ =~= point());
    }
    let garder = if sans_point {
        courant.len() != 0 && !(courant.len() == 1 && courant[0] == '.')
    } else {
        courant.len() != 0
    };
    if garder {
        let ghost avant = vue_chemin(r@);
        r.push(chaine_de_caracteres(&courant));
        proof {
            assert(vue_chemin(r@) =~= avant.push(courant@));
        }
    }
    r
}

/// Éléments d'un chemin brut : les '/' multiples et les '.' disparaissent, les '..' restent.
pub fn nettoyer_chemin(chemin: &str) -> (r: Vec<String>)
    ensures
        vue_chemin(r@) == nettoyer(chemin@),
{
    decouper_chemin(chemin, true)
}

/// Un chemin est absolu s'il commence par '/'.
pub fn est_absolu(chemin: &str) -> (r: bool)
    ensures
        r == (chemin@.len() > 0 && chemin@[0] == '/'),
{
    chemin.unicode_len() > 0 && chemin.get_char(0) == '/'
}

} // verus!
