use vstd::prelude::*;
use std::string::String;
use std::vec::Vec;
use crate::texte::{lignes, lignes_v, vers_chaine, vue_mots};

verus! {

/// Lignes affichées par page (l'invite occupe le bas d'un écran de 25 lignes).
pub const HAUTEUR_PAGE: usize = 22;

/// Affichage page par page d'un texte.
pub struct Pager {
    lignes: Vec<String>,
    courante: usize,
}

/// Modèle : les lignes du texte et le nombre de lignes déjà affichées.
pub struct VuePager {
    pub lignes: Seq<Seq<char>>,
    pub courante: nat,
}

impl View for Pager {
    type V = VuePager;

    closed spec fn view(&self) -> VuePager {
        VuePager { lignes: vue_mots(self.lignes@), courante: self.courante as nat }
    }
}

/// Réponse du pager à une touche pressée pendant l'invite.
pub enum ActionPager {
    /// Touche relâchée ou sans effet : attendre une autre touche.
    Ignorer,
    /// Espace : sauter une ligne puis afficher la page suivante.
    Page,
    /// Entrée : sauter une ligne, afficher la ligne suivante s'il y en a une ; réafficher l'invite
    /// si le texte n'est pas fini.
    Ligne(Option<String>, bool),
    /// Q : sauter une ligne et quitter.
    Quitter,
}

pub open spec fn min(a: nat, b: nat) -> nat {
    if a <= b {
        a
    } else {
        b
    }
}

impl Pager {
    /// Pager au début du texte.
    pub fn afficher_avec_pagination(texte: &str) -> (r: Self)
        ensures
            r@ == (VuePager { lignes: lignes_v(texte@), courante: 0 }),
    {
        Pager { lignes: lignes(texte), courante: 0 }
    }

    /// Il reste des lignes à afficher.
    pub fn a_suivre(&self) -> (r: bool)
        ensures
            r == (self@.courante < self@.lignes.len()),
    {
        self.courante < self.lignes.len()
    }

    /// Lignes de la page suivante (22 au plus).
    pub fn page_suivante(&mut self) -> (r: Vec<String>)
        requires
            old(self)@.courante <= old(self)@.lignes.len(),
        ensures
            final(self)@.lignes == old(self)@.lignes,
            final(self)@.courante == min((old(self)@.courante + HAUTEUR_PAGE) as nat, old(self)@.lignes.len()),
            vue_mots(r@) == old(self)@.lignes.subrange(old(self)@.courante as int, final(self)@.courante as int),
    {
        let n = self.lignes.len();
        let fin = if n - self.courante < HAUTEUR_PAGE {
            n
        } else {
            self.courante + HAUTEUR_PAGE
        };
        let mut r: Vec<String> = Vec::new();
        let mut i = self.courante;
        while i < fin
            invariant
                self.courante <= i <= fin <= n,
                n == self.lignes@.len(),
                vue_mots(r@) == vue_mots(self.lignes@).subrange(self.courante as int, i as int),
            decreases fin - i,
        {
            let ghost avant = r@;
            let l = vers_chaine(self.lignes[i].as_str());
            let ghost lv = l@;
            r.push(l);
            proof {
                assert(vue_mots(r@) =~= vue_mots(avant).push(lv));
                assert(vue_mots(self.lignes@)[i as int] == self.lignes@[i as int]@);
            }
            i = i + 1;
            assert(vue_mots(r@) =~= vue_mots(self.lignes@).subrange(self.courante as int, i as int));
        }
        self.courante = fin;
        r
    }

    /// Réponse à une touche (code de balayage) pendant l'invite.
    pub fn touche(&mut self, scancode: u8) -> (r: ActionPager)
        requires
            old(self)@.courante <= old(self)@.lignes.len(),
        ensures
            final(self)@.lignes == old(self)@.lignes,
            final(self)@.courante <= final(self)@.lignes.len(),
            scancode >= 0x80 ==> r is Ignorer && final(self)@ == old(self)@,
            scancode == 0x39 ==> r is Page && final(self)@ == old(self)@,
            scancode == 0x10 ==> r is Quitter && final(self)@ == old(self)@,
            scancode == 0x1C ==> {
                let c = old(self)@.courante;
                let n = old(self)@.lignes.len();
                &&& final(self)@.courante == if c < n { c + 1 } else { c }
                &&& r matches ActionPager::Ligne(l, encore) && encore == (final(self)@.courante < n)
                    && match l {
                    Some(s) => c < n && s@ == old(self)@.lignes[c as int],
                    None => c >= n,
                }
            },
            scancode < 0x80 && scancode != 0x39 && scancode != 0x10 && scancode != 0x1C ==> r is Ignorer
                && final(self)@ == old(self)@,
    {
        if scancode & 0x80 != 0 {
            assert(scancode & 0x80 != 0 <==> scancode >= 0x80) by (bit_vector);
            return ActionPager::Ignorer;
        }
        assert(scancode & 0x80 != 0 <==> scancode >= 0x80) by (bit_vector);
        if scancode == 0x39 {
            ActionPager::Page
        } else if scancode == 0x1C {
            let l = if self.courante < self.lignes.len() {
                let s = vers_chaine(self.lignes[self.courante].as_str());
                proof {
                    assert(vue_mots(self.lignes@)[self.courante as int] == self.lignes@[self.courante as int]@);
                }
                self.courante = self.courante + 1;
                Some(s)
            } else {
                None
            };
            let encore = self.courante < self.lignes.len();
            ActionPager::Ligne(l, encore)
        } else if scancode == 0x10 {
            ActionPager::Quitter
        } else {
            ActionPager::Ignorer
        }
    }
}

/// En ne pressant qu'Espace, les pages successives donnent toutes les lignes, dans l'ordre : la
/// page suivante reprend là où la précédente s'est arrêtée.
pub proof fn loi_pages_contigues(l: Seq<Seq<char>>, c: nat)
    requires
        c <= l.len(),
    ensures
        l.subrange(0, c as int) + l.subrange(c as int, min((c + HAUTEUR_PAGE) as nat, l.len()) as int) == l.subrange(
            0,
            min((c + HAUTEUR_PAGE) as nat, l.len()) as int,
        ),
{
    assert(l.subrange(0, c as int) + l.subrange(c as int, min((c + HAUTEUR_PAGE) as nat, l.len()) as int) =~= l.subrange(
        0,
        min((c + HAUTEUR_PAGE) as nat, l.len()) as int,
    ));
}

} // verus!
