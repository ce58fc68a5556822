use vstd::prelude::*;
use std::vec::Vec;
use crate::fs::{FileSystem, VueFs, dossier_a, ecrire_v, lire_v, sync_si};
use crate::fs::node::Horodatage;
use crate::texte::{rogner, rogner_v, texte_utf8};
use crate::commandes::edt::affichage::HAUTEUR_EDIT;
use vstd::string::StringSliceAdditionalSpecFns;

verus! {

/// Octet de fin de ligne.
pub const NL: u8 = 10;

/// Touches que l'éditeur distingue.
#[derive(Debug, Clone, Copy, PartialEq, Eq, Structural)]
pub enum Touche {
    Unicode(char),
    Echap,
    F2,
    F3,
    F4,
    F5,
    F6,
    Suppr,
    Haut,
    Bas,
    Gauche,
    Droite,
    Autre,
}

/// Suite à donner à une touche.
#[derive(Debug, Clone, Copy, PartialEq, Eq, Structural)]
pub enum ActionEditeur {
    /// Rien à afficher.
    Aucune,
    /// L'écran de l'éditeur est à redessiner.
    Redessiner,
    /// Le fichier a été enregistré dans le VFS (à persister) ; l'écran est à redessiner.
    Sauvegarde,
    /// L'éditeur se ferme : l'écran est à effacer et l'invite du shell à réafficher.
    Quitter,
}

/// Éditeur de texte plein écran.
pub struct Editeur {
    pub tampon: Vec<u8>,
    pub curseur_pos: usize,
    pub taille_texte: usize,
    pub ligne_debut: usize,
    pub option_l: bool,
    pub nom_fichier: [u8; 64],
    pub taille_nom: usize,
    pub actif: bool,
    pub presse_papier: Vec<u8>,
    pub selection_debut: Option<usize>,
    pub sauvegarde_flash: bool,
}

/// Modèle de l'éditeur.
pub struct EtatEditeur {
    pub tampon: Seq<u8>,
    pub curseur: nat,
    pub ligne_debut: nat,
    pub option_l: bool,
    pub nom: Seq<u8>,
    pub actif: bool,
    pub presse_papier: Seq<u8>,
    pub selection: Option<nat>,
    pub flash: bool,
}

impl View for Editeur {
    type V = EtatEditeur;

    open spec fn view(&self) -> EtatEditeur {
        EtatEditeur {
            tampon: self.tampon@,
            curseur: self.curseur_pos as nat,
            ligne_debut: self.ligne_debut as nat,
            option_l: self.option_l,
            nom: self.nom_fichier@.take(self.taille_nom as int),
            actif: self.actif,
            presse_papier: self.presse_papier@,
            selection: match self.selection_debut {
                Some(d) => Some(d as nat),
                None => None,
            },
            flash: self.sauvegarde_flash,
        }
    }
}

// ---------------------------------------------------------------------------
// Lignes du texte
// ---------------------------------------------------------------------------

/// Début de la ligne qui contient la position `p` : juste après le dernier saut de ligne avant `p`.
pub open spec fn debut_ligne(t: Seq<u8>, p: int) -> int
    decreases p,
{
    if p <= 0 {
        0
    } else if t[p - 1] == NL {
        p
    } else {
        debut_ligne(t, p - 1)
    }
}

/// Fin de la ligne qui contient la position `p` : le premier saut de ligne à partir de `p`, ou la fin.
pub open spec fn fin_ligne(t: Seq<u8>, p: int) -> int
    decreases t.len() - p,
{
    if p >= t.len() {
        t.len() as int
    } else if t[p] == NL {
        p
    } else {
        fin_ligne(t, p + 1)
    }
}

/// Nombre de sauts de ligne avant la position `p`.
pub open spec fn nb_lignes(t: Seq<u8>, p: int) -> nat
    decreases p,
{
    if p <= 0 {
        0
    } else {
        nb_lignes(t, p - 1) + if t[p - 1] == NL {
            1nat
        } else {
            0nat
        }
    }
}

pub open spec fn min_nat(a: int, b: int) -> int {
    if a <= b {
        a
    } else {
        b
    }
}

// ---------------------------------------------------------------------------
// Effet des commandes sur le modèle
// ---------------------------------------------------------------------------

/// Cohérence : taille du texte, curseur dans le texte, nom d'au plus 64 octets.
pub open spec fn bien_forme(e: &Editeur) -> bool {
    &&& e.taille_texte == e.tampon@.len()
    &&& e.curseur_pos <= e.taille_texte
    &&& e.taille_nom <= 64
}

/// Premier numéro de ligne affiché tel que la ligne du curseur soit dans la zone d'édition.
pub open spec fn defilement(ligne_debut: nat, ligne_curseur: nat) -> nat {
    if ligne_curseur < ligne_debut {
        ligne_curseur
    } else if ligne_curseur >= ligne_debut + HAUTEUR_EDIT {
        (ligne_curseur - HAUTEUR_EDIT + 1) as nat
    } else {
        ligne_debut
    }
}

pub open spec fn defiler_v(e: EtatEditeur) -> EtatEditeur {
    let p = min_nat(e.curseur as int, e.tampon.len() as int);
    EtatEditeur { ligne_debut: defilement(e.ligne_debut, nb_lignes(e.tampon, p)), ..e }
}

/// Caractères inserables : saut de ligne et ASCII imprimable.
pub open spec fn inserable(c: char) -> bool {
    c == '\n' || (' ' <= c && c <= '~')
}

pub open spec fn inserer_v(e: EtatEditeur, c: char) -> EtatEditeur {
    if inserable(c) && e.curseur <= e.tampon.len() {
        EtatEditeur {
            tampon: e.tampon.insert(e.curseur as int, c as u8),
            curseur: e.curseur + 1,
            ..e
        }
    } else {
        e
    }
}

pub open spec fn supprimer_v(e: EtatEditeur) -> EtatEditeur {
    if e.curseur > 0 && e.tampon.len() > 0 {
        EtatEditeur {
            tampon: e.tampon.remove(e.curseur - 1),
            curseur: (e.curseur - 1) as nat,
            ..e
        }
    } else {
        e
    }
}

pub open spec fn supprimer_droit_v(e: EtatEditeur) -> EtatEditeur {
    if e.curseur < e.tampon.len() {
        defiler_v(EtatEditeur { tampon: e.tampon.remove(e.curseur as int), ..e })
    } else {
        e
    }
}

/// Position du curseur après un déplacement horizontal `dx` puis vertical `dy`. Verticalement, le
/// curseur garde sa colonne, ramenée à la longueur de la ligne d'arrivée.
pub open spec fn curseur_apres(t: Seq<u8>, cur: int, dx: int, dy: int) -> int {
    vertical(t, horizontal(t, cur, dx), dy)
}

/// Pas horizontal : d'un caractère à gauche (`dx` = -1) ou à droite (`dx` = 1), dans le texte.
pub open spec fn horizontal(t: Seq<u8>, cur: int, dx: int) -> int {
    if dx == -1 && cur > 0 {
        cur - 1
    } else if dx == 1 && cur < t.len() {
        cur + 1
    } else {
        cur
    }
}

/// Pas vertical : à la ligne précédente (`dy` = -1) ou suivante (`dy` = 1) s'il y en a une, à la
/// même colonne ramenée à la longueur de cette ligne.
pub open spec fn vertical(t: Seq<u8>, c1: int, dy: int) -> int {
    let d = debut_ligne(t, c1);
    let x = c1 - d;
    if dy == -1 {
        if d > 0 {
            let dp = debut_ligne(t, d - 1);
            dp + min_nat(x, d - 1 - dp)
        } else {
            c1
        }
    } else if dy == 1 {
        let f = fin_ligne(t, c1);
        if f < t.len() {
            let fs = fin_ligne(t, f + 1);
            f + 1 + min_nat(x, fs - (f + 1))
        } else {
            c1
        }
    } else {
        c1
    }
}

pub open spec fn deplacer_v(e: EtatEditeur, dx: int, dy: int) -> EtatEditeur {
    defiler_v(EtatEditeur { curseur: curseur_apres(e.tampon, e.curseur as int, dx, dy) as nat, ..e })
}

pub open spec fn basculer_v(e: EtatEditeur) -> EtatEditeur {
    EtatEditeur {
        selection: if e.selection is Some {
            None
        } else {
            Some(e.curseur)
        },
        ..e
    }
}

/// Bornes de la sélection : du plus petit au plus grand de l'ancre et du curseur.
pub open spec fn bornes(d: nat, cur: nat) -> (nat, nat) {
    if d < cur {
        (d, cur)
    } else {
        (cur, d)
    }
}

/// Fin de la ligne du curseur, saut de ligne compris.
pub open spec fn fin_avec_saut(t: Seq<u8>, cur: int) -> int {
    let f = fin_ligne(t, cur);
    if f < t.len() {
        f + 1
    } else {
        f
    }
}

pub open spec fn copier_v(e: EtatEditeur) -> EtatEditeur {
    match e.selection {
        Some(d) => {
            let (a, b) = bornes(d, e.curseur);
            EtatEditeur { presse_papier: e.tampon.subrange(a as int, b as int), selection: None, ..e }
        },
        None => EtatEditeur {
            presse_papier: e.tampon.subrange(
                debut_ligne(e.tampon, e.curseur as int),
                fin_avec_saut(e.tampon, e.curseur as int),
            ),
            ..e
        },
    }
}

pub open spec fn couper_v(e: EtatEditeur) -> EtatEditeur {
    match e.selection {
        Some(d) => {
            let (a, b) = bornes(d, e.curseur);
            defiler_v(
                EtatEditeur {
                    tampon: e.tampon.take(a as int) + e.tampon.skip(b as int),
                    curseur: a,
                    presse_papier: e.tampon.subrange(a as int, b as int),
                    selection: None,
                    ..e
                },
            )
        },
        None => {
            let a = debut_ligne(e.tampon, e.curseur as int);
            let b = fin_avec_saut(e.tampon, e.curseur as int);
            defiler_v(
                EtatEditeur {
                    tampon: e.tampon.take(a) + e.tampon.skip(b),
                    curseur: a as nat,
                    presse_papier: e.tampon.subrange(a, b),
                    ..e
                },
            )
        },
    }
}

pub open spec fn coller_v(e: EtatEditeur) -> EtatEditeur {
    if e.presse_papier.len() == 0 {
        e
    } else {
        defiler_v(
            EtatEditeur {
                tampon: e.tampon.take(e.curseur as int) + e.presse_papier + e.tampon.skip(
                    e.curseur as int,
                ),
                curseur: e.curseur + e.presse_papier.len(),
                ..e
            },
        )
    }
}

/// Nom par défaut d'un texte sans nom, "script.sh".
pub open spec fn nom_par_defaut() -> Seq<u8> {
    seq![115u8, 99u8, 114u8, 105u8, 112u8, 116u8, 46u8, 115u8, 104u8]
}

/// Enregistrement : le texte est écrit dans le VFS sous son nom (ou "script.sh" s'il n'en a pas),
/// si ce nom est de l'UTF-8 valide. Rend l'état, le VFS et si l'écriture a eu lieu.
pub open spec fn enregistrer_v(e: EtatEditeur, fs: VueFs, h: Horodatage) -> (EtatEditeur, VueFs, bool) {
    let nom = if e.nom.len() == 0 {
        nom_par_defaut()
    } else {
        e.nom
    };
    let e1 = EtatEditeur { nom: nom, ..e };
    if vstd::utf8::valid_utf8(nom) {
        (
            EtatEditeur { flash: true, ..e1 },
            ecrire_v(fs, vstd::utf8::decode_utf8(nom), e.tampon, h),
            true,
        )
    } else {
        (e1, fs, false)
    }
}

/// L'enregistrement écrit bien le fichier : son nom (celui par défaut s'il n'en a pas) est du
/// texte, et le répertoire courant existe.
pub open spec fn enregistre_fichier(e: EtatEditeur, fs: VueFs) -> bool {
    let nom = if e.nom.len() == 0 {
        nom_par_defaut()
    } else {
        e.nom
    };
    vstd::utf8::valid_utf8(nom) && dossier_a(fs.racine, fs.cwd) is Some
}

/// Ouverture d'un fichier : le nom est débarrassé de ses blancs ; un nom vide ouvre un texte vide
/// sans nom ; sinon le nom garde ses 64 premiers octets et le texte est le fichier du répertoire
/// courant s'il existe (curseur à la fin), vide sinon.
pub open spec fn lancer_v(e: EtatEditeur, option_l: bool, nom: Seq<char>, fs: VueFs) -> EtatEditeur {
    let n = rogner_v(nom);
    let octets = vstd::utf8::encode_utf8(n);
    let base = EtatEditeur {
        option_l: option_l,
        curseur: 0,
        ligne_debut: 0,
        actif: true,
        selection: None,
        flash: false,
        ..e
    };
    if n.len() == 0 {
        defiler_v(EtatEditeur { nom: Seq::empty(), tampon: Seq::empty(), ..base })
    } else {
        let nom_garde = octets.take(min_nat(octets.len() as int, 64));
        match lire_v(fs, n) {
            Some(d) => defiler_v(EtatEditeur { nom: nom_garde, tampon: d, curseur: d.len(), ..base }),
            None => defiler_v(EtatEditeur { nom: nom_garde, tampon: Seq::empty(), ..base }),
        }
    }
}

/// Effet d'une touche : l'état, le VFS et la suite à donner.
pub open spec fn touche_v(e: EtatEditeur, t: Touche, fs: VueFs, h: Horodatage) -> (EtatEditeur, VueFs, ActionEditeur) {
    let e0 = EtatEditeur { flash: false, ..e };
    match t {
        Touche::Echap => (EtatEditeur { actif: false, ..e0 }, fs, ActionEditeur::Quitter),
        Touche::Unicode(c) => if c == '\u{1b}' {
            (EtatEditeur { actif: false, ..e0 }, fs, ActionEditeur::Quitter)
        } else if c == '\u{7f}' {
            (
                defiler_v(supprimer_droit_v(e0)),
                fs,
                if e0.curseur < e0.tampon.len() {
                    ActionEditeur::Redessiner
                } else {
                    ActionEditeur::Aucune
                },
            )
        } else if c == '\u{8}' {
            (defiler_v(supprimer_v(e0)), fs, ActionEditeur::Redessiner)
        } else {
            (defiler_v(inserer_v(e0, c)), fs, ActionEditeur::Redessiner)
        },
        Touche::F2 => {
            let (e1, fs1, ecrit) = enregistrer_v(e0, fs, h);
            (e1, fs1, if ecrit {
                ActionEditeur::Sauvegarde
            } else {
                ActionEditeur::Redessiner
            })
        },
        Touche::F3 => (defiler_v(copier_v(e0)), fs, ActionEditeur::Aucune),
        Touche::F4 => (defiler_v(couper_v(e0)), fs, ActionEditeur::Redessiner),
        Touche::F5 => (
            defiler_v(coller_v(e0)),
            fs,
            if e0.presse_papier.len() == 0 {
                ActionEditeur::Aucune
            } else {
                ActionEditeur::Redessiner
            },
        ),
        Touche::F6 => (defiler_v(basculer_v(e0)), fs, ActionEditeur::Redessiner),
        Touche::Suppr => (
            defiler_v(supprimer_droit_v(e0)),
            fs,
            if e0.curseur < e0.tampon.len() {
                ActionEditeur::Redessiner
            } else {
                ActionEditeur::Aucune
            },
        ),
        Touche::Haut => (defiler_v(deplacer_v(e0, 0, -1)), fs, ActionEditeur::Redessiner),
        Touche::Bas => (defiler_v(deplacer_v(e0, 0, 1)), fs, ActionEditeur::Redessiner),
        Touche::Gauche => (defiler_v(deplacer_v(e0, -1, 0)), fs, ActionEditeur::Redessiner),
        Touche::Droite => (defiler_v(deplacer_v(e0, 1, 0)), fs, ActionEditeur::Redessiner),
        Touche::Autre => (defiler_v(e0), fs, ActionEditeur::Aucune),
    }
}

/// La sélection, s'il y en a une, est dans le texte.
pub open spec fn selection_valide(e: EtatEditeur) -> bool {
    e.selection matches Some(d) ==> d <= e.tampon.len()
}

// ---------------------------------------------------------------------------
// Lemmes sur les lignes
// ---------------------------------------------------------------------------

pub proof fn lemme_debut_ligne(t: Seq<u8>, p: int)
    requires
        0 <= p <= t.len(),
    ensures
        0 <= debut_ligne(t, p) <= p,
        debut_ligne(t, p) > 0 ==> t[debut_ligne(t, p) - 1] == NL,
        forall|k: int| debut_ligne(t, p) <= k < p ==> t[k] != NL,
    decreases p,
{
    if p > 0 && t[p - 1] != NL {
        lemme_debut_ligne(t, p - 1);
    }
}

pub proof fn lemme_fin_ligne(t: Seq<u8>, p: int)
    requires
        0 <= p <= t.len(),
    ensures
        p <= fin_ligne(t, p) <= t.len(),
        fin_ligne(t, p) < t.len() ==> t[fin_ligne(t, p)] == NL,
        forall|k: int| p <= k < fin_ligne(t, p) ==> t[k] != NL,
    decreases t.len() - p,
{
    if p < t.len() && t[p] != NL {
        lemme_fin_ligne(t, p + 1);
    }
}

proof fn lemme_vertical(t: Seq<u8>, c1: int, dy: int)
    requires
        0 <= c1 <= t.len(),
    ensures
        0 <= vertical(t, c1, dy) <= t.len(),
{
    lemme_debut_ligne(t, c1);
    let d = debut_ligne(t, c1);
    if d > 0 {
        lemme_debut_ligne(t, d - 1);
    }
    lemme_fin_ligne(t, c1);
    let f = fin_ligne(t, c1);
    if f < t.len() {
        lemme_fin_ligne(t, f + 1);
    }
}

proof fn lemme_curseur_apres(t: Seq<u8>, cur: int, dx: int, dy: int)
    requires
        0 <= cur <= t.len(),
    ensures
        0 <= curseur_apres(t, cur, dx, dy) <= t.len(),
{
    lemme_vertical(t, horizontal(t, cur, dx), dy);
}

// ---------------------------------------------------------------------------
// Parcours exécutables des lignes
// ---------------------------------------------------------------------------

pub(crate) fn debut_ligne_x(t: &Vec<u8>, p: usize) -> (r: usize)
    requires
        p <= t@.len(),
    ensures
        r == debut_ligne(t@, p as int),
{
    let mut i = p;
    while i > 0 && t[i - 1] != NL
        invariant
            i <= p <= t@.len(),
            debut_ligne(t@, i as int) == debut_ligne(t@, p as int),
        decreases i,
    {
        i = i - 1;
    }
    i
}

fn fin_ligne_x(t: &Vec<u8>, p: usize) -> (r: usize)
    requires
        p <= t@.len(),
    ensures
        r == fin_ligne(t@, p as int),
{
    let mut i = p;
    while i < t.len() && t[i] != NL
        invariant
            p <= i <= t@.len(),
            fin_ligne(t@, i as int) == fin_ligne(t@, p as int),
        decreases t@.len() - i,
    {
        i = i + 1;
    }
    i
}

pub(crate) fn nb_lignes_x(t: &Vec<u8>, p: usize) -> (r: usize)
    requires
        p <= t@.len(),
    ensures
        r == nb_lignes(t@, p as int),
        r <= p,
{
    let mut n: usize = 0;
    let mut i: usize = 0;
    while i < p
        invariant
            i <= p <= t@.len(),
            n == nb_lignes(t@, i as int),
            n <= i,
        decreases p - i,
    {
        if t[i] == NL {
            n = n + 1;
        }
        i = i + 1;
    }
    n
}

/// Copie de `t[a..b]`.
fn tranche(t: &Vec<u8>, a: usize, b: usize) -> (r: Vec<u8>)
    requires
        a <= b <= t@.len(),
    ensures
        r@ == t@.subrange(a as int, b as int),
{
    crate::octets::extraire(t.as_slice(), a, b)
}

/// `t[..a]` suivi de `t[b..]`.
fn sans_plage(t: &Vec<u8>, a: usize, b: usize) -> (r: Vec<u8>)
    requires
        a <= b <= t@.len(),
    ensures
        r@ == t@.take(a as int) + t@.skip(b as int),
{
    let mut r = crate::octets::extraire(t.as_slice(), 0, a);
    let fin = crate::octets::extraire(t.as_slice(), b, t.len());
    crate::octets::etendre(&mut r, fin.as_slice());
    assert(t@.subrange(0, a as int) =~= t@.take(a as int));
    assert(t@.subrange(b as int, t@.len() as int) =~= t@.skip(b as int));
    r
}

/// Position après un pas vertical.
fn pas_vertical(t: &Vec<u8>, c1: usize, dy: isize) -> (r: usize)
    requires
        c1 <= t@.len(),
        dy != 0,
    ensures
        r == vertical(t@, c1 as int, dy as int),
        r <= t@.len(),
{
    proof {
        lemme_vertical(t@, c1 as int, dy as int);
        lemme_debut_ligne(t@, c1 as int);
    }
    let debut = debut_ligne_x(t, c1);
    let x_actuel = c1 - debut;
    if dy == -1 {
        if debut > 0 {
            let fin_prec = debut - 1;
            let debut_prec = debut_ligne_x(t, fin_prec);
            proof {
                lemme_debut_ligne(t@, fin_prec as int);
            }
            let taille_prec = fin_prec - debut_prec;
            let cible_x = if x_actuel < taille_prec {
                x_actuel
            } else {
                taille_prec
            };
            debut_prec + cible_x
        } else {
            c1
        }
    } else if dy == 1 {
        let fin = fin_ligne_x(t, c1);
        proof {
            lemme_fin_ligne(t@, c1 as int);
        }
        if fin < t.len() {
            let debut_suiv = fin + 1;
            let fin_suiv = fin_ligne_x(t, debut_suiv);
            proof {
                lemme_fin_ligne(t@, debut_suiv as int);
            }
            let taille_suiv = fin_suiv - debut_suiv;
            let cible_x = if x_actuel < taille_suiv {
                x_actuel
            } else {
                taille_suiv
            };
            debut_suiv + cible_x
        } else {
            c1
        }
    } else {
        c1
    }
}

impl Editeur {
    /// Éditeur inactif, sans texte ni nom.
    pub fn new() -> (r: Self)
        ensures
            bien_forme(&r),
            r@.tampon == Seq::<u8>::empty(),
            r@.curseur == 0,
            r@.ligne_debut == 0,
            !r@.option_l,
            r@.nom == Seq::<u8>::empty(),
            !r@.actif,
            r@.presse_papier == Seq::<u8>::empty(),
            r@.selection is None,
            !r@.flash,
    {
        let r = Editeur {
            tampon: Vec::new(),
            curseur_pos: 0,
            taille_texte: 0,
            ligne_debut: 0,
            option_l: false,
            nom_fichier: [0u8; 64],
            taille_nom: 0,
            actif: false,
            presse_papier: Vec::new(),
            selection_debut: None,
            sauvegarde_flash: false,
        };
        assert(r@.nom =~= Seq::<u8>::empty());
        r
    }

    pub fn est_actif(&self) -> (r: bool)
        ensures
            r == self@.actif,
    {
        self.actif
    }

    /// Ramène le premier numéro de ligne affiché de sorte que la ligne du curseur soit visible.
    pub fn ajuster_defilement(&mut self)
        requires
            bien_forme(old(self)),
        ensures
            bien_forme(final(self)),
            final(self)@ == defiler_v(old(self)@),
            final(self).taille_texte == old(self).taille_texte,
            final(self).taille_nom == old(self).taille_nom,
            final(self).nom_fichier == old(self).nom_fichier,
    {
        let limite = if self.curseur_pos < self.tampon.len() {
            self.curseur_pos
        } else {
            self.tampon.len()
        };
        let ligne_curseur = nb_lignes_x(&self.tampon, limite);
        if ligne_curseur < self.ligne_debut {
            self.ligne_debut = ligne_curseur;
        } else if ligne_curseur >= HAUTEUR_EDIT && ligne_curseur - HAUTEUR_EDIT >= self.ligne_debut {
            self.ligne_debut = ligne_curseur - HAUTEUR_EDIT + 1;
        }
    }

    /// Insère un caractère (saut de ligne ou ASCII imprimable) au curseur ; les autres sont ignorés.
    pub fn inserer_caractere(&mut self, c: char)
        requires
            bien_forme(old(self)),
        ensures
            bien_forme(final(self)),
            final(self)@ == inserer_v(old(self)@, c),
    {
        if c == '\n' || (c >= ' ' && c <= '~') {
            if self.curseur_pos <= self.tampon.len() {
                let octet = (c as u32) as u8;
                self.tampon.insert(self.curseur_pos, octet);
                self.taille_texte = self.tampon.len();
                self.curseur_pos = self.curseur_pos + 1;
            }
        }
    }

    /// Efface le caractère avant le curseur.
    pub fn supprimer_caractere(&mut self)
        requires
            bien_forme(old(self)),
        ensures
            bien_forme(final(self)),
            final(self)@ == supprimer_v(old(self)@),
    {
        if self.curseur_pos > 0 && self.tampon.len() > 0 {
            self.curseur_pos = self.curseur_pos - 1;
            self.tampon.remove(self.curseur_pos);
            self.taille_texte = self.taille_texte - 1;
        }
    }

    /// Efface le caractère sous le curseur.
    pub fn supprimer_caractere_droit(&mut self)
        requires
            bien_forme(old(self)),
        ensures
            bien_forme(final(self)),
            final(self)@ == supprimer_droit_v(old(self)@),
    {
        if self.curseur_pos < self.taille_texte {
            self.tampon.remove(self.curseur_pos);
            self.taille_texte = self.taille_texte - 1;
            self.ajuster_defilement();
        }
    }

    /// Déplace le curseur d'un caractère (`dx` de -1 ou 1) puis d'une ligne (`dy` de -1 ou 1).
    pub fn deplacer_curseur(&mut self, dx: isize, dy: isize)
        requires
            bien_forme(old(self)),
        ensures
            bien_forme(final(self)),
            final(self)@ == deplacer_v(old(self)@, dx as int, dy as int),
    {
        if dx == -1 && self.curseur_pos > 0 {
            self.curseur_pos = self.curseur_pos - 1;
        } else if dx == 1 && self.curseur_pos < self.taille_texte {
            self.curseur_pos = self.curseur_pos + 1;
        }
        if dy != 0 {
            self.curseur_pos = pas_vertical(&self.tampon, self.curseur_pos, dy);
        }
        self.ajuster_defilement();
    }

    /// Début et fin de la ligne du curseur.
    fn obtenir_limites_ligne(&self) -> (r: (usize, usize))
        requires
            bien_forme(self),
        ensures
            r.0 == debut_ligne(self@.tampon, self@.curseur as int),
            r.1 == fin_ligne(self@.tampon, self@.curseur as int),
    {
        (debut_ligne_x(&self.tampon, self.curseur_pos), fin_ligne_x(&self.tampon, self.curseur_pos))
    }

    /// Pose l'ancre de sélection au curseur, ou l'enlève si elle est posée.
    pub fn basculer_selection(&mut self)
        requires
            bien_forme(old(self)),
        ensures
            bien_forme(final(self)),
            final(self)@ == basculer_v(old(self)@),
    {
        if self.selection_debut.is_some() {
            self.selection_debut = None;
        } else {
            self.selection_debut = Some(self.curseur_pos);
        }
    }

    /// Copie la sélection (et l'enlève) ou, sans sélection, la ligne du curseur avec son saut de ligne.
    pub fn copier_selection_ou_ligne(&mut self)
        requires
            bien_forme(old(self)),
            selection_valide(old(self)@),
        ensures
            bien_forme(final(self)),
            final(self)@ == copier_v(old(self)@),
    {
        match self.selection_debut {
            Some(debut) => {
                let (a, b) = if debut < self.curseur_pos {
                    (debut, self.curseur_pos)
                } else {
                    (self.curseur_pos, debut)
                };
                self.presse_papier = tranche(&self.tampon, a, b);
                self.selection_debut = None;
            },
            None => {
                let (debut, fin) = self.obtenir_limites_ligne();
                proof {
                    lemme_debut_ligne(self.tampon@, self.curseur_pos as int);
                    lemme_fin_ligne(self.tampon@, self.curseur_pos as int);
                }
                let fin_copie = if fin < self.taille_texte {
                    fin + 1
                } else {
                    fin
                };
                self.presse_papier = tranche(&self.tampon, debut, fin_copie);
            },
        }
    }

    /// Coupe la sélection ou, sans sélection, la ligne du curseur avec son saut de ligne.
    pub fn couper_selection_ou_ligne(&mut self)
        requires
            bien_forme(old(self)),
            selection_valide(old(self)@),
        ensures
            bien_forme(final(self)),
            final(self)@ == couper_v(old(self)@),
    {
        match self.selection_debut {
            Some(debut) => {
                let (a, b) = if debut < self.curseur_pos {
                    (debut, self.curseur_pos)
                } else {
                    (self.curseur_pos, debut)
                };
                self.presse_papier = tranche(&self.tampon, a, b);
                self.tampon = sans_plage(&self.tampon, a, b);
                self.taille_texte = self.tampon.len();
                self.curseur_pos = a;
                self.selection_debut = None;
                self.ajuster_defilement();
            },
            None => {
                self.copier_selection_ou_ligne();
                let (debut, fin) = self.obtenir_limites_ligne();
                proof {
                    lemme_debut_ligne(self.tampon@, self.curseur_pos as int);
                    lemme_fin_ligne(self.tampon@, self.curseur_pos as int);
                }
                let fin_coupe = if fin < self.taille_texte {
                    fin + 1
                } else {
                    fin
                };
                self.tampon = sans_plage(&self.tampon, debut, fin_coupe);
                self.taille_texte = self.tampon.len();
                self.curseur_pos = if debut < self.taille_texte {
                    debut
                } else {
                    self.taille_texte
                };
                self.ajuster_defilement();
            },
        }
    }

    /// Insère le presse-papiers au curseur, qui passe après le texte inséré.
    pub fn coller(&mut self)
        requires
            bien_forme(old(self)),
        ensures
            bien_forme(final(self)),
            final(self)@ == coller_v(old(self)@),
    {
        if self.presse_papier.len() == 0 {
            return;
        }
        let mut nouveau = crate::octets::extraire(self.tampon.as_slice(), 0, self.curseur_pos);
        crate::octets::etendre(&mut nouveau, self.presse_papier.as_slice());
        let fin = crate::octets::extraire(self.tampon.as_slice(), self.curseur_pos, self.tampon.len());
        crate::octets::etendre(&mut nouveau, fin.as_slice());
        proof {
            assert(self.tampon@.subrange(0, self.curseur_pos as int) =~= self.tampon@.take(
                self.curseur_pos as int,
            ));
            assert(self.tampon@.subrange(self.curseur_pos as int, self.tampon@.len() as int)
                =~= self.tampon@.skip(self.curseur_pos as int));
        }
        let n = self.presse_papier.len();
        let total = nouveau.len();
        assert(self.curseur_pos + n <= total);
        self.curseur_pos = self.curseur_pos + n;
        self.tampon = nouveau;
        self.taille_texte = self.tampon.len();
        self.ajuster_defilement();
    }

    /// Ferme l'éditeur.
    pub fn quitter(&mut self)
        ensures
            final(self)@ == (EtatEditeur { actif: false, ..old(self)@ }),
            final(self).taille_texte == old(self).taille_texte,
            final(self).taille_nom == old(self).taille_nom,
    {
        self.actif = false;
    }

    /// Enregistre le texte dans le VFS sous son nom ("script.sh" s'il n'en a pas) et allume le
    /// message de sauvegarde ; rend vrai si l'écriture a eu lieu.
    pub fn enregistrer(&mut self, fs: &mut FileSystem, h: Horodatage) -> (r: (bool, Vec<(u64, Vec<u8>)>))
        requires
            bien_forme(old(self)),
        ensures
            bien_forme(final(self)),
            (final(self)@, final(fs)@, r.0) == enregistrer_v(old(self)@, old(fs)@, h),
            sync_si(enregistre_fichier(old(self)@, old(fs)@), final(fs)@.racine, r.1@),
    {
        if self.taille_nom == 0 {
            let defaut: [u8; 9] = [115u8, 99u8, 114u8, 105u8, 112u8, 116u8, 46u8, 115u8, 104u8];
            let mut i: usize = 0;
            while i < 9
                invariant
                    i <= 9,
                    defaut@ == nom_par_defaut(),
                    forall|k: int| 0 <= k < i ==> self.nom_fichier@[k] == defaut@[k],
                    self.tampon@ == old(self).tampon@,
                    self.taille_texte == old(self).taille_texte,
                    self.curseur_pos == old(self).curseur_pos,
                    self.taille_nom == 0,
                    self.ligne_debut == old(self).ligne_debut,
                    self.option_l == old(self).option_l,
                    self.actif == old(self).actif,
                    self.presse_papier == old(self).presse_papier,
                    self.selection_debut == old(self).selection_debut,
                    self.sauvegarde_flash == old(self).sauvegarde_flash,
                decreases 9 - i,
            {
                self.nom_fichier[i] = defaut[i];
                i = i + 1;
            }
            self.taille_nom = 9;
            assert(self.nom_fichier@.take(9) =~= nom_par_defaut());
        }
        let nom = crate::octets::extraire(self.nom_fichier.as_slice(), 0, self.taille_nom);
        assert(nom@ =~= self@.nom);
        match texte_utf8(nom.as_slice()) {
            Some(texte) => {
                let ecritures = crate::fs::ecrire(fs, texte.as_str(), self.tampon.as_slice(), h);
                self.sauvegarde_flash = true;
                (true, ecritures)
            },
            None => (false, Vec::new()),
        }
    }

    /// Même effet que `enregistrer`.
    pub fn sauvegarder(&mut self, fs: &mut FileSystem, h: Horodatage) -> (r: (bool, Vec<(u64, Vec<u8>)>))
        requires
            bien_forme(old(self)),
        ensures
            bien_forme(final(self)),
            (final(self)@, final(fs)@, r.0) == enregistrer_v(old(self)@, old(fs)@, h),
            sync_si(enregistre_fichier(old(self)@, old(fs)@), final(fs)@.racine, r.1@),
    {
        self.enregistrer(fs, h)
    }
    /// Ouvre le fichier `nom_fichier` du répertoire courant (ou un texte vide) et active l'éditeur.
    pub fn lancer(&mut self, option_l: bool, nom_fichier: &str, fs: &FileSystem)
        ensures
            bien_forme(final(self)),
            final(self)@ == lancer_v(old(self)@, option_l, nom_fichier@, fs@),
            final(self).taille_nom <= 64,
            forall|k: int| final(self).taille_nom <= k < 64 ==> final(self).nom_fichier@[k] == 0,
    {
        self.option_l = option_l;
        self.curseur_pos = 0;
        self.ligne_debut = 0;
        self.actif = true;
        self.selection_debut = None;
        self.sauvegarde_flash = false;
        let nom_trim = rogner(nom_fichier);
        let texte = nom_trim.as_str();
        if texte.unicode_len() == 0 {
            self.taille_nom = 0;
            self.nom_fichier = [0u8; 64];
            self.tampon = Vec::new();
            self.taille_texte = 0;
            assert(self@.nom =~= Seq::<u8>::empty());
        } else {
            let octets = texte.as_bytes();
            let n: usize = if octets.len() < 64 {
                octets.len()
            } else {
                64
            };
            self.taille_nom = n;
            self.nom_fichier = [0u8; 64];
            let mut i: usize = 0;
            while i < n
                invariant
                    i <= n <= 64,
                    n <= octets@.len(),
                    self.taille_nom == n,
                    forall|k: int| 0 <= k < i ==> self.nom_fichier@[k] == octets@[k],
                    forall|k: int| n <= k < 64 ==> self.nom_fichier@[k] == 0,
                    self.option_l == option_l,
                    self.curseur_pos == 0,
                    self.ligne_debut == 0,
                    self.actif,
                    self.selection_debut is None,
                    !self.sauvegarde_flash,
                    self.presse_papier == old(self).presse_papier,
                decreases n - i,
            {
                self.nom_fichier[i] = octets[i];
                i = i + 1;
            }
            assert(self@.nom =~= octets@.take(n as int));
            match crate::fs::lire(fs, texte) {
                Some(contenu) => {
                    self.taille_texte = contenu.len();
                    self.tampon = contenu;
                    self.curseur_pos = self.taille_texte;
                },
                None => {
                    self.tampon = Vec::new();
                    self.taille_texte = 0;
                },
            }
        }
        self.ajuster_defilement();
    }

    /// Traite une touche : édition, déplacement, presse-papiers (F3 copier, F4 couper, F5 coller,
    /// F6 sélection), F2 enregistrer, Échap quitter. Le message de sauvegarde s'éteint à chaque touche.
    pub fn traiter_touche(&mut self, touche: Touche, fs: &mut FileSystem, h: Horodatage) -> (r: (
        ActionEditeur,
        Vec<(u64, Vec<u8>)>,
    ))
        requires
            bien_forme(old(self)),
            touche == Touche::F3 || touche == Touche::F4 ==> selection_valide(old(self)@),
        ensures
            bien_forme(final(self)),
            (final(self)@, final(fs)@, r.0) == touche_v(old(self)@, touche, old(fs)@, h),
            sync_si(touche == Touche::F2 && enregistre_fichier(old(self)@, old(fs)@), final(fs)@.racine, r.1@),
    {
        self.sauvegarde_flash = false;
        let action = match touche {
            Touche::Echap => {
                self.quitter();
                return (ActionEditeur::Quitter, Vec::new());
            },
            Touche::F2 => {
                let (ecrit, ecritures) = self.enregistrer(fs, h);
                return if ecrit {
                    (ActionEditeur::Sauvegarde, ecritures)
                } else {
                    (ActionEditeur::Redessiner, ecritures)
                };
            },
            Touche::F3 => {
                self.copier_selection_ou_ligne();
                ActionEditeur::Aucune
            },
            Touche::F4 => {
                self.couper_selection_ou_ligne();
                ActionEditeur::Redessiner
            },
            Touche::F5 => {
                let vide = self.presse_papier.len() == 0;
                self.coller();
                if vide {
                    ActionEditeur::Aucune
                } else {
                    ActionEditeur::Redessiner
                }
            },
            Touche::F6 => {
                self.basculer_selection();
                ActionEditeur::Redessiner
            },
            Touche::Suppr => {
                let efface = self.curseur_pos < self.taille_texte;
                self.supprimer_caractere_droit();
                if efface {
                    ActionEditeur::Redessiner
                } else {
                    ActionEditeur::Aucune
                }
            },
            Touche::Haut => {
                self.deplacer_curseur(0, -1);
                ActionEditeur::Redessiner
            },
            Touche::Bas => {
                self.deplacer_curseur(0, 1);
                ActionEditeur::Redessiner
            },
            Touche::Gauche => {
                self.deplacer_curseur(-1, 0);
                ActionEditeur::Redessiner
            },
            Touche::Droite => {
                self.deplacer_curseur(1, 0);
                ActionEditeur::Redessiner
            },
            Touche::Unicode(c) => {
                if c == '\u{1b}' {
                    self.quitter();
                    return (ActionEditeur::Quitter, Vec::new());
                } else if c == '\u{7f}' {
                    let efface = self.curseur_pos < self.taille_texte;
                    self.supprimer_caractere_droit();
                    if efface {
                        ActionEditeur::Redessiner
                    } else {
                        ActionEditeur::Aucune
                    }
                } else if c == '\u{8}' {
                    self.supprimer_caractere();
                    self.ajuster_defilement();
                    proof {
                        lemme_defiler_idempotent(self@);
                    }
                    ActionEditeur::Redessiner
                } else {
                    self.inserer_caractere(c);
                    self.ajuster_defilement();
                    proof {
                        lemme_defiler_idempotent(self@);
                    }
                    ActionEditeur::Redessiner
                }
            },
            Touche::Autre => ActionEditeur::Aucune,
        };
        self.ajuster_defilement();
        (action, Vec::new())
    }
}

/// Ajuster le défilement une seconde fois ne change rien.
pub proof fn lemme_defiler_idempotent(e: EtatEditeur)
    ensures
        defiler_v(defiler_v(e)) == defiler_v(e),
{
}

/// Coller ce que l'on vient de couper rend le texte d'origine, que la coupe porte sur une sélection
/// ou sur la ligne du curseur.
pub proof fn loi_couper_puis_coller(e: EtatEditeur)
    requires
        e.curseur <= e.tampon.len(),
        selection_valide(e),
    ensures
        coller_v(couper_v(e)).tampon == e.tampon,
{
    let t = e.tampon;
    match e.selection {
        Some(d) => {
            let (a, b) = bornes(d, e.curseur);
            assert(t.take(a as int) + t.subrange(a as int, b as int) + t.skip(b as int) =~= t);
            let c = couper_v(e);
            assert(c.tampon.take(a as int) =~= t.take(a as int));
            assert(c.tampon.skip(a as int) =~= t.skip(b as int));
        },
        None => {
            lemme_debut_ligne(t, e.curseur as int);
            lemme_fin_ligne(t, e.curseur as int);
            let a = debut_ligne(t, e.curseur as int);
            let b = fin_avec_saut(t, e.curseur as int);
            assert(t.take(a) + t.subrange(a, b) + t.skip(b) =~= t);
            let c = couper_v(e);
            assert(c.tampon.take(a) =~= t.take(a));
            assert(c.tampon.skip(a) =~= t.skip(b));
        },
    }
}

/// Effacer le caractère que l'on vient de taper rend le texte et le curseur d'avant.
pub proof fn loi_inserer_puis_effacer(e: EtatEditeur, c: char)
    requires
        e.curseur <= e.tampon.len(),
        inserable(c),
    ensures
        supprimer_v(inserer_v(e, c)).tampon == e.tampon,
        supprimer_v(inserer_v(e, c)).curseur == e.curseur,
{
    assert(e.tampon.insert(e.curseur as int, c as u8).remove(e.curseur as int) =~= e.tampon);
}

/// Après ajustement du défilement, la ligne du curseur est l'une des lignes affichées.
pub proof fn loi_curseur_visible(e: EtatEditeur)
    ensures
        defiler_v(e).ligne_debut <= nb_lignes(e.tampon, min_nat(e.curseur as int, e.tampon.len() as int)),
        nb_lignes(e.tampon, min_nat(e.curseur as int, e.tampon.len() as int)) < defiler_v(e).ligne_debut
            + HAUTEUR_EDIT,
{
}

/// Un pas à gauche puis un pas à droite ramènent le curseur où il était, s'il n'était pas au début.
pub proof fn loi_gauche_puis_droite(t: Seq<u8>, cur: int)
    requires
        0 < cur <= t.len(),
    ensures
        curseur_apres(t, curseur_apres(t, cur, -1, 0), 1, 0) == cur,
{
}

/// Le curseur reste dans le texte, quel que soit le déplacement.
pub proof fn loi_curseur_dans_le_texte(t: Seq<u8>, cur: int, dx: int, dy: int)
    requires
        0 <= cur <= t.len(),
    ensures
        0 <= curseur_apres(t, cur, dx, dy) <= t.len(),
{
    lemme_curseur_apres(t, cur, dx, dy);
}


/// Le début de la ligne qui contient `p` est la position `s` qui suit le dernier saut de ligne
/// avant `p`.
proof fn lemme_debut_est(t: Seq<u8>, p: int, s: int)
    requires
        0 <= s <= p <= t.len(),
        s == 0 || t[s - 1] == NL,
        forall|k: int| s <= k < p ==> t[k] != NL,
    ensures
        debut_ligne(t, p) == s,
{
    lemme_debut_ligne(t, p);
    let d = debut_ligne(t, p);
    if d < s {
        assert(t[s - 1] != NL);
    } else if d > s {
        assert(t[d - 1] != NL);
    }
}

/// La fin de la ligne qui contient `p` est le premier saut de ligne `f` à partir de `p` (ou la fin
/// du texte).
proof fn lemme_fin_est(t: Seq<u8>, p: int, f: int)
    requires
        0 <= p <= f <= t.len(),
        f == t.len() || t[f] == NL,
        forall|k: int| p <= k < f ==> t[k] != NL,
    ensures
        fin_ligne(t, p) == f,
{
    lemme_fin_ligne(t, p);
    let g = fin_ligne(t, p);
    if g < f {
        assert(t[g] != NL);
    } else if g > f {
        assert(t[f] != NL);
    }
}

/// Flèche bas. Le curseur `c` est à la colonne `c - s` de sa ligne, qui commence en `s` et finit
/// par le saut de ligne en `f` ; la ligne suivante va de `f + 1` à `g` (saut de ligne ou fin du
/// texte). Le curseur passe sur la ligne suivante, à la même colonne, ou à la fin de cette ligne si
/// elle est plus courte.
pub proof fn loi_descendre(e: EtatEditeur, s: int, f: int, g: int)
    requires
        0 <= s <= e.curseur <= f < g <= e.tampon.len(),
        s == 0 || e.tampon[s - 1] == NL,
        forall|k: int| s <= k < f ==> e.tampon[k] != NL,
        e.tampon[f] == NL,
        g == e.tampon.len() || e.tampon[g] == NL,
        forall|k: int| f < k < g ==> e.tampon[k] != NL,
    ensures
        deplacer_v(e, 0, 1).curseur == f + 1 + if e.curseur - s <= g - (f + 1) {
            e.curseur - s
        } else {
            g - (f + 1)
        },
        deplacer_v(e, 0, 1).curseur - (f + 1) <= g - (f + 1),
        forall|k: int| f < k < deplacer_v(e, 0, 1).curseur ==> e.tampon[k] != NL,
        deplacer_v(e, 0, 1).tampon == e.tampon,
{
    let t = e.tampon;
    let c = e.curseur as int;
    lemme_debut_est(t, c, s);
    lemme_fin_est(t, c, f);
    lemme_fin_est(t, f + 1, g);
}

/// Flèche bas sur la dernière ligne : le curseur ne bouge pas.
pub proof fn loi_descendre_derniere_ligne(e: EtatEditeur)
    requires
        e.curseur <= e.tampon.len(),
        forall|k: int| e.curseur <= k < e.tampon.len() ==> e.tampon[k] != NL,
    ensures
        deplacer_v(e, 0, 1).curseur == e.curseur,
{
    lemme_fin_est(e.tampon, e.curseur as int, e.tampon.len() as int);
}

/// Flèche haut. La ligne du curseur commence en `s`, juste après le saut de ligne en `s - 1` ; la
/// ligne précédente commence en `p`. Le curseur passe sur la ligne précédente, à la même colonne,
/// ou à la fin de cette ligne si elle est plus courte ; sur la première ligne il ne bouge pas.
pub proof fn loi_monter(e: EtatEditeur, p: int, s: int)
    requires
        0 <= p < s <= e.curseur <= e.tampon.len(),
        p == 0 || e.tampon[p - 1] == NL,
        forall|k: int| p <= k < s - 1 ==> e.tampon[k] != NL,
        e.tampon[s - 1] == NL,
        forall|k: int| s <= k < e.curseur ==> e.tampon[k] != NL,
    ensures
        deplacer_v(e, 0, -1).curseur == p + if e.curseur - s <= (s - 1) - p {
            e.curseur - s
        } else {
            (s - 1) - p
        },
{
    let t = e.tampon;
    lemme_debut_est(t, e.curseur as int, s);
    lemme_debut_est(t, s - 1, p);
}

/// Flèche haut sur la première ligne : le curseur ne bouge pas.
pub proof fn loi_monter_premiere_ligne(e: EtatEditeur)
    requires
        e.curseur <= e.tampon.len(),
        forall|k: int| 0 <= k < e.curseur ==> e.tampon[k] != NL,
    ensures
        deplacer_v(e, 0, -1).curseur == e.curseur,
{
    lemme_debut_est(e.tampon, e.curseur as int, 0);
}

/// Flèches gauche et droite : un caractère de moins ou de plus, sans sortir du texte.
pub proof fn loi_pas_horizontal(e: EtatEditeur)
    requires
        e.curseur <= e.tampon.len(),
    ensures
        deplacer_v(e, -1, 0).curseur == if e.curseur > 0 { e.curseur - 1 } else { 0int },
        deplacer_v(e, 1, 0).curseur == if e.curseur < e.tampon.len() { e.curseur + 1int } else { e.curseur as int },
{
}

/// Copier une sélection met dans le presse-papiers le texte compris entre l'ancre et le curseur,
/// quel que soit leur ordre ; la sélection s'éteint, le texte et le curseur ne changent pas. Couper
/// la même sélection met le même texte dans le presse-papiers, le retire du texte et place le
/// curseur à l'endroit de la coupe.
pub proof fn loi_copier_selection(e: EtatEditeur, d: nat)
    requires
        e.selection == Some(d),
        d <= e.tampon.len(),
        e.curseur <= e.tampon.len(),
    ensures
        ({
            let lo: int = if d <= e.curseur { d as int } else { e.curseur as int };
            let hi: int = if d <= e.curseur { e.curseur as int } else { d as int };
            &&& copier_v(e).presse_papier.len() == hi - lo
            &&& forall|i: int| 0 <= i < hi - lo ==> copier_v(e).presse_papier[i] == e.tampon[lo + i]
            &&& copier_v(e).tampon == e.tampon
            &&& copier_v(e).curseur == e.curseur
            &&& copier_v(e).selection is None
            &&& couper_v(e).presse_papier == copier_v(e).presse_papier
            &&& couper_v(e).tampon == e.tampon.take(lo) + e.tampon.skip(hi)
            &&& couper_v(e).curseur == lo
        }),
        copier_v(EtatEditeur { curseur: d, selection: Some(e.curseur), ..e }).presse_papier == copier_v(e).presse_papier,
{
}

/// Sans sélection, copier met dans le presse-papiers la ligne du curseur, de son début `s` à son
/// saut de ligne `f` compris (jusqu'à la fin du texte pour la dernière ligne).
pub proof fn loi_copier_ligne(e: EtatEditeur, s: int, f: int)
    requires
        e.selection is None,
        0 <= s <= e.curseur <= f <= e.tampon.len(),
        s == 0 || e.tampon[s - 1] == NL,
        forall|k: int| s <= k < f ==> e.tampon[k] != NL,
        f == e.tampon.len() || e.tampon[f] == NL,
    ensures
        copier_v(e).presse_papier == e.tampon.subrange(s, if f < e.tampon.len() { f + 1 } else { f }),
        copier_v(e).tampon == e.tampon,
        copier_v(e).curseur == e.curseur,
{
    lemme_debut_est(e.tampon, e.curseur as int, s);
    lemme_fin_est(e.tampon, e.curseur as int, f);
}

/// Coller un presse-papiers non vide l'insère au curseur et place le curseur juste après : le
/// texte avant le curseur est l'ancien texte avant le curseur suivi du presse-papiers, le texte
/// après le curseur est inchangé. Un presse-papiers vide ne change rien.
pub proof fn loi_coller(e: EtatEditeur)
    requires
        e.curseur <= e.tampon.len(),
    ensures
        e.presse_papier.len() > 0 ==> {
            let r = coller_v(e);
            &&& r.curseur == e.curseur + e.presse_papier.len()
            &&& r.tampon.len() == e.tampon.len() + e.presse_papier.len()
            &&& r.tampon.take(r.curseur as int) == e.tampon.take(e.curseur as int) + e.presse_papier
            &&& r.tampon.skip(r.curseur as int) == e.tampon.skip(e.curseur as int)
            &&& r.presse_papier == e.presse_papier
        },
        e.presse_papier.len() == 0 ==> coller_v(e) == e,
{
    if e.presse_papier.len() > 0 {
        let r = coller_v(e);
        let a = e.tampon.take(e.curseur as int) + e.presse_papier;
        assert(r.tampon == a + e.tampon.skip(e.curseur as int));
        assert(r.tampon.take(r.curseur as int) =~= a);
        assert(r.tampon.skip(r.curseur as int) =~= e.tampon.skip(e.curseur as int));
    }
}

} // verus!
