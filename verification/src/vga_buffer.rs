use vstd::prelude::*;
use std::vec::Vec;
use crate::commandes::edt::affichage::{poser, TAILLE_ECRAN};

verus! {

/// Palette des 16 couleurs du mode texte.
#[derive(Debug, Clone, Copy, PartialEq, Eq, Structural)]
pub enum Couleur {
    Noir,
    Bleu,
    Vert,
    Cyan,
    Rouge,
    Magenta,
    Marron,
    GrisClair,
    GrisFonce,
    BleuClair,
    VertClair,
    CyanClair,
    RougeClair,
    Rose,
    Jaune,
    Blanc,
}

/// Numéro d'une couleur dans la palette.
pub open spec fn numero_couleur(c: Couleur) -> u8 {
    match c {
        Couleur::Noir => 0,
        Couleur::Bleu => 1,
        Couleur::Vert => 2,
        Couleur::Cyan => 3,
        Couleur::Rouge => 4,
        Couleur::Magenta => 5,
        Couleur::Marron => 6,
        Couleur::GrisClair => 7,
        Couleur::GrisFonce => 8,
        Couleur::BleuClair => 9,
        Couleur::VertClair => 10,
        Couleur::CyanClair => 11,
        Couleur::RougeClair => 12,
        Couleur::Rose => 13,
        Couleur::Jaune => 14,
        Couleur::Blanc => 15,
    }
}

pub fn numero(c: Couleur) -> (r: u8)
    ensures
        r == numero_couleur(c),
{
    match c {
        Couleur::Noir => 0,
        Couleur::Bleu => 1,
        Couleur::Vert => 2,
        Couleur::Cyan => 3,
        Couleur::Rouge => 4,
        Couleur::Magenta => 5,
        Couleur::Marron => 6,
        Couleur::GrisClair => 7,
        Couleur::GrisFonce => 8,
        Couleur::BleuClair => 9,
        Couleur::VertClair => 10,
        Couleur::CyanClair => 11,
        Couleur::RougeClair => 12,
        Couleur::Rose => 13,
        Couleur::Jaune => 14,
        Couleur::Blanc => 15,
    }
}

/// Octet de couleur : le fond dans les 4 bits de poids fort, le texte dans les 4 bits de poids faible.
pub fn code_couleur(texte: Couleur, fond: Couleur) -> (r: u8)
    ensures
        r == 16 * numero_couleur(fond) + numero_couleur(texte),
{
    let f = numero(fond);
    let t = numero(texte);
    let r = (f << 4) | t;
    assert(r == 16 * f + t) by (bit_vector)
        requires
            f < 16,
            t < 16,
            r == (f << 4) | t,
    ;
    r
}

/// Code CP437 d'un caractère : les lettres accentuées du français ont le leur, l'ASCII se garde,
/// le reste devient un carré (0xFE).
pub open spec fn cp437(c: char) -> u8 {
    if c == '\u{e9}' {
        0x82
    } else if c == '\u{e8}' {
        0x8a
    } else if c == '\u{ea}' {
        0x88
    } else if c == '\u{eb}' {
        0x89
    } else if c == '\u{e0}' {
        0x85
    } else if c == '\u{e2}' {
        0x83
    } else if c == '\u{e4}' {
        0x84
    } else if c == '\u{ee}' {
        0x8c
    } else if c == '\u{ef}' {
        0x8b
    } else if c == '\u{f4}' {
        0x93
    } else if c == '\u{f6}' {
        0x94
    } else if c == '\u{f9}' {
        0x97
    } else if c == '\u{fb}' {
        0x96
    } else if c == '\u{fc}' {
        0x81
    } else if c == '\u{e7}' {
        0x87
    } else if c == '\u{c9}' {
        0x90
    } else if c == '\u{c0}' {
        0x80
    } else if c == '\u{c7}' {
        0x80
    } else if (c as u32) <= 0x7F {
        (c as u32) as u8
    } else {
        0xfe
    }
}

/// Code CP437 d'un caractère.
pub fn char_vers_cp437(c: char) -> (r: u8)
    ensures
        r == cp437(c),
{
    if c == '\u{e9}' {
        0x82
    } else if c == '\u{e8}' {
        0x8a
    } else if c == '\u{ea}' {
        0x88
    } else if c == '\u{eb}' {
        0x89
    } else if c == '\u{e0}' {
        0x85
    } else if c == '\u{e2}' {
        0x83
    } else if c == '\u{e4}' {
        0x84
    } else if c == '\u{ee}' {
        0x8c
    } else if c == '\u{ef}' {
        0x8b
    } else if c == '\u{f4}' {
        0x93
    } else if c == '\u{f6}' {
        0x94
    } else if c == '\u{f9}' {
        0x97
    } else if c == '\u{fb}' {
        0x96
    } else if c == '\u{fc}' {
        0x81
    } else if c == '\u{e7}' {
        0x87
    } else if c == '\u{c9}' {
        0x90
    } else if c == '\u{c0}' {
        0x80
    } else if c == '\u{c7}' {
        0x80
    } else if (c as u32) <= 0x7F {
        (c as u32) as u8
    } else {
        0xfe
    }
}

/// Hauteur de l'écran en lignes.
pub const HAUTEUR_BUFFER: usize = 25;

/// Largeur de l'écran en colonnes.
pub const LARGEUR_BUFFER: usize = 80;

/// Console texte : le texte s'écrit sur la dernière ligne, qui remonte à chaque saut de ligne.
pub struct Ecrivain {
    colonne_position: usize,
    code_couleur: u8,
    ecran: Vec<u8>,
}

/// Modèle de la console : la colonne d'écriture, la couleur et la mémoire de l'écran
/// (caractère puis couleur de chaque case, ligne après ligne).
pub struct VueEcrivain {
    pub colonne: nat,
    pub couleur: u8,
    pub ecran: Seq<u8>,
}

impl View for Ecrivain {
    type V = VueEcrivain;

    closed spec fn view(&self) -> VueEcrivain {
        VueEcrivain { colonne: self.colonne_position as nat, couleur: self.code_couleur, ecran: self.ecran@ }
    }
}

/// Console cohérente : écran de 80 × 25 cases, colonne d'écriture au plus 80.
pub open spec fn ecrivain_valide(v: VueEcrivain) -> bool {
    v.ecran.len() == TAILLE_ECRAN && v.colonne <= LARGEUR_BUFFER
}

/// Cases vides (espaces) dans la couleur `c`.
pub open spec fn vide(n: nat, c: u8) -> Seq<u8> {
    Seq::new(2 * n, |i: int| if i % 2 == 0 { 32u8 } else { c })
}

/// Défilement : les lignes remontent d'un cran, la dernière devient vide, la colonne revient à 0.
pub open spec fn nouvelle_ligne_v(v: VueEcrivain) -> VueEcrivain {
    VueEcrivain { colonne: 0, ecran: v.ecran.skip(160) + vide(80, v.couleur), ..v }
}

/// Écriture d'un caractère : un saut de ligne fait défiler ; un autre caractère se pose à la
/// colonne d'écriture de la dernière ligne (après un défilement si la ligne est pleine).
pub open spec fn ecrire_car_v(v: VueEcrivain, c: char) -> VueEcrivain {
    if c == '\n' {
        nouvelle_ligne_v(v)
    } else {
        let w = if v.colonne >= LARGEUR_BUFFER {
            nouvelle_ligne_v(v)
        } else {
            v
        };
        VueEcrivain {
            ecran: poser(w.ecran, w.colonne as int, 24, cp437(c), w.couleur),
            colonne: w.colonne + 1,
            ..w
        }
    }
}

/// Écriture d'un texte, caractère après caractère.
pub open spec fn ecrire_v(v: VueEcrivain, s: Seq<char>) -> VueEcrivain
    decreases s.len(),
{
    if s.len() == 0 {
        v
    } else {
        ecrire_car_v(ecrire_v(v, s.drop_last()), s.last())
    }
}

impl Ecrivain {
    /// Console à l'écran vide, dans la couleur donnée.
    pub fn nouveau(code_couleur: u8) -> (r: Self)
        ensures
            ecrivain_valide(r@),
            r@.colonne == 0,
            r@.couleur == code_couleur,
            r@.ecran == vide(2000, code_couleur),
    {
        let mut ecran: Vec<u8> = Vec::new();
        let mut i: usize = 0;
        while i < TAILLE_ECRAN
            invariant
                i <= TAILLE_ECRAN,
                i % 2 == 0,
                ecran@ == vide((i / 2) as nat, code_couleur),
            decreases TAILLE_ECRAN - i,
        {
            ecran.push(32u8);
            ecran.push(code_couleur);
            i = i + 2;
            assert(ecran@ =~= vide((i / 2) as nat, code_couleur));
        }
        Ecrivain { colonne_position: 0, code_couleur, ecran }
    }

    /// Mémoire de l'écran.
    pub fn ecran(&self) -> (r: &Vec<u8>)
        ensures
            r@ == self@.ecran,
    {
        &self.ecran
    }

    /// Position du curseur matériel : la colonne d'écriture de la dernière ligne.
    pub fn position_curseur(&self) -> (r: usize)
        requires
            ecrivain_valide(self@),
        ensures
            r == (HAUTEUR_BUFFER - 1) * LARGEUR_BUFFER + self@.colonne,
    {
        (HAUTEUR_BUFFER - 1) * LARGEUR_BUFFER + self.colonne_position
    }

    /// Vide la ligne `ligne`.
    fn vider_ligne(&mut self, ligne: usize)
        requires
            ecrivain_valide(old(self)@),
            ligne < HAUTEUR_BUFFER,
        ensures
            ecrivain_valide(final(self)@),
            final(self)@.colonne == old(self)@.colonne,
            final(self)@.couleur == old(self)@.couleur,
            final(self)@.ecran == old(self)@.ecran.take(ligne * 160) + vide(80, old(self)@.couleur)
                + old(self)@.ecran.skip(ligne * 160 + 160),
    {
        let debut = ligne * 160;
        let mut i: usize = 0;
        while i < 160
            invariant
                i <= 160,
                i % 2 == 0,
                debut == ligne * 160,
                ligne < HAUTEUR_BUFFER,
                self.ecran@.len() == TAILLE_ECRAN,
                old(self)@.ecran.len() == TAILLE_ECRAN,
                self.code_couleur == old(self)@.couleur,
                self.colonne_position == old(self)@.colonne,
                self.ecran@ == old(self)@.ecran.take(debut as int) + vide((i / 2) as nat, self.code_couleur)
                    + old(self)@.ecran.skip(debut + i),
            decreases 160 - i,
        {
            let c = self.code_couleur;
            let ghost avant = self.ecran@;
            self.ecran.set(debut + i, 32u8);
            self.ecran.set(debut + i + 1, c);
            i = i + 2;
            proof {
                let cible = old(self)@.ecran.take(debut as int) + vide((i / 2) as nat, c)
                    + old(self)@.ecran.skip(debut + i);
                assert(2 * (i / 2) == i as int);
                assert(cible.len() == TAILLE_ECRAN);
                assert forall|k: int| 0 <= k < TAILLE_ECRAN implies self.ecran@[k] == cible[k] by {
                    if k < debut + i - 2 {
                        assert(self.ecran@[k] == avant[k]);
                    } else if k < debut + i {
                    } else {
                        assert(self.ecran@[k] == avant[k]);
                    }
                }
                assert(self.ecran@ =~= cible);
            }
        }
    }

    /// Fait remonter l'écran d'une ligne et revient en début de ligne.
    fn nouvelle_ligne(&mut self)
        requires
            ecrivain_valide(old(self)@),
        ensures
            ecrivain_valide(final(self)@),
            final(self)@ == nouvelle_ligne_v(old(self)@),
    {
        let mut i: usize = 0;
        while i < TAILLE_ECRAN - 160
            invariant
                i <= TAILLE_ECRAN - 160,
                self.ecran@.len() == TAILLE_ECRAN,
                old(self)@.ecran.len() == TAILLE_ECRAN,
                self.code_couleur == old(self)@.couleur,
                self.colonne_position == old(self)@.colonne,
                forall|k: int| 0 <= k < i ==> self.ecran@[k] == old(self)@.ecran[k + 160],
                forall|k: int| i <= k < TAILLE_ECRAN ==> self.ecran@[k] == old(self)@.ecran[k],
            decreases TAILLE_ECRAN - 160 - i,
        {
            let b = self.ecran[i + 160];
            self.ecran.set(i, b);
            i = i + 1;
        }
        self.vider_ligne(HAUTEUR_BUFFER - 1);
        self.colonne_position = 0;
        assert(self@.ecran =~= nouvelle_ligne_v(old(self)@).ecran);
    }

    fn ecrire_caractere(&mut self, c: char)
        requires
            ecrivain_valide(old(self)@),
        ensures
            ecrivain_valide(final(self)@),
            final(self)@ == ecrire_car_v(old(self)@, c),
    {
        if c == '\n' {
            self.nouvelle_ligne();
        } else {
            let octet = char_vers_cp437(c);
            if self.colonne_position >= LARGEUR_BUFFER {
                self.nouvelle_ligne();
            }
            let colonne = self.colonne_position;
            let couleur = self.code_couleur;
            let o = ((HAUTEUR_BUFFER - 1) * LARGEUR_BUFFER + colonne) * 2;
            self.ecran.set(o, octet);
            self.ecran.set(o + 1, couleur);
            self.colonne_position = colonne + 1;
        }
    }

    /// Écrit un texte sur la console.
    pub fn ecrire_chaine(&mut self, s: &str)
        requires
            ecrivain_valide(old(self)@),
        ensures
            ecrivain_valide(final(self)@),
            final(self)@ == ecrire_v(old(self)@, s@),
    {
        let v = crate::texte::caracteres(s);
        let mut i: usize = 0;
        while i < v.len()
            invariant
                v@ == s@,
                i <= v@.len(),
                ecrivain_valide(self@),
                self@ == ecrire_v(old(self)@, s@.take(i as int)),
            decreases v@.len() - i,
        {
            self.ecrire_caractere(v[i]);
            proof {
                assert(s@.take(i + 1).drop_last() =~= s@.take(i as int));
            }
            i = i + 1;
        }
        assert(s@.take(v@.len() as int) =~= s@);
    }

    /// Efface le caractère avant la colonne d'écriture et y recule.
    pub fn effacer_dernier_caractere(&mut self)
        requires
            ecrivain_valide(old(self)@),
        ensures
            ecrivain_valide(final(self)@),
            old(self)@.colonne == 0 ==> final(self)@ == old(self)@,
            old(self)@.colonne > 0 ==> final(self)@ == (VueEcrivain {
                colonne: (old(self)@.colonne - 1) as nat,
                ecran: poser(old(self)@.ecran, old(self)@.colonne - 1, 24, 32, old(self)@.couleur),
                ..old(self)@
            }),
    {
        if self.colonne_position > 0 {
            self.colonne_position = self.colonne_position - 1;
            let colonne = self.colonne_position;
            let couleur = self.code_couleur;
            let o = ((HAUTEUR_BUFFER - 1) * LARGEUR_BUFFER + colonne) * 2;
            self.ecran.set(o, 32u8);
            self.ecran.set(o + 1, couleur);
        }
    }

    /// Vide tout l'écran et revient en début de ligne.
    pub fn nettoyer_ecran(&mut self)
        requires
            ecrivain_valide(old(self)@),
        ensures
            ecrivain_valide(final(self)@),
            final(self)@ == (VueEcrivain {
                colonne: 0,
                ecran: vide(2000, old(self)@.couleur),
                ..old(self)@
            }),
    {
        let mut i: usize = 0;
        while i < TAILLE_ECRAN
            invariant
                i <= TAILLE_ECRAN,
                i % 2 == 0,
                self.ecran@.len() == TAILLE_ECRAN,
                old(self)@.ecran.len() == TAILLE_ECRAN,
                self.code_couleur == old(self)@.couleur,
                self.ecran@ == vide((i / 2) as nat, self.code_couleur) + old(self)@.ecran.skip(i as int),
            decreases TAILLE_ECRAN - i,
        {
            let c = self.code_couleur;
            let ghost avant = self.ecran@;
            self.ecran.set(i, 32u8);
            self.ecran.set(i + 1, c);
            i = i + 2;
            proof {
                let cible = vide((i / 2) as nat, c) + old(self)@.ecran.skip(i as int);
                assert(2 * (i / 2) == i as int);
                assert(cible.len() == TAILLE_ECRAN);
                assert forall|k: int| 0 <= k < TAILLE_ECRAN implies self.ecran@[k] == cible[k] by {
                    if k < i - 2 {
                        assert(self.ecran@[k] == avant[k]);
                    } else if k < i {
                    } else {
                        assert(self.ecran@[k] == avant[k]);
                    }
                }
                assert(self.ecran@ =~= cible);
            }
        }
        self.colonne_position = 0;
        assert(self.ecran@ =~= vide(2000, old(self)@.couleur));
    }
}

/// Vide l'écran de la console.
pub fn clear_screen(ecrivain: &mut Ecrivain)
    requires
        ecrivain_valide(old(ecrivain)@),
    ensures
        ecrivain_valide(final(ecrivain)@),
        final(ecrivain)@ == (VueEcrivain {
            colonne: 0,
            ecran: vide(2000, old(ecrivain)@.couleur),
            ..old(ecrivain)@
        }),
{
    ecrivain.nettoyer_ecran();
}

/// Écrire un texte puis un autre revient à écrire leur concaténation : la console ne dépend pas
/// du découpage de ce qu'on lui envoie.
pub proof fn loi_ecriture_concatenee(v: VueEcrivain, a: Seq<char>, b: Seq<char>)
    ensures
        ecrire_v(ecrire_v(v, a), b) == ecrire_v(v, a + b),
    decreases b.len(),
{
    if b.len() == 0 {
        assert(a + b =~= a);
    } else {
        loi_ecriture_concatenee(v, a, b.drop_last());
        assert((a + b).drop_last() =~= a + b.drop_last());
        assert((a + b).last() == b.last());
    }
}

} // verus!
