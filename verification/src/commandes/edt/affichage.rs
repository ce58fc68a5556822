use vstd::prelude::*;
use std::vec::Vec;
use vstd::string::StringSliceAdditionalSpecFns;
use crate::octets::{decimal_octets, pousser_decimal_octets, puissance10, lemme_decimal_longueur};
use crate::commandes::edt::moteur::{
    Editeur, EtatEditeur, bien_forme, bornes, debut_ligne, debut_ligne_x, lemme_debut_ligne, min_nat,
    nb_lignes, nb_lignes_x, NL,
};
use crate::texte::{texte_utf8, vers_chaine};
use std::string::String;

verus! {

/// Largeur de l'écran en caractères.
pub const LARGEUR: usize = 80;

/// Nombre de lignes de la zone d'édition (la dernière ligne de l'écran est la barre d'état).
pub const HAUTEUR_EDIT: usize = 23;

/// Nombre de lignes de l'écran.
pub const HAUTEUR_ECRAN: usize = 25;

/// Taille de la mémoire de l'écran texte : un octet de caractère et un octet de couleur par case.
pub const TAILLE_ECRAN: usize = 4000;

// ---------------------------------------------------------------------------
// Modèle de l'écran
// ---------------------------------------------------------------------------

/// L'écran où la case (x, y) montre `octet` dans la couleur `couleur`.
pub open spec fn poser(ecran: Seq<u8>, x: int, y: int, octet: u8, couleur: u8) -> Seq<u8> {
    let o = (y * 80 + x) * 2;
    ecran.update(o, octet).update(o + 1, couleur)
}

/// Écran vide : des espaces gris sur noir.
pub open spec fn ecran_efface() -> Seq<u8> {
    Seq::new(TAILLE_ECRAN as nat, |i: int| if i % 2 == 0 { 32u8 } else { 7u8 })
}

/// L'écran où la ligne `y` montre les cases `cases` (au moins 80).
pub open spec fn poser_ligne(ecran: Seq<u8>, y: int, cases: Seq<(u8, u8)>) -> Seq<u8> {
    Seq::new(
        ecran.len(),
        |i: int|
            if y * 160 <= i < y * 160 + 160 {
                if (i - y * 160) % 2 == 0 {
                    cases[(i - y * 160) / 2].0
                } else {
                    cases[(i - y * 160) / 2].1
                }
            } else {
                ecran[i]
            },
    )
}

pub open spec fn colorer(octets: Seq<u8>, couleur: u8) -> Seq<(u8, u8)> {
    Seq::new(octets.len(), |i: int| (octets[i], couleur))
}

/// En-tête de la barre d'état : position du curseur (comptée à partir de 1) et début du nom.
pub open spec fn entete_v(ligne: nat, col: nat) -> Seq<u8> {
    " L:".spec_bytes() + decimal_octets(ligne + 1) + " C:".spec_bytes() + decimal_octets(col + 1)
        + " | Fichier: ".spec_bytes()
}

/// Cases de la barre d'état : le message de sauvegarde, ou la position, le nom et l'aide ; tronquée
/// à 80 cases et complétée d'espaces.
pub open spec fn barre_v(nom: Seq<u8>, ligne: nat, col: nat, flash: bool) -> Seq<(u8, u8)> {
    let cases = if flash {
        colorer(" [ Sauvegarde avec succes ! ] ".spec_bytes(), 0x0a)
    } else {
        colorer(entete_v(ligne, col), 0x0f) + colorer(nom, 0x0e) + colorer(
            " | [F2] Enregistrer | [ESC] Quitter".spec_bytes(),
            0x0f,
        )
    };
    Seq::new(80, |x: int| if x < cases.len() { cases[x] } else { (32u8, 0x0fu8) })
}

/// Numéro d'une ligne (compté à partir de 1), aligné sur trois colonnes.
pub open spec fn numero_v(n: nat) -> Seq<u8> {
    let d = decimal_octets(n + 1);
    if n + 1 < 10 {
        d + seq![32u8, 32u8]
    } else if n + 1 < 100 {
        d + seq![32u8]
    } else {
        d
    }
}

/// L'écran où la ligne `y` commence par le numéro de la ligne `n`, en gris foncé.
pub open spec fn numeroter(ecran: Seq<u8>, y: int, n: nat) -> Seq<u8> {
    poser_suite(ecran, 0, y, numero_v(n), 0x08)
}

/// L'écran où les octets `s` sont posés à partir de la case (x, y), dans la couleur `c`.
pub open spec fn poser_suite(ecran: Seq<u8>, x: int, y: int, s: Seq<u8>, c: u8) -> Seq<u8>
    decreases s.len(),
{
    if s.len() == 0 {
        ecran
    } else {
        poser_suite(poser(ecran, x, y, s[0], c), x + 1, y, s.drop_first(), c)
    }
}

/// Couleur du caractère `i` : inversée au curseur, bleue dans la sélection, grise sinon.
pub open spec fn couleur_v(e: EtatEditeur, i: int) -> u8 {
    if i == e.curseur {
        0x70
    } else if e.selection is Some && bornes(e.selection->0, e.curseur).0 <= i && i < bornes(
        e.selection->0,
        e.curseur,
    ).1 {
        0x17
    } else {
        0x07
    }
}

/// Position dans le texte de la première ligne affichée : juste après le `n`-ième saut de ligne
/// (ou la fin du texte s'il y en a moins), parcours commencé en `i` avec `c` sauts déjà vus.
pub open spec fn debut_affichage(t: Seq<u8>, n: nat, i: int, c: nat) -> int
    decreases t.len() - i,
{
    if i >= t.len() {
        t.len() as int
    } else if c == n {
        i
    } else {
        debut_affichage(t, n, i + 1, c + if t[i] == NL {
            1nat
        } else {
            0nat
        })
    }
}

/// Mise en page du texte à partir du caractère `i`, la prochaine case étant (x, y) et la ligne
/// courante la ligne `abs` : rend l'écran et la case qui suit le dernier caractère posé. Un saut
/// de ligne passe à la ligne suivante (précédée de son numéro avec l'option -l), une ligne trop
/// longue se poursuit sur la suivante ; le parcours s'arrête au bas de la zone d'édition.
pub open spec fn disposer(e: EtatEditeur, i: int, x: int, y: int, abs: nat, ecran: Seq<u8>) -> (Seq<u8>, int, int)
    decreases e.tampon.len() - i,
{
    if i >= e.tampon.len() || i < 0 {
        (ecran, x, y)
    } else if e.tampon[i] == NL {
        let ecran1 = if i == e.curseur {
            poser(ecran, x, y, 32, 0x70)
        } else {
            ecran
        };
        if y + 1 >= HAUTEUR_EDIT {
            (ecran1, 0, y + 1)
        } else if e.option_l {
            disposer(e, i + 1, numero_v(abs + 1).len() as int, y + 1, abs + 1, numeroter(ecran1, y + 1, abs + 1))
        } else {
            disposer(e, i + 1, 0, y + 1, abs + 1, ecran1)
        }
    } else {
        let ecran1 = poser(ecran, x, y, e.tampon[i], couleur_v(e, i));
        let (x1, y1) = if x + 1 >= LARGEUR {
            (0, y + 1)
        } else {
            (x + 1, y)
        };
        if y1 >= HAUTEUR_EDIT {
            (ecran1, x1, y1)
        } else {
            disposer(e, i + 1, x1, y1, abs, ecran1)
        }
    }
}

/// Nom affiché : le nom du fichier s'il est de l'UTF-8 valide ("inconnu" sinon), "[Sans nom]"
/// s'il est vide.
pub open spec fn nom_affiche(nom: Seq<u8>) -> Seq<u8> {
    if nom.len() > 0 {
        if vstd::utf8::valid_utf8(nom) {
            nom
        } else {
            "inconnu".spec_bytes()
        }
    } else {
        "[Sans nom]".spec_bytes()
    }
}

/// Écran de l'éditeur : barre d'état en bas, texte à partir de la première ligne affichée, et
/// marque de fin quand le curseur est au bout du texte.
pub open spec fn rendu_v(e: EtatEditeur) -> Seq<u8> {
    let t = e.tampon;
    let p = min_nat(e.curseur as int, t.len() as int);
    let ligne = nb_lignes(t, p);
    let col = (p - debut_ligne(t, p)) as nat;
    let ecran1 = poser_ligne(ecran_efface(), 24, barre_v(nom_affiche(e.nom), ligne, col, e.flash));
    let (ecran2, x0) = if e.option_l {
        (numeroter(ecran1, 0, e.ligne_debut), numero_v(e.ligne_debut).len() as int)
    } else {
        (ecran1, 0)
    };
    let debut = debut_affichage(t, e.ligne_debut, 0, 0);
    let (ecran3, x, y) = disposer(e, debut, x0, 0, e.ligne_debut, ecran2);
    if e.curseur >= t.len() && y < HAUTEUR_EDIT {
        poser(ecran3, x, y, 95, 0x0f)
    } else {
        ecran3
    }
}

// ---------------------------------------------------------------------------
// Écriture dans la mémoire de l'écran
// ---------------------------------------------------------------------------

/// Pose `octet` en couleur `couleur` dans la case (x, y).
pub fn ecrire_vga(ecran: &mut Vec<u8>, x: usize, y: usize, octet: u8, couleur: u8)
    requires
        old(ecran)@.len() == TAILLE_ECRAN,
        x < LARGEUR,
        y < HAUTEUR_ECRAN,
    ensures
        final(ecran)@ == poser(old(ecran)@, x as int, y as int, octet, couleur),
{
    let o = (y * LARGEUR + x) * 2;
    ecran.set(o, octet);
    ecran.set(o + 1, couleur);
}

/// Remplit tout l'écran d'espaces gris sur noir.
pub fn effacer_ecran_complet(ecran: &mut Vec<u8>)
    requires
        old(ecran)@.len() == TAILLE_ECRAN,
    ensures
        final(ecran)@ == ecran_efface(),
{
    let mut i: usize = 0;
    while i < TAILLE_ECRAN
        invariant
            ecran@.len() == TAILLE_ECRAN,
            i <= TAILLE_ECRAN,
            i % 2 == 0,
            forall|k: int| 0 <= k < i ==> ecran@[k] == ecran_efface()[k],
        decreases TAILLE_ECRAN - i,
    {
        ecran.set(i, 32);
        ecran.set(i + 1, 7);
        i = i + 2;
    }
    assert(ecran@ =~= ecran_efface());
}

/// Pose une suite d'octets à partir de la case (x, y) ; rend la case qui suit.
fn ecrire_suite(ecran: &mut Vec<u8>, x: usize, y: usize, s: &[u8], c: u8) -> (r: usize)
    requires
        old(ecran)@.len() == TAILLE_ECRAN,
        x + s@.len() <= LARGEUR,
        y < HAUTEUR_ECRAN,
    ensures
        final(ecran)@ == poser_suite(old(ecran)@, x as int, y as int, s@, c),
        final(ecran)@.len() == TAILLE_ECRAN,
        r == x + s@.len(),
{
    let mut i: usize = 0;
    proof {
        assert(s@.skip(0) =~= s@);
    }
    while i < s.len()
        invariant
            x + s@.len() <= LARGEUR,
            y < HAUTEUR_ECRAN,
            i <= s@.len(),
            ecran@.len() == TAILLE_ECRAN,
            poser_suite(ecran@, x + i, y as int, s@.skip(i as int), c) == poser_suite(
                old(ecran)@,
                x as int,
                y as int,
                s@,
                c,
            ),
        decreases s@.len() - i,
    {
        proof {
            assert(s@.skip(i as int)[0] == s@[i as int]);
            assert(s@.skip(i as int).drop_first() =~= s@.skip(i + 1));
        }
        ecrire_vga(ecran, x + i, y, s[i], c);
        i = i + 1;
    }
    proof {
        assert(s@.skip(i as int).len() == 0);
    }
    x + s.len()
}

/// Pose la ligne `y` entière à partir de 80 cases au moins.
fn ecrire_ligne(ecran: &mut Vec<u8>, y: usize, cases: &Vec<(u8, u8)>)
    requires
        old(ecran)@.len() == TAILLE_ECRAN,
        y < HAUTEUR_ECRAN,
        cases@.len() >= LARGEUR,
    ensures
        final(ecran)@ == poser_ligne(old(ecran)@, y as int, cases@),
{
    let mut x: usize = 0;
    while x < LARGEUR
        invariant
            x <= LARGEUR,
            y < HAUTEUR_ECRAN,
            cases@.len() >= LARGEUR,
            ecran@.len() == TAILLE_ECRAN,
            old(ecran)@.len() == TAILLE_ECRAN,
            forall|i: int|
                0 <= i < TAILLE_ECRAN ==> #[trigger] ecran@[i] == if y * 160 <= i < y * 160 + 2 * x {
                    poser_ligne(old(ecran)@, y as int, cases@)[i]
                } else {
                    old(ecran)@[i]
                },
        decreases LARGEUR - x,
    {
        let (o, c) = cases[x];
        let ghost avant = ecran@;
        ecrire_vga(ecran, x, y, o, c);
        proof {
            let cible = poser_ligne(old(ecran)@, y as int, cases@);
            let base = y * 160 + 2 * x;
            assert((base - y * 160) / 2 == x && (base - y * 160) % 2 == 0);
            assert((base + 1 - y * 160) / 2 == x && (base + 1 - y * 160) % 2 == 1);

            assert forall|i: int|
                0 <= i < TAILLE_ECRAN implies #[trigger] ecran@[i] == if y * 160 <= i < y * 160 + 2 * (x + 1) {
                    cible[i]
                } else {
                    old(ecran)@[i]
                } by {
                if i == base {
                    assert(ecran@[i] == o);
                    assert(cible[i] == cases@[x as int].0);
                } else if i == base + 1 {
                    assert(ecran@[i] == c);
                    assert(cible[i] == cases@[x as int].1);
                } else {
                    assert(ecran@[i] == avant[i]);
                    assert(avant[i] == if y * 160 <= i < y * 160 + 2 * x {
                        cible[i]
                    } else {
                        old(ecran)@[i]
                    });
                }
            }
        }
        x = x + 1;
    }
    assert(ecran@ =~= poser_ligne(old(ecran)@, y as int, cases@));
}

/// Cases colorées d'une suite d'octets.
fn pousser_colores(v: &mut Vec<(u8, u8)>, s: &[u8], c: u8)
    ensures
        final(v)@ == old(v)@ + colorer(s@, c),
{
    let mut i: usize = 0;
    while i < s.len()
        invariant
            i <= s@.len(),
            v@ == old(v)@ + colorer(s@.take(i as int), c),
        decreases s@.len() - i,
    {
        v.push((s[i], c));
        i = i + 1;
        assert(v@ =~= old(v)@ + colorer(s@.take(i as int), c));
    }
    assert(s@.take(s@.len() as int) =~= s@);
}

/// Trace la barre d'état (dernière ligne) : message de sauvegarde, ou position du curseur, nom du
/// fichier et rappel des touches.
pub fn dessiner_barre_statut(ecran: &mut Vec<u8>, nom_fichier: &str, ligne: usize, col: usize, sauvegarde_flash: bool)
    requires
        old(ecran)@.len() == TAILLE_ECRAN,
        ligne < usize::MAX,
        col < usize::MAX,
    ensures
        final(ecran)@ == poser_ligne(
            old(ecran)@,
            24,
            barre_v(nom_fichier.spec_bytes(), ligne as nat, col as nat, sauvegarde_flash),
        ),
{
    let mut cases: Vec<(u8, u8)> = Vec::new();
    if sauvegarde_flash {
        pousser_colores(&mut cases, " [ Sauvegarde avec succes ! ] ".as_bytes(), 0x0a);
    } else {
        let mut entete: Vec<u8> = Vec::new();
        crate::octets::etendre(&mut entete, " L:".as_bytes());
        pousser_decimal_octets(&mut entete, (ligne + 1) as u64);
        crate::octets::etendre(&mut entete, " C:".as_bytes());
        pousser_decimal_octets(&mut entete, (col + 1) as u64);
        crate::octets::etendre(&mut entete, " | Fichier: ".as_bytes());
        assert(entete@ =~= entete_v(ligne as nat, col as nat));
        pousser_colores(&mut cases, entete.as_slice(), 0x0f);
        pousser_colores(&mut cases, nom_fichier.as_bytes(), 0x0e);
        pousser_colores(&mut cases, " | [F2] Enregistrer | [ESC] Quitter".as_bytes(), 0x0f);
    }
    let ghost avant = cases@;
    let mut ligne_barre: Vec<(u8, u8)> = Vec::new();
    let mut x: usize = 0;
    while x < LARGEUR
        invariant
            x <= LARGEUR,
            cases@ == avant,
            ligne_barre@ == Seq::new(
                x as nat,
                |k: int| if k < avant.len() { avant[k] } else { (32u8, 0x0fu8) },
            ),
        decreases LARGEUR - x,
    {
        if x < cases.len() {
            ligne_barre.push(cases[x]);
        } else {
            ligne_barre.push((32u8, 0x0fu8));
        }
        x = x + 1;
        assert(ligne_barre@ =~= Seq::new(
            x as nat,
            |k: int| if k < avant.len() { avant[k] } else { (32u8, 0x0fu8) },
        ));
    }
    assert(ligne_barre@ =~= barre_v(nom_fichier.spec_bytes(), ligne as nat, col as nat, sauvegarde_flash));
    ecrire_ligne(ecran, 24, &ligne_barre);
}

/// Un numéro de ligne tient en 22 cases.
proof fn lemme_numero_court(n: u64)
    requires
        n < u64::MAX,
    ensures
        numero_v(n as nat).len() <= 22,
{
    assert(puissance10(20) == 100000000000000000000) by {
        reveal_with_fuel(puissance10, 21);
    }
    lemme_decimal_longueur((n + 1) as nat, 20);
}

/// Pose le numéro de la ligne `n` au début de la ligne `y` de l'écran ; rend la case qui suit.
fn ecrire_numero(ecran: &mut Vec<u8>, y: usize, n: usize) -> (r: usize)
    requires
        old(ecran)@.len() == TAILLE_ECRAN,
        y < HAUTEUR_ECRAN,
        n < usize::MAX,
    ensures
        final(ecran)@ == numeroter(old(ecran)@, y as int, n as nat),
        final(ecran)@.len() == TAILLE_ECRAN,
        r == numero_v(n as nat).len(),
        r <= 22,
{
    let mut num: Vec<u8> = Vec::new();
    pousser_decimal_octets(&mut num, (n + 1) as u64);
    if n + 1 < 10 {
        num.push(32u8);
        num.push(32u8);
    } else if n + 1 < 100 {
        num.push(32u8);
    }
    proof {
        assert(num@ =~= numero_v(n as nat));
        lemme_numero_court(n as u64);
    }
    ecrire_suite(ecran, 0, y, num.as_slice(), 0x08)
}

/// Position dans le texte de la première ligne affichée.
fn debut_affichage_x(t: &Vec<u8>, n: usize) -> (r: usize)
    ensures
        r == debut_affichage(t@, n as nat, 0, 0),
        r <= t@.len(),
{
    let mut i: usize = 0;
    let mut c: usize = 0;
    while i < t.len() && c != n
        invariant
            i <= t@.len(),
            c <= i,
            debut_affichage(t@, n as nat, i as int, c as nat) == debut_affichage(t@, n as nat, 0, 0),
        decreases t@.len() - i,
    {
        if t[i] == NL {
            c = c + 1;
        }
        i = i + 1;
    }
    i
}

/// Couleur du caractère `i` du texte.
fn couleur_x(editeur: &Editeur, i: usize) -> (r: u8)
    ensures
        r == couleur_v(editeur@, i as int),
{
    if i == editeur.curseur_pos {
        0x70
    } else {
        match editeur.selection_debut {
            Some(d) => {
                let (a, b) = if d < editeur.curseur_pos {
                    (d, editeur.curseur_pos)
                } else {
                    (editeur.curseur_pos, d)
                };
                if a <= i && i < b {
                    0x17
                } else {
                    0x07
                }
            },
            None => 0x07,
        }
    }
}

/// Dessine tout l'écran de l'éditeur : barre d'état, texte visible (numéroté avec l'option -l,
/// curseur et sélection en couleur) et marque de fin de texte.
pub fn dessiner_interface(editeur: &Editeur, ecran: &mut Vec<u8>)
    requires
        bien_forme(editeur),
        old(ecran)@.len() == TAILLE_ECRAN,
        editeur.ligne_debut + editeur.tampon@.len() + 1 < usize::MAX,
    ensures
        final(ecran)@ == rendu_v(editeur@),
{
    let ghost e = editeur@;
    effacer_ecran_complet(ecran);
    let t = &editeur.tampon;
    let n = t.len();
    let nom_octets = crate::octets::extraire(editeur.nom_fichier.as_slice(), 0, editeur.taille_nom);
    assert(nom_octets@ =~= e.nom);
    let nom: String = if editeur.taille_nom > 0 {
        match texte_utf8(nom_octets.as_slice()) {
            Some(s) => s,
            None => vers_chaine("inconnu"),
        }
    } else {
        vers_chaine("[Sans nom]")
    };
    proof {
        if e.nom.len() > 0 && vstd::utf8::valid_utf8(e.nom) {
            vstd::utf8::decode_utf8_encode_utf8(e.nom);
        }
        assert(vstd::utf8::encode_utf8(nom@) == nom_affiche(e.nom));
    }
    let p = if editeur.curseur_pos < n {
        editeur.curseur_pos
    } else {
        n
    };
    let ligne = nb_lignes_x(t, p);
    let debut_l = debut_ligne_x(t, p);
    proof {
        lemme_debut_ligne(t@, p as int);
    }
    let col = p - debut_l;
    dessiner_barre_statut(ecran, nom.as_str(), ligne, col, editeur.sauvegarde_flash);
    let ghost ecran1 = ecran@;
    let mut x: usize = 0;
    let mut y: usize = 0;
    let mut abs: usize = editeur.ligne_debut;
    if editeur.option_l {
        x = ecrire_numero(ecran, 0, abs);
    }
    let ghost ecran2 = ecran@;
    let ghost x0 = x as int;
    let debut = debut_affichage_x(t, editeur.ligne_debut);
    let ghost cible = disposer(e, debut as int, x0, 0, e.ligne_debut, ecran2);
    let mut i: usize = debut;
    while i < n
        invariant_except_break
            y < HAUTEUR_EDIT,
            x < LARGEUR,
            disposer(e, i as int, x as int, y as int, abs as nat, ecran@) == cible,
            abs <= editeur.ligne_debut + i,
        invariant
            e == editeur@,
            bien_forme(editeur),
            n == t@.len(),
            t@ == e.tampon,
            debut <= i <= n,
            editeur.ligne_debut + n + 1 < usize::MAX,
            ecran@.len() == TAILLE_ECRAN,
        ensures
            (ecran@, x as int, y as int) == cible,
            x < LARGEUR,
        decreases n - i,
    {
        let octet = t[i];
        if octet == NL {
            if i == editeur.curseur_pos {
                ecrire_vga(ecran, x, y, 32, 0x70);
            }
            x = 0;
            y = y + 1;
            abs = abs + 1;
            if y >= HAUTEUR_EDIT {
                break;
            }
            if editeur.option_l {
                x = ecrire_numero(ecran, y, abs);
            }
        } else {
            let c = couleur_x(editeur, i);
            ecrire_vga(ecran, x, y, octet, c);
            x = x + 1;
            if x >= LARGEUR {
                x = 0;
                y = y + 1;
            }
            if y >= HAUTEUR_EDIT {
                break;
            }
        }
        i = i + 1;
    }
    if editeur.curseur_pos >= n && y < HAUTEUR_EDIT {
        ecrire_vga(ecran, x, y, 95, 0x0f);
    }
}

} // verus!
