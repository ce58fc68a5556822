use vstd::prelude::*;
use std::string::String;
use std::vec::Vec;
use crate::texte::vers_chaine;

verus! {

/// Un fichier du disque mémoire à plat : un nom et un contenu.
pub struct Fichier {
    pub nom: String,
    pub contenu: Vec<u8>,
}

/// Disque mémoire à plat : une liste de fichiers, le premier d'un nom fait foi.
pub struct RamDisk {
    pub fichiers: Vec<Fichier>,
}

pub open spec fn vue_fichiers(s: Seq<Fichier>) -> Seq<(Seq<char>, Seq<u8>)> {
    s.map_values(|f: Fichier| (f.nom@, f.contenu@))
}

impl View for RamDisk {
    type V = Seq<(Seq<char>, Seq<u8>)>;

    open spec fn view(&self) -> Seq<(Seq<char>, Seq<u8>)> {
        vue_fichiers(self.fichiers@)
    }
}

/// `i` est la première position portant ce nom.
pub open spec fn premier(s: Seq<(Seq<char>, Seq<u8>)>, nom: Seq<char>, i: int) -> bool {
    &&& 0 <= i < s.len()
    &&& s[i].0 == nom
    &&& forall|j: int| 0 <= j < i ==> (#[trigger] s[j]).0 != nom
}

pub open spec fn present(s: Seq<(Seq<char>, Seq<u8>)>, nom: Seq<char>) -> bool {
    exists|i: int| 0 <= i < s.len() && (#[trigger] s[i]).0 == nom
}

pub open spec fn position(s: Seq<(Seq<char>, Seq<u8>)>, nom: Seq<char>) -> int {
    choose|i: int| premier(s, nom, i)
}

/// Contenu du premier fichier de ce nom.
pub open spec fn lire_rd(s: Seq<(Seq<char>, Seq<u8>)>, nom: Seq<char>) -> Option<Seq<u8>> {
    if present(s, nom) {
        Some(s[position(s, nom)].1)
    } else {
        None
    }
}

/// Le premier fichier de ce nom reçoit le contenu ; sans fichier de ce nom, un fichier est ajouté.
pub open spec fn ecrire_rd(s: Seq<(Seq<char>, Seq<u8>)>, nom: Seq<char>, c: Seq<u8>) -> Seq<
    (Seq<char>, Seq<u8>),
> {
    if present(s, nom) {
        s.update(position(s, nom), (nom, c))
    } else {
        s.push((nom, c))
    }
}

/// La première position d'un nom présent est unique.
pub proof fn lemme_premier(s: Seq<(Seq<char>, Seq<u8>)>, nom: Seq<char>, i: int)
    requires
        premier(s, nom, i),
    ensures
        present(s, nom),
        position(s, nom) == i,
{
    let k = position(s, nom);
    assert(premier(s, nom, k));
    if k < i {
        assert(s[k].0 != nom);
    } else if i < k {
        assert(s[i].0 != nom);
    }
}

/// Un nom présent a une première position.
pub proof fn lemme_premier_existe(s: Seq<(Seq<char>, Seq<u8>)>, nom: Seq<char>)
    requires
        present(s, nom),
    ensures
        premier(s, nom, position(s, nom)),
    decreases s.len(),
{
    let t = s.drop_last();
    if present(t, nom) {
        lemme_premier_existe(t, nom);
        let k = position(t, nom);
        assert(s[k] == t[k]);
        assert forall|j: int| 0 <= j < k implies (#[trigger] s[j]).0 != nom by {
            assert(t[j] == s[j]);
        }
        assert(premier(s, nom, k));
        lemme_premier(s, nom, k);
    } else {
        let k = s.len() - 1;
        assert forall|j: int| 0 <= j < k implies (#[trigger] s[j]).0 != nom by {
            assert(t[j] == s[j]);
        }
        let w = choose|i: int| 0 <= i < s.len() && (#[trigger] s[i]).0 == nom;
        if w < k {
            assert(t[w] == s[w]);
            assert(present(t, nom));
        }
        assert(w == k);
        assert(premier(s, nom, k));
        lemme_premier(s, nom, k);
    }
}

/// Première position du nom dans le disque.
fn chercher_fichier(fichiers: &Vec<Fichier>, nom: &str) -> (r: Option<usize>)
    ensures
        match r {
            Some(i) => premier(vue_fichiers(fichiers@), nom@, i as int),
            None => !present(vue_fichiers(fichiers@), nom@),
        },
{
    let ghost s = vue_fichiers(fichiers@);
    let cible = vers_chaine(nom);
    let mut i: usize = 0;
    while i < fichiers.len()
        invariant
            i <= fichiers.len(),
            s == vue_fichiers(fichiers@),
            cible@ == nom@,
            forall|j: int| 0 <= j < i ==> (#[trigger] s[j]).0 != nom@,
        decreases fichiers.len() - i,
    {
        if fichiers[i].nom == cible {
            return Some(i);
        }
        i = i + 1;
    }
    None
}

impl RamDisk {
    /// Disque vide.
    pub fn new() -> (r: Self)
        ensures
            r@ == Seq::<(Seq<char>, Seq<u8>)>::empty(),
    {
        let r = RamDisk { fichiers: Vec::new() };
        assert(r@ =~= Seq::<(Seq<char>, Seq<u8>)>::empty());
        r
    }

    /// Contenu du premier fichier portant ce nom.
    pub fn lire(&self, nom: &str) -> (r: Option<&[u8]>)
        ensures
            match lire_rd(self@, nom@) {
                Some(c) => r matches Some(x) && x@ == c,
                None => r is None,
            },
    {
        match chercher_fichier(&self.fichiers, nom) {
            Some(i) => {
                proof {
                    lemme_premier(self@, nom@, i as int);
                }
                Some(self.fichiers[i].contenu.as_slice())
            },
            None => None,
        }
    }
}

/// Met à jour le premier fichier de ce nom, ou en crée un ; réussit toujours.
pub fn ecrire(disque: &mut RamDisk, nom: &str, contenu: &[u8]) -> (r: bool)
    ensures
        r,
        final(disque)@ == ecrire_rd(old(disque)@, nom@, contenu@),
{
    let mut copie: Vec<u8> = Vec::new();
    crate::octets::etendre(&mut copie, contenu);
    let ghost s = disque@;
    match chercher_fichier(&disque.fichiers, nom) {
        Some(i) => {
            proof {
                lemme_premier(s, nom@, i as int);
            }
            let ancien_nom = vers_chaine(nom);
            disque.fichiers.set(i, Fichier { nom: ancien_nom, contenu: copie });
            proof {
                assert(disque@ =~= s.update(i as int, (nom@, contenu@)));
            }
        },
        None => {
            disque.fichiers.push(Fichier { nom: vers_chaine(nom), contenu: copie });
            proof {
                assert(disque@ =~= s.push((nom@, contenu@)));
            }
        },
    }
    true
}

/// Copie du contenu du premier fichier de ce nom.
pub fn lire(disque: &RamDisk, nom: &str) -> (r: Option<Vec<u8>>)
    ensures
        match lire_rd(disque@, nom@) {
            Some(c) => r matches Some(x) && x@ == c,
            None => r is None,
        },
{
    match disque.lire(nom) {
        Some(c) => {
            let mut v: Vec<u8> = Vec::new();
            crate::octets::etendre(&mut v, c);
            Some(v)
        },
        None => None,
    }
}

/// Lire après écrire rend le contenu écrit ; les autres noms lisent comme avant.
pub proof fn loi_ramdisk_lire_apres_ecrire(
    s: Seq<(Seq<char>, Seq<u8>)>,
    nom: Seq<char>,
    c: Seq<u8>,
    autre: Seq<char>,
)
    ensures
        lire_rd(ecrire_rd(s, nom, c), nom) == Some(c),
        autre != nom ==> lire_rd(ecrire_rd(s, nom, c), autre) == lire_rd(s, autre),
{
    let t = ecrire_rd(s, nom, c);
    if present(s, nom) {
        lemme_premier_existe(s, nom);
        let i = position(s, nom);
        assert(premier(t, nom, i));
        lemme_premier(t, nom, i);
        if autre != nom {
            if present(s, autre) {
                lemme_premier_existe(s, autre);
                let j = position(s, autre);
                assert(premier(t, autre, j));
                lemme_premier(t, autre, j);
            }
            if present(t, autre) {
                let j = choose|j: int| 0 <= j < t.len() && (#[trigger] t[j]).0 == autre;
                assert(s[j].0 == autre);
            }
        }
    } else {
        let i = s.len() as int;
        assert(premier(t, nom, i));
        lemme_premier(t, nom, i);
        if autre != nom {
            if present(s, autre) {
                lemme_premier_existe(s, autre);
                let j = position(s, autre);
                assert(premier(t, autre, j));
                lemme_premier(t, autre, j);
            }
            if present(t, autre) {
                let j = choose|j: int| 0 <= j < t.len() && (#[trigger] t[j]).0 == autre;
                assert(s[j].0 == autre);
            }
        }
    }
}

} // verus!
