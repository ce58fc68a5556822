use vstd::prelude::*;
use std::string::String;
use std::vec::Vec;

pub mod node;
pub mod arbre;
pub mod path;
pub mod ops;
pub mod lois;
pub mod relecture;

use node::{
    a_enfant, acces, bien_forme, enfant, enfants_bien_formes, horodatage_v, indice,
    inserer_enfant, lemme_enfants_bien_formes, lemme_vue_enfants, remplacer, retirer_enfant, trie,
    vue_chemin, vue_enfants, vue_noeud, Horodatage, Node, NoeudV,
};
use arbre::{
    acceder, inserer_entree, lemme_acces_bien_forme, lemme_remplacer_identite, lemme_acces_remplacer, lemme_remplacer_bien_forme,
    lemme_remplacer_deux_fois, noeud_vide, poser, prendre, retirer_entree, ve, vide_v,
};
use path::{nettoyer, nettoyer_chemin, est_absolu, point_point};
use crate::texte::{pousser_car, vers_chaine, texte_utf8};
pub use ops::VfsError;

verus! {

/// Modèle du VFS : l'arbre complet et le répertoire courant.
pub struct VueFs {
    pub racine: NoeudV,
    pub cwd: Seq<Seq<char>>,
}

/// Système de fichiers hiérarchique en mémoire.
pub struct FileSystem {
    root: Node,
    cwd: Vec<String>,
}

impl View for FileSystem {
    type V = VueFs;

    closed spec fn view(&self) -> VueFs {
        VueFs { racine: self.root@, cwd: vue_chemin(self.cwd@) }
    }
}

// ---------------------------------------------------------------------------
// Spécification
// ---------------------------------------------------------------------------

/// Application des éléments d'un chemin : '..' remonte (sans dépasser la racine), le reste descend.
pub open spec fn appliquer(base: Seq<Seq<char>>, e: Seq<Seq<char>>) -> Seq<Seq<char>>
    decreases e.len(),
{
    if e.len() == 0 {
        base
    } else {
        let r = appliquer(base, e.drop_last());
        if e.last() == point_point() {
            if r.len() == 0 {
                r
            } else {
                r.drop_last()
            }
        } else {
            r.push(e.last())
        }
    }
}

/// Chemin absolu désigné par `chemin` depuis le répertoire `cwd`.
pub open spec fn resoudre(cwd: Seq<Seq<char>>, chemin: Seq<char>) -> Seq<Seq<char>> {
    let base = if chemin.len() > 0 && chemin[0] == '/' {
        Seq::empty()
    } else {
        cwd
    };
    appliquer(base, nettoyer(chemin))
}

/// Entrées du dossier courant, s'il existe et est un dossier.
pub open spec fn dossier_a(racine: NoeudV, p: Seq<Seq<char>>) -> Option<
    (Seq<(Seq<char>, NoeudV)>, Horodatage),
> {
    match acces(racine, p) {
        Some(NoeudV::Dossier(enf, h)) => Some((enf, h)),
        _ => None,
    }
}

/// L'arbre où le dossier au bout de `p` reçoit les entrées `enf`.
pub open spec fn avec_entrees(
    racine: NoeudV,
    p: Seq<Seq<char>>,
    enf: Seq<(Seq<char>, NoeudV)>,
) -> NoeudV {
    remplacer(racine, p, NoeudV::Dossier(enf, dossier_a(racine, p).unwrap().1))
}

/// Taille affichée d'un nœud : octets d'un fichier, nombre d'entrées d'un dossier.
pub open spec fn taille_v(n: NoeudV) -> nat {
    match n {
        NoeudV::Fichier(d, _) => d.len(),
        NoeudV::Dossier(e, _) => e.len(),
    }
}

/// Texte d'un chemin : "/a/b" (vide pour la racine).
pub open spec fn joindre(p: Seq<Seq<char>>) -> Seq<char>
    decreases p.len(),
{
    if p.len() == 0 {
        Seq::empty()
    } else {
        joindre(p.drop_last()) + seq!['/'] + p.last()
    }
}

pub open spec fn chemin_texte(p: Seq<Seq<char>>) -> Seq<char> {
    if p.len() == 0 {
        seq!['/']
    } else {
        joindre(p)
    }
}

// ---------------------------------------------------------------------------
// Outils
// ---------------------------------------------------------------------------

fn est_point_point(s: &String) -> (r: bool)
    ensures
        r == (s@ == point_point()),
{
    let t = s.as_str();
    let r = t.unicode_len() == 2 && t.get_char(0) == '.' && t.get_char(1) == '.';
    proof {
        if s@.len() == 2 && s@[0] == '.' && s@[1] == '.' {
            assert(s@ =~= point_point());
        }
    }
    r
}

pub fn cloner_chemin(v: &Vec<String>) -> (r: Vec<String>)
    ensures
        r@ == v@,
{
    let mut r: Vec<String> = Vec::new();
    let mut i: usize = 0;
    while i < v.len()
        invariant
            i <= v.len(),
            r@ == v@.take(i as int),
        decreases v.len() - i,
    {
        r.push(v[i].clone());
        i = i + 1;
        assert(r@ =~= v@.take(i as int));
    }
    assert(v@.take(v.len() as int) =~= v@);
    r
}

fn cloner_octets(v: &Vec<u8>) -> (r: Vec<u8>)
    ensures
        r@ == v@,
{
    let mut r: Vec<u8> = Vec::new();
    let mut i: usize = 0;
    while i < v.len()
        invariant
            i <= v.len(),
            r@ == v@.take(i as int),
        decreases v.len() - i,
    {
        r.push(v[i]);
        i = i + 1;
        assert(r@ =~= v@.take(i as int));
    }
    assert(v@.take(v.len() as int) =~= v@);
    r
}

/// Copie profonde d'un nœud.
pub fn cloner_noeud(n: &Node) -> (r: Node)
    ensures
        r@ == n@,
    decreases n,
{
    match n {
        Node::File { data, horodatage } => Node::File { data: cloner_octets(data), horodatage: *horodatage },
        Node::Directory { children, horodatage } => {
            let mut copie: Vec<(String, Node)> = Vec::new();
            let mut i: usize = 0;
            proof {
                lemme_vue_enfants(children@);
            }
            while i < children.len()
                invariant
                    i <= children.len(),
                    copie@.len() == i,
                    *n == (Node::Directory { children: *children, horodatage: *horodatage }),
                    vue_enfants(children@).len() == children@.len(),
                    forall|j: int|
                        0 <= j < i ==> (#[trigger] copie@[j]).0@ == children@[j].0@ && vue_noeud(
                            copie@[j].1,
                        ) == vue_noeud(children@[j].1),
                decreases children.len() - i,
            {
                proof {
                    let e = children@[i as int];
                    assert(decreases_to!(children@ => e));
                    assert(decreases_to!(e => e.1));
                    assert(decreases_to!(*children => children@));
                    assert((*n)->children == *children);
                    assert(decreases_to!(*n => (*n)->children));
                }
                let c = cloner_noeud(&children[i].1);
                copie.push((children[i].0.clone(), c));
                i = i + 1;
            }
            proof {
                lemme_vue_enfants(copie@);
                assert(vue_enfants(copie@) =~= vue_enfants(children@));
            }
            Node::Directory { children: copie, horodatage: *horodatage }
        },
    }
}

impl FileSystem {
    #[verifier::type_invariant]
    spec fn inv(self) -> bool {
        bien_forme(self.root@) && self.root@ is Dossier
    }

    /// Propriétés garanties de tout système de fichiers.
    pub fn verifier_forme(&self)
        ensures
            bien_forme(self@.racine),
            self@.racine is Dossier,
    {
        proof {
            use_type_invariant(self);
        }
    }

    /// Système vide : une racine sans entrée, répertoire courant à la racine.
    pub fn new() -> (r: Self)
        ensures
            r@.racine == NoeudV::Dossier(Seq::empty(), Horodatage { heure: 0, minute: 0, seconde: 0 }),
            r@.cwd == Seq::<Seq<char>>::empty(),
    {
        let root = noeud_vide();
        let r = FileSystem { root, cwd: Vec::new() };
        proof {
            assert(vue_chemin(r.cwd@) =~= Seq::<Seq<char>>::empty());
        }
        r
    }

    /// Chemin absolu (liste d'éléments) désigné par `chemin`.
    pub fn resoudre_chemin(&self, chemin: &str) -> (r: Vec<String>)
        ensures
            vue_chemin(r@) == resoudre(self@.cwd, chemin@),
    {
        let elements = nettoyer_chemin(chemin);
        let mut resultat = if est_absolu(chemin) {
            Vec::new()
        } else {
            cloner_chemin(&self.cwd)
        };
        let ghost base = vue_chemin(resultat@);
        let ghost e = vue_chemin(elements@);
        proof {
            assert(e.take(0) =~= Seq::<Seq<char>>::empty());
            assert(base =~= (if chemin@.len() > 0 && chemin@[0] == '/' {
                Seq::<Seq<char>>::empty()
            } else {
                self@.cwd
            }));
        }
        let mut i: usize = 0;
        while i < elements.len()
            invariant
                i <= elements.len(),
                e == vue_chemin(elements@),
                vue_chemin(resultat@) == appliquer(base, e.take(i as int)),
            decreases elements.len() - i,
        {
            proof {
                assert(e.take(i + 1).drop_last() =~= e.take(i as int));
                assert(e.take(i + 1).last() == elements@[i as int]@);
            }
            let ghost avant = vue_chemin(resultat@);
            if est_point_point(&elements[i]) {
                resultat.pop();
                proof {
                    assert(vue_chemin(resultat@) =~= (if avant.len() == 0 {
                        avant
                    } else {
                        avant.drop_last()
                    }));
                }
            } else {
                resultat.push(elements[i].clone());
                proof {
                    assert(vue_chemin(resultat@) =~= avant.push(elements@[i as int]@));
                }
            }
            i = i + 1;
        }
        proof {
            assert(e.take(i as int) =~= e);
        }
        resultat
    }

    /// Sort l'arbre (une racine vide prend sa place le temps de la modification).
    fn sortir_racine(&mut self) -> (r: Node)
        ensures
            r@ == old(self)@.racine,
            bien_forme(r@),
            r@ is Dossier,
            final(self)@.cwd == old(self)@.cwd,
    {
        proof {
            use_type_invariant(&*self);
        }
        let mut racine = noeud_vide();
        std::mem::swap(&mut self.root, &mut racine);
        racine
    }

    /// Ouvre le dossier au bout de `p` : rend l'arbre troué, les entrées et l'heure du dossier.
    fn ouvrir_dossier(&mut self, p: &Vec<String>) -> (r: Option<(Node, Vec<(String, Node)>, Horodatage)>)
        ensures
            final(self)@.cwd == old(self)@.cwd,
            match dossier_a(old(self)@.racine, vue_chemin(p@)) {
                Some((enf, h)) => r matches Some(x) && ve(x.1) == enf && x.2 == h && x.0@ == remplacer(
                    old(self)@.racine,
                    vue_chemin(p@),
                    vide_v(),
                ) && bien_forme(x.0@) && x.0@ is Dossier && trie(enf) && enfants_bien_formes(enf)
                    && acces(x.0@, vue_chemin(p@)) is Some,
                None => r is None && final(self)@.racine == old(self)@.racine,
            },
    {
        proof {
            use_type_invariant(&*self);
        }
        let est_dossier = match acceder(&self.root, p) {
            Some(n) => n.est_un_dossier(),
            None => false,
        };
        if !est_dossier {
            return None;
        }
        let racine = self.sortir_racine();
        let ghost r0 = racine@;
        proof {
            assert(vue_chemin(p@).skip(0) =~= vue_chemin(p@));
        }
        let (trou, pris) = prendre(racine, p, 0);
        proof {
            lemme_acces_bien_forme(r0, vue_chemin(p@));
            lemme_acces_remplacer(r0, vue_chemin(p@), vide_v());
            if vue_chemin(p@).len() > 0 {
                assert(remplacer(r0, vue_chemin(p@), vide_v()) is Dossier);
            }
        }
        match pris {
            Some(Node::Directory { children, horodatage }) => Some((trou, children, horodatage)),
            Some(Node::File { .. }) => None,
            None => None,
        }
    }

    /// Referme le dossier ouvert avec ses nouvelles entrées.
    fn fermer_dossier(
        &mut self,
        trou: Node,
        p: &Vec<String>,
        enfants: Vec<(String, Node)>,
        h: Horodatage,
    )
        requires
            bien_forme(trou@),
            trou@ is Dossier,
            acces(trou@, vue_chemin(p@)) is Some,
            trie(ve(enfants)),
            enfants_bien_formes(ve(enfants)),
        ensures
            final(self)@.cwd == old(self)@.cwd,
            final(self)@.racine == remplacer(trou@, vue_chemin(p@), NoeudV::Dossier(ve(enfants), h)),
    {
        let d = Node::Directory { children: enfants, horodatage: h };
        let ghost dv = d@;
        proof {
            assert(vue_chemin(p@).skip(0) =~= vue_chemin(p@));
            assert(bien_forme(dv));
        }
        let n = poser(trou, p, 0, d);
        proof {
            if vue_chemin(p@).len() > 0 {
                assert(n@ is Dossier);
            }
        }
        self.root = n;
    }

    /// Crée (ou remplace) le fichier `nom` dans le répertoire courant.
    pub fn ecrire(&mut self, nom: &str, donnees: Vec<u8>, h: Horodatage) -> (r: (bool, Vec<(u64, Vec<u8>)>))
        ensures
            final(self)@.cwd == old(self)@.cwd,
            r.0 == dossier_a(old(self)@.racine, old(self)@.cwd) is Some,
            r.0 ==> final(self)@.racine == avec_entrees(
                old(self)@.racine,
                old(self)@.cwd,
                inserer_enfant(
                    dossier_a(old(self)@.racine, old(self)@.cwd).unwrap().0,
                    nom@,
                    NoeudV::Fichier(donnees@, h),
                ),
            ),
            !r.0 ==> final(self)@.racine == old(self)@.racine,
            sync_si(r.0, final(self)@.racine, r.1@),
    {
        let r = self.ecrire_arbre(nom, donnees, h);
        if r {
            (r, self.synchroniser_sur_disque())
        } else {
            (r, Vec::new())
        }
    }

    /// Modification de l'arbre faite par `ecrire`, sans la synchronisation.
    fn ecrire_arbre(&mut self, nom: &str, donnees: Vec<u8>, h: Horodatage) -> (r: bool)
        ensures
            final(self)@.cwd == old(self)@.cwd,
            r == dossier_a(old(self)@.racine, old(self)@.cwd) is Some,
            r ==> final(self)@.racine == avec_entrees(
                old(self)@.racine,
                old(self)@.cwd,
                inserer_enfant(
                    dossier_a(old(self)@.racine, old(self)@.cwd).unwrap().0,
                    nom@,
                    NoeudV::Fichier(donnees@, h),
                ),
            ),
            !r ==> final(self)@.racine == old(self)@.racine,
    {
        proof {
            use_type_invariant(&*self);
        }
        let cwd = cloner_chemin(&self.cwd);
        match self.ouvrir_dossier(&cwd) {
            Some((trou, mut enfants, hd)) => {
                let f = Node::nouveau_fichier(donnees, h);
                inserer_entree(&mut enfants, vers_chaine(nom), f);
                self.fermer_dossier(trou, &cwd, enfants, hd);
                proof {
                    lemme_remplacer_deux_fois(
                        old(self)@.racine,
                        vue_chemin(cwd@),
                        vide_v(),
                        NoeudV::Dossier(ve(enfants), hd),
                    );
                }
                true
            },
            None => false,
        }
    }

    /// Contenu du fichier `nom` du répertoire courant.
    pub fn lire(&self, nom: &str) -> (r: Option<Vec<u8>>)
        ensures
            match lire_v(self@, nom@) {
                Some(d) => r matches Some(v) && v@ == d,
                None => r is None,
            },
    {
        proof {
            use_type_invariant(self);
        }
        match acceder(&self.root, &self.cwd) {
            Some(Node::Directory { children, .. }) => {
                proof {
                    lemme_vue_enfants(children@);
                    lemme_acces_bien_forme(self.root@, vue_chemin(self.cwd@));
                }
                match arbre::chercher(children, nom) {
                    Some(i) => match &children[i].1 {
                        Node::File { data, .. } => Some(cloner_octets(data)),
                        Node::Directory { .. } => None,
                    },
                    None => None,
                }
            },
            _ => None,
        }
    }
}


/// Description d'entrées de répertoire : (nom, taille, est_dossier, horodatage).
pub open spec fn decrit(r: Seq<(String, usize, bool, Horodatage)>, enf: Seq<(Seq<char>, NoeudV)>) -> bool {
    r.len() == enf.len() && forall|i: int|
        0 <= i < enf.len() ==> {
            &&& (#[trigger] r[i]).0@ == enf[i].0
            &&& r[i].1 == taille_v(enf[i].1)
            &&& r[i].2 == (enf[i].1 is Dossier)
            &&& r[i].3 == horodatage_v(enf[i].1)
        }
}

/// Entrées d'un répertoire : (nom, taille, est_dossier, horodatage).
fn entrees_de(children: &Vec<(String, Node)>) -> (r: Vec<(String, usize, bool, Horodatage)>)
    ensures
        decrit(r@, ve(*children)),
{
    proof {
        lemme_vue_enfants(children@);
    }
    let mut resultats: Vec<(String, usize, bool, Horodatage)> = Vec::new();
    let mut i: usize = 0;
    while i < children.len()
        invariant
            i <= children.len(),
            resultats@.len() == i,
            ve(*children).len() == children@.len(),
            forall|j: int|
                0 <= j < children@.len() ==> #[trigger] ve(*children)[j] == (
                    children@[j].0@,
                    vue_noeud(children@[j].1),
                ),
            forall|j: int|
                0 <= j < i ==> {
                    &&& (#[trigger] resultats@[j]).0@ == ve(*children)[j].0
                    &&& resultats@[j].1 == taille_v(ve(*children)[j].1)
                    &&& resultats@[j].2 == (ve(*children)[j].1 is Dossier)
                    &&& resultats@[j].3 == horodatage_v(ve(*children)[j].1)
                },
        decreases children.len() - i,
    {
        let noeud = &children[i].1;
        let (taille, est_dossier) = match noeud {
            Node::File { data, .. } => (data.len(), false),
            Node::Directory { children: c, .. } => {
                proof {
                    lemme_vue_enfants(c@);
                }
                (c.len(), true)
            },
        };
        resultats.push((children[i].0.clone(), taille, est_dossier, noeud.horodatage()));
        i = i + 1;
    }
    resultats
}

impl FileSystem {
    /// Entrées du répertoire courant : (nom, taille, est_dossier, horodatage), par nom croissant.
    pub fn lister_courant(&self) -> (r: Vec<(String, usize, bool, Horodatage)>)
        ensures
            match dossier_a(self@.racine, self@.cwd) {
                Some((enf, _)) => r@.len() == enf.len() && forall|i: int|
                    0 <= i < enf.len() ==> {
                        &&& (#[trigger] r@[i]).0@ == enf[i].0
                        &&& r@[i].1 == taille_v(enf[i].1)
                        &&& r@[i].2 == (enf[i].1 is Dossier)
                        &&& r@[i].3 == horodatage_v(enf[i].1)
                    },
                None => r@.len() == 0,
            },
    {
        proof {
            use_type_invariant(self);
        }
        match acceder(&self.root, &self.cwd) {
            Some(Node::Directory { children, .. }) => entrees_de(children),
            _ => Vec::new(),
        }
    }

    /// Crée le sous-répertoire `nom` dans le répertoire courant, s'il n'existe pas déjà.
    pub fn creer_repertoire(&mut self, nom: &str, h: Horodatage) -> (r: (bool, Vec<(u64, Vec<u8>)>))
        ensures
            final(self)@.cwd == old(self)@.cwd,
            r.0 == (nom@.len() != 0 && dossier_a(old(self)@.racine, old(self)@.cwd) is Some && !a_enfant(
                dossier_a(old(self)@.racine, old(self)@.cwd).unwrap().0,
                nom@,
            )),
            r.0 ==> final(self)@.racine == avec_entrees(
                old(self)@.racine,
                old(self)@.cwd,
                inserer_enfant(
                    dossier_a(old(self)@.racine, old(self)@.cwd).unwrap().0,
                    nom@,
                    NoeudV::Dossier(Seq::empty(), h),
                ),
            ),
            !r.0 ==> final(self)@.racine == old(self)@.racine,
            sync_si(r.0, final(self)@.racine, r.1@),
    {
        let r = self.creer_repertoire_arbre(nom, h);
        if r {
            (r, self.synchroniser_sur_disque())
        } else {
            (r, Vec::new())
        }
    }

    /// Modification de l'arbre faite par `creer_repertoire`, sans la synchronisation.
    fn creer_repertoire_arbre(&mut self, nom: &str, h: Horodatage) -> (r: bool)
        ensures
            final(self)@.cwd == old(self)@.cwd,
            r == (nom@.len() != 0 && dossier_a(old(self)@.racine, old(self)@.cwd) is Some && !a_enfant(
                dossier_a(old(self)@.racine, old(self)@.cwd).unwrap().0,
                nom@,
            )),
            r ==> final(self)@.racine == avec_entrees(
                old(self)@.racine,
                old(self)@.cwd,
                inserer_enfant(
                    dossier_a(old(self)@.racine, old(self)@.cwd).unwrap().0,
                    nom@,
                    NoeudV::Dossier(Seq::empty(), h),
                ),
            ),
            !r ==> final(self)@.racine == old(self)@.racine,
    {
        proof {
            use_type_invariant(&*self);
        }
        if nom.unicode_len() == 0 {
            return false;
        }
        let cwd = cloner_chemin(&self.cwd);
        match self.ouvrir_dossier(&cwd) {
            Some((trou, mut enfants, hd)) => {
                let ghost e0 = ve(enfants);
                let existe = arbre::chercher(&enfants, nom).is_some();
                if !existe {
                    let d = Node::nouveau_dossier(h);
                    inserer_entree(&mut enfants, vers_chaine(nom), d);
                }
                self.fermer_dossier(trou, &cwd, enfants, hd);
                proof {
                    lemme_remplacer_deux_fois(
                        old(self)@.racine,
                        vue_chemin(cwd@),
                        vide_v(),
                        NoeudV::Dossier(ve(enfants), hd),
                    );
                    if existe {
                        arbre::lemme_remplacer_identite(old(self)@.racine, vue_chemin(cwd@));
                    }
                }
                !existe
            },
            None => false,
        }
    }

    /// Se place dans le répertoire désigné par `chemin`, s'il existe.
    pub fn changer_repertoire(&mut self, chemin: &str) -> (r: bool)
        ensures
            final(self)@.racine == old(self)@.racine,
            r == dossier_a(old(self)@.racine, resoudre(old(self)@.cwd, chemin@)) is Some,
            r ==> final(self)@.cwd == resoudre(old(self)@.cwd, chemin@),
            !r ==> final(self)@.cwd == old(self)@.cwd,
    {
        proof {
            use_type_invariant(&*self);
        }
        let cible = self.resoudre_chemin(chemin);
        let ok = match acceder(&self.root, &cible) {
            Some(n) => n.est_un_dossier(),
            None => false,
        };
        if ok {
            self.cwd = cible;
        }
        ok
    }

    /// Texte du répertoire courant ("/" à la racine, sinon "/a/b").
    pub fn obtenir_chemin_actuel(&self) -> (r: String)
        ensures
            r@ == chemin_texte(self@.cwd),
    {
        let mut s = String::new();
        if self.cwd.len() == 0 {
            pousser_car(&mut s, '/');
            return s;
        }
        let ghost p = vue_chemin(self.cwd@);
        let mut i: usize = 0;
        proof {
            assert(p.take(0) =~= Seq::<Seq<char>>::empty());
        }
        while i < self.cwd.len()
            invariant
                i <= self.cwd@.len(),
                p == vue_chemin(self.cwd@),
                s@ == joindre(p.take(i as int)),
            decreases self.cwd.len() - i,
        {
            pousser_car(&mut s, '/');
            s.append(self.cwd[i].as_str());
            proof {
                assert(p.take(i + 1).drop_last() =~= p.take(i as int));
                assert(s@ =~= joindre(p.take(i + 1)));
            }
            i = i + 1;
        }
        proof {
            assert(p.take(i as int) =~= p);
        }
        s
    }

    /// Supprime `nom` du répertoire courant, si son type est celui attendu.
    pub fn supprimer(&mut self, nom: &str, dossier_attendu: bool) -> (r: (Result<(), &'static str>, Vec<(u64, Vec<u8>)>))
        ensures
            final(self)@.cwd == old(self)@.cwd,
            r.0 is Ok ==> final(self)@.racine == avec_entrees(
                old(self)@.racine,
                old(self)@.cwd,
                retirer_enfant(dossier_a(old(self)@.racine, old(self)@.cwd).unwrap().0, nom@),
            ),
            r.0 is Err ==> final(self)@.racine == old(self)@.racine,
            r.0 == supprimer_resultat(old(self)@, nom@, dossier_attendu),
            sync_si(r.0 is Ok, final(self)@.racine, r.1@),
    {
        let r = self.supprimer_arbre(nom, dossier_attendu);
        if r.is_ok() {
            (r, self.synchroniser_sur_disque())
        } else {
            (r, Vec::new())
        }
    }

    /// Modification de l'arbre faite par `supprimer`, sans la synchronisation.
    fn supprimer_arbre(&mut self, nom: &str, dossier_attendu: bool) -> (r: Result<(), &'static str>)
        ensures
            final(self)@.cwd == old(self)@.cwd,
            r is Ok ==> final(self)@.racine == avec_entrees(
                old(self)@.racine,
                old(self)@.cwd,
                retirer_enfant(dossier_a(old(self)@.racine, old(self)@.cwd).unwrap().0, nom@),
            ),
            r is Err ==> final(self)@.racine == old(self)@.racine,
            r == supprimer_resultat(old(self)@, nom@, dossier_attendu),
    {
        proof {
            use_type_invariant(&*self);
        }
        let cwd = cloner_chemin(&self.cwd);
        match self.ouvrir_dossier(&cwd) {
            Some((trou, mut enfants, hd)) => {
                proof {
                    lemme_vue_enfants(enfants@);
                    lemme_enfants_bien_formes(ve(enfants));
                }
                let res: Result<(), &'static str> = match arbre::chercher(&enfants, nom) {
                    Some(i) => {
                        let est_dossier = enfants[i].1.est_un_dossier();
                        if est_dossier && !dossier_attendu {
                            Err("est_dossier")
                        } else if !est_dossier && dossier_attendu {
                            Err("est_fichier")
                        } else {
                            retirer_entree(&mut enfants, nom);
                            Ok(())
                        }
                    },
                    None => Err("introuvable"),
                };
                self.fermer_dossier(trou, &cwd, enfants, hd);
                proof {
                    lemme_remplacer_deux_fois(
                        old(self)@.racine,
                        vue_chemin(cwd@),
                        vide_v(),
                        NoeudV::Dossier(ve(enfants), hd),
                    );
                    if res is Err {
                        arbre::lemme_remplacer_identite(old(self)@.racine, vue_chemin(cwd@));
                    }
                }
                res
            },
            None => Err("erreur_fs"),
        }
    }

    /// Renomme `ancien` en `nouveau` dans le répertoire courant.
    pub fn renommer(&mut self, ancien: &str, nouveau: &str, dossier_attendu: bool) -> (r: (Result<(), &'static str>, Vec<(u64, Vec<u8>)>))
        ensures
            final(self)@.cwd == old(self)@.cwd,
            r.0 is Ok ==> final(self)@.racine == avec_entrees(
                old(self)@.racine,
                old(self)@.cwd,
                inserer_enfant(
                    retirer_enfant(dossier_a(old(self)@.racine, old(self)@.cwd).unwrap().0, ancien@),
                    nouveau@,
                    enfant(dossier_a(old(self)@.racine, old(self)@.cwd).unwrap().0, ancien@).unwrap(),
                ),
            ),
            r.0 is Err ==> final(self)@.racine == old(self)@.racine,
            r.0 == renommer_resultat(old(self)@, ancien@, nouveau@, dossier_attendu),
            sync_si(r.0 is Ok, final(self)@.racine, r.1@),
    {
        let r = self.renommer_arbre(ancien, nouveau, dossier_attendu);
        if r.is_ok() {
            (r, self.synchroniser_sur_disque())
        } else {
            (r, Vec::new())
        }
    }

    /// Modification de l'arbre faite par `renommer`, sans la synchronisation.
    fn renommer_arbre(&mut self, ancien: &str, nouveau: &str, dossier_attendu: bool) -> (r: Result<(), &'static str>)
        ensures
            final(self)@.cwd == old(self)@.cwd,
            r is Ok ==> final(self)@.racine == avec_entrees(
                old(self)@.racine,
                old(self)@.cwd,
                inserer_enfant(
                    retirer_enfant(dossier_a(old(self)@.racine, old(self)@.cwd).unwrap().0, ancien@),
                    nouveau@,
                    enfant(dossier_a(old(self)@.racine, old(self)@.cwd).unwrap().0, ancien@).unwrap(),
                ),
            ),
            r is Err ==> final(self)@.racine == old(self)@.racine,
            r == renommer_resultat(old(self)@, ancien@, nouveau@, dossier_attendu),
    {
        proof {
            use_type_invariant(&*self);
        }
        let cwd = cloner_chemin(&self.cwd);
        match self.ouvrir_dossier(&cwd) {
            Some((trou, mut enfants, hd)) => {
                proof {
                    lemme_vue_enfants(enfants@);
                    lemme_enfants_bien_formes(ve(enfants));
                }
                let ghost e0 = ve(enfants);
                let res: Result<(), &'static str> = if arbre::chercher(&enfants, nouveau).is_some() {
                    Err("existe_deja")
                } else {
                    match arbre::chercher(&enfants, ancien) {
                        Some(i) => {
                            let est_dossier = enfants[i].1.est_un_dossier();
                            if est_dossier && !dossier_attendu {
                                Err("est_dossier")
                            } else if !est_dossier && dossier_attendu {
                                Err("est_fichier")
                            } else {
                                match retirer_entree(&mut enfants, ancien) {
                                    Some((_, noeud)) => {
                                        inserer_entree(&mut enfants, vers_chaine(nouveau), noeud);
                                        Ok(())
                                    },
                                    None => Err("erreur_fs"),
                                }
                            }
                        },
                        None => Err("introuvable"),
                    }
                };
                self.fermer_dossier(trou, &cwd, enfants, hd);
                proof {
                    lemme_remplacer_deux_fois(
                        old(self)@.racine,
                        vue_chemin(cwd@),
                        vide_v(),
                        NoeudV::Dossier(ve(enfants), hd),
                    );
                    if res is Err {
                        arbre::lemme_remplacer_identite(old(self)@.racine, vue_chemin(cwd@));
                    }
                }
                res
            },
            None => Err("erreur_fs"),
        }
    }
}

impl FileSystem {
    /// Copie `source_str` vers `cible_str` (dans `cible_str` si c'est un répertoire existant).
    pub fn copier(&mut self, source_str: &str, cible_str: &str, recursif: bool) -> (r: (Result<(), VfsError>, Vec<(u64, Vec<u8>)>))
        ensures
            final(self)@.cwd == old(self)@.cwd,
            (final(self)@.racine, r.0) == copier_v(old(self)@, source_str@, cible_str@, recursif),
            sync_si(r.0 is Ok, final(self)@.racine, r.1@),
    {
        let r = self.copier_arbre(source_str, cible_str, recursif);
        if r.is_ok() {
            (r, self.synchroniser_sur_disque())
        } else {
            (r, Vec::new())
        }
    }

    /// Modification de l'arbre faite par `copier`, sans la synchronisation.
    fn copier_arbre(&mut self, source_str: &str, cible_str: &str, recursif: bool) -> (r: Result<(), VfsError>)
        ensures
            final(self)@.cwd == old(self)@.cwd,
            (final(self)@.racine, r) == copier_v(old(self)@, source_str@, cible_str@, recursif),
    {
        proof {
            use_type_invariant(&*self);
        }
        let chemin_src = self.resoudre_chemin(source_str);
        if chemin_src.len() == 0 {
            return Err(VfsError::SourceIntrouvable);
        }
        let noeud_a_copier = match acceder(&self.root, &chemin_src) {
            None => {
                return Err(VfsError::SourceIntrouvable);
            },
            Some(n) => {
                if n.est_un_dossier() && !recursif {
                    return Err(VfsError::EstUnRepertoire);
                }
                cloner_noeud(n)
            },
        };
        proof {
            lemme_acces_bien_forme(self@.racine, vue_chemin(chemin_src@));
        }
        let nom_source = chemin_src[chemin_src.len() - 1].clone();
        let mut chemin_dst = self.resoudre_chemin(cible_str);
        let dst_est_dossier = match acceder(&self.root, &chemin_dst) {
            Some(n) => n.est_un_dossier(),
            None => false,
        };
        if dst_est_dossier {
            let ghost avant = vue_chemin(chemin_dst@);
            chemin_dst.push(nom_source);
            proof {
                assert(vue_chemin(chemin_dst@) =~= avant.push(vue_chemin(chemin_src@).last()));
            }
        }
        if noeud_a_copier.est_un_dossier() && ops::est_descendant(
            chemin_src.as_slice(),
            chemin_dst.as_slice(),
        ) {
            return Err(VfsError::CycleDetecte);
        }
        if acceder(&self.root, &chemin_dst).is_some() {
            return Err(VfsError::CibleExisteDeja);
        }
        if chemin_dst.len() == 0 {
            return Err(VfsError::CheminInvalide);
        }
        let ghost cd = vue_chemin(chemin_dst@);
        let nom_final = chemin_dst.pop().unwrap();
        proof {
            assert(vue_chemin(chemin_dst@) =~= cd.drop_last());
        }
        match self.ouvrir_dossier(&chemin_dst) {
            Some((trou, mut enfants, hd)) => {
                inserer_entree(&mut enfants, nom_final, noeud_a_copier);
                self.fermer_dossier(trou, &chemin_dst, enfants, hd);
                proof {
                    lemme_remplacer_deux_fois(
                        old(self)@.racine,
                        vue_chemin(chemin_dst@),
                        vide_v(),
                        NoeudV::Dossier(ve(enfants), hd),
                    );
                }
                Ok(())
            },
            None => Err(VfsError::DestinationIntrouvable),
        }
    }

    /// Déplace `source_str` vers `cible_str` (dans `cible_str` si c'est un répertoire existant).
    pub fn deplacer(&mut self, source_str: &str, cible_str: &str) -> (r: (Result<(), VfsError>, Vec<(u64, Vec<u8>)>))
        ensures
            final(self)@.cwd == old(self)@.cwd,
            (final(self)@.racine, r.0) == deplacer_v(old(self)@, source_str@, cible_str@),
            sync_si(r.0 is Ok, final(self)@.racine, r.1@),
    {
        let r = self.deplacer_arbre(source_str, cible_str);
        if r.is_ok() {
            (r, self.synchroniser_sur_disque())
        } else {
            (r, Vec::new())
        }
    }

    /// Modification de l'arbre faite par `deplacer`, sans la synchronisation.
    fn deplacer_arbre(&mut self, source_str: &str, cible_str: &str) -> (r: Result<(), VfsError>)
        ensures
            final(self)@.cwd == old(self)@.cwd,
            (final(self)@.racine, r) == deplacer_v(old(self)@, source_str@, cible_str@),
    {
        proof {
            use_type_invariant(&*self);
        }
        let chemin_src = self.resoudre_chemin(source_str);
        if chemin_src.len() == 0 {
            return Err(VfsError::SourceIntrouvable);
        }
        let est_dossier = match acceder(&self.root, &chemin_src) {
            None => {
                return Err(VfsError::SourceIntrouvable);
            },
            Some(n) => n.est_un_dossier(),
        };
        let nom_source = chemin_src[chemin_src.len() - 1].clone();
        let mut chemin_dst = self.resoudre_chemin(cible_str);
        let dst_est_dossier = match acceder(&self.root, &chemin_dst) {
            Some(n) => n.est_un_dossier(),
            None => false,
        };
        if dst_est_dossier {
            let ghost avant = vue_chemin(chemin_dst@);
            chemin_dst.push(nom_source);
            proof {
                assert(vue_chemin(chemin_dst@) =~= avant.push(vue_chemin(chemin_src@).last()));
            }
        }
        if est_dossier && ops::est_descendant(chemin_src.as_slice(), chemin_dst.as_slice()) {
            return Err(VfsError::CycleDetecte);
        }
        if acceder(&self.root, &chemin_dst).is_some() {
            return Err(VfsError::CibleExisteDeja);
        }
        if chemin_dst.len() == 0 {
            return Err(VfsError::CheminInvalide);
        }
        let ghost cd = vue_chemin(chemin_dst@);
        let nom_final = chemin_dst.pop().unwrap();
        proof {
            assert(vue_chemin(chemin_dst@) =~= cd.drop_last());
        }
        if acceder(&self.root, &chemin_dst).is_none() {
            return Err(VfsError::DestinationIntrouvable);
        }
        let mut parent_src = cloner_chemin(&chemin_src);
        let ghost cs = vue_chemin(chemin_src@);
        let nom_src = parent_src.pop().unwrap();
        proof {
            assert(vue_chemin(parent_src@) =~= cs.drop_last());
        }
        let extrait = match self.ouvrir_dossier(&parent_src) {
            Some((trou, mut enfants, hd)) => {
                let pris = retirer_entree(&mut enfants, nom_src.as_str());
                self.fermer_dossier(trou, &parent_src, enfants, hd);
                proof {
                    lemme_remplacer_deux_fois(
                        old(self)@.racine,
                        vue_chemin(parent_src@),
                        vide_v(),
                        NoeudV::Dossier(ve(enfants), hd),
                    );
                }
                match pris {
                    Some((_, n)) => n,
                    None => {
                        proof {
                            lemme_remplacer_identite(old(self)@.racine, vue_chemin(parent_src@));
                        }
                        return Err(VfsError::SourceIntrouvable);
                    },
                }
            },
            None => {
                return Err(VfsError::SourceIntrouvable);
            },
        };
        let ghost r1 = self@.racine;
        proof {
            use_type_invariant(&*self);
            arbre::lemme_acces_parent(old(self)@.racine, cs);
        }
        match self.ouvrir_dossier(&chemin_dst) {
            Some((trou, mut enfants, hd)) => {
                inserer_entree(&mut enfants, nom_final, extrait);
                self.fermer_dossier(trou, &chemin_dst, enfants, hd);
                proof {
                    lemme_remplacer_deux_fois(
                        r1,
                        vue_chemin(chemin_dst@),
                        vide_v(),
                        NoeudV::Dossier(ve(enfants), hd),
                    );
                }
                Ok(())
            },
            None => Err(VfsError::DestinationIntrouvable),
        }
    }
}

/// Chemin d'arrivée : dans `cd` si c'est un répertoire existant, sinon `cd` lui-même.
pub open spec fn arrivee(racine: NoeudV, cd: Seq<Seq<char>>, nom: Seq<char>) -> Seq<Seq<char>> {
    if dossier_a(racine, cd) is Some {
        cd.push(nom)
    } else {
        cd
    }
}

/// Règles d'une copie : arbre obtenu et issue.
pub open spec fn copier_v(v: VueFs, source: Seq<char>, cible: Seq<char>, recursif: bool) -> (
    NoeudV,
    Result<(), VfsError>,
) {
    let r = v.racine;
    let cs = resoudre(v.cwd, source);
    if cs.len() == 0 {
        (r, Err(VfsError::SourceIntrouvable))
    } else {
        match acces(r, cs) {
            None => (r, Err(VfsError::SourceIntrouvable)),
            Some(x) => if (x is Dossier) && !recursif {
                (r, Err(VfsError::EstUnRepertoire))
            } else {
                let cd = arrivee(r, resoudre(v.cwd, cible), cs.last());
                if (x is Dossier) && ops::est_descendant_v(cs, cd) {
                    (r, Err(VfsError::CycleDetecte))
                } else if acces(r, cd) is Some {
                    (r, Err(VfsError::CibleExisteDeja))
                } else if cd.len() == 0 {
                    (r, Err(VfsError::CheminInvalide))
                } else {
                    match dossier_a(r, cd.drop_last()) {
                        Some((enf, _)) => (
                            avec_entrees(r, cd.drop_last(), inserer_enfant(enf, cd.last(), x)),
                            Ok(()),
                        ),
                        None => (r, Err(VfsError::DestinationIntrouvable)),
                    }
                }
            },
        }
    }
}

/// Règles d'un déplacement : arbre obtenu et issue.
pub open spec fn deplacer_v(v: VueFs, source: Seq<char>, cible: Seq<char>) -> (
    NoeudV,
    Result<(), VfsError>,
) {
    let r = v.racine;
    let cs = resoudre(v.cwd, source);
    if cs.len() == 0 {
        (r, Err(VfsError::SourceIntrouvable))
    } else {
        match acces(r, cs) {
            None => (r, Err(VfsError::SourceIntrouvable)),
            Some(x) => {
                let cd = arrivee(r, resoudre(v.cwd, cible), cs.last());
                if (x is Dossier) && ops::est_descendant_v(cs, cd) {
                    (r, Err(VfsError::CycleDetecte))
                } else if acces(r, cd) is Some {
                    (r, Err(VfsError::CibleExisteDeja))
                } else if cd.len() == 0 {
                    (r, Err(VfsError::CheminInvalide))
                } else if acces(r, cd.drop_last()) is None {
                    (r, Err(VfsError::DestinationIntrouvable))
                } else {
                    match dossier_a(r, cs.drop_last()) {
                        None => (r, Err(VfsError::SourceIntrouvable)),
                        Some((enf, _)) => if !a_enfant(enf, cs.last()) {
                            (r, Err(VfsError::SourceIntrouvable))
                        } else {
                            let r1 = avec_entrees(r, cs.drop_last(), retirer_enfant(enf, cs.last()));
                            match dossier_a(r1, cd.drop_last()) {
                                Some((enf2, _)) => (
                                    avec_entrees(r1, cd.drop_last(), inserer_enfant(enf2, cd.last(), x)),
                                    Ok(()),
                                ),
                                None => (r1, Err(VfsError::DestinationIntrouvable)),
                            }
                        },
                    }
                }
            },
        }
    }
}

// ---------------------------------------------------------------------------
// Persistance : entrées à plat, flux d'octets, secteurs
// ---------------------------------------------------------------------------

/// Entrée à plat du VFS : (chemin sans '/' initial, est_dossier, données, horodatage).
pub type EntreeV = (Seq<char>, bool, Seq<u8>, Horodatage);

pub open spec fn vue_entree(e: (String, bool, Vec<u8>, Horodatage)) -> EntreeV {
    (e.0@, e.1, e.2@, e.3)
}

pub open spec fn vue_entrees(s: Seq<(String, bool, Vec<u8>, Horodatage)>) -> Seq<EntreeV> {
    s.map_values(|e: (String, bool, Vec<u8>, Horodatage)| vue_entree(e))
}

pub open spec fn prefixer(prefixe: Seq<char>, nom: Seq<char>) -> Seq<char> {
    if prefixe.len() == 0 {
        nom
    } else {
        prefixe + seq!['/'] + nom
    }
}

/// Parcours en profondeur (préordre, entrées par nom croissant) de tout ce que contient `n`.
pub open spec fn collecter(n: NoeudV, prefixe: Seq<char>) -> Seq<EntreeV>
    decreases n,
{
    match n {
        NoeudV::Fichier(_, _) => Seq::empty(),
        NoeudV::Dossier(enf, _) => collecter_liste(enf, prefixe),
    }
}

pub open spec fn collecter_liste(enf: Seq<(Seq<char>, NoeudV)>, prefixe: Seq<char>) -> Seq<EntreeV>
    decreases enf,
{
    if enf.len() == 0 {
        Seq::empty()
    } else {
        let e = enf.last();
        let chemin = prefixer(prefixe, e.0);
        collecter_liste(enf.drop_last(), prefixe) + match e.1 {
            NoeudV::Dossier(_, h) => seq![(chemin, true, Seq::<u8>::empty(), h)] + collecter(e.1, chemin),
            NoeudV::Fichier(d, h) => seq![(chemin, false, d, h)],
        }
    }
}

/// Octets d'une entrée dans le flux : type, h, m, s, longueur du chemin (16 bits), chemin UTF-8,
/// puis pour un fichier longueur des données (32 bits) et données.
pub open spec fn encoder_entree(e: EntreeV) -> Seq<u8> {
    let chemin = vstd::utf8::encode_utf8(e.0);
    seq![if e.1 { 1u8 } else { 0u8 }, e.3.heure, e.3.minute, e.3.seconde] + crate::octets::le16(
        chemin.len() as u16,
    ) + chemin + if e.1 {
        Seq::<u8>::empty()
    } else {
        crate::octets::le32(e.2.len() as u32) + e.2
    }
}

pub open spec fn encoder_flux(s: Seq<EntreeV>) -> Seq<u8>
    decreases s.len(),
{
    if s.len() == 0 {
        Seq::empty()
    } else {
        encoder_flux(s.drop_last()) + encoder_entree(s.last())
    }
}

/// Flux complet du VFS.
pub open spec fn flux_v(racine: NoeudV) -> Seq<u8> {
    encoder_flux(collecter(racine, Seq::empty()))
}

pub open spec fn magic_fs() -> Seq<u8> {
    seq![81u8, 66u8, 88u8, 95u8, 70u8, 83u8, 95u8, 86u8, 49u8, 0u8, 0u8, 0u8]
}

/// Secteur `i` (512 octets) d'un flux, complété par des zéros.
pub open spec fn secteur_v(flux: Seq<u8>, i: int) -> Seq<u8> {
    Seq::new(512, |j: int| if 512 * i + j < flux.len() { flux[512 * i + j] } else { 0u8 })
}

/// Superbloc : signature, taille du flux, nombre d'entrées, nombre de secteurs.
pub open spec fn superbloc_v(taille: u32, nb_entrees: u32, nb_secteurs: u32) -> Seq<u8> {
    magic_fs() + crate::octets::le32(taille) + crate::octets::le32(nb_entrees) + crate::octets::le32(
        nb_secteurs,
    ) + Seq::new(488, |i: int| 0u8)
}

pub const LBA_FS_SUPERBLOC: u64 = 65;

pub const LBA_FS_DATA_DEBUT: u64 = 66;

/// Nombre de secteurs de données écrits pour un flux (aucun si le compte tronqué à 32 bits est nul).
pub open spec fn nb_ecritures_v(flux: Seq<u8>) -> nat {
    if nb_secteurs_v(flux.len() as u32) > 0 {
        (flux.len() + 511) / 512
    } else {
        0
    }
}

/// Nombre de secteurs pour un flux de `taille` octets.
pub open spec fn nb_secteurs_v(taille: u32) -> u32 {
    if taille == 0 {
        0
    } else {
        ((taille + 511) / 512) as u32
    }
}

fn encoder_une(flux: &mut Vec<u8>, e: &(String, bool, Vec<u8>, Horodatage))
    ensures
        final(flux)@ == old(flux)@ + encoder_entree(vue_entree(*e)),
{
    flux.push(if e.1 { 1u8 } else { 0u8 });
    flux.push(e.3.heure);
    flux.push(e.3.minute);
    flux.push(e.3.seconde);
    let octets = e.0.as_str().as_bytes();
    crate::octets::pousser_le16(flux, octets.len() as u16);
    crate::octets::etendre(flux, octets);
    if !e.1 {
        crate::octets::pousser_le32(flux, e.2.len() as u32);
        crate::octets::etendre(flux, e.2.as_slice());
    }
    assert(final(flux)@ =~= old(flux)@ + encoder_entree(vue_entree(*e)));
}

/// Flux d'octets d'une liste d'entrées.
pub fn encoder_entrees(entrees: &Vec<(String, bool, Vec<u8>, Horodatage)>) -> (r: Vec<u8>)
    ensures
        r@ == encoder_flux(vue_entrees(entrees@)),
{
    let mut flux: Vec<u8> = Vec::new();
    let ghost v = vue_entrees(entrees@);
    let mut i: usize = 0;
    proof {
        assert(v.take(0) =~= Seq::<EntreeV>::empty());
    }
    while i < entrees.len()
        invariant
            i <= entrees.len(),
            v == vue_entrees(entrees@),
            flux@ == encoder_flux(v.take(i as int)),
        decreases entrees.len() - i,
    {
        encoder_une(&mut flux, &entrees[i]);
        proof {
            assert(v.take(i + 1).drop_last() =~= v.take(i as int));
            assert(v.take(i + 1).last() == vue_entree(entrees@[i as int]));
        }
        i = i + 1;
    }
    proof {
        assert(v.take(i as int) =~= v);
    }
    flux
}

/// Découpe d'un flux en secteurs de 512 octets (le dernier complété par des zéros).
pub fn decouper_secteurs(flux: &Vec<u8>) -> (r: Vec<Vec<u8>>)
    ensures
        r@.len() == (flux@.len() + 511) / 512,
        forall|i: int| 0 <= i < r@.len() ==> (#[trigger] r@[i])@ == secteur_v(flux@, i),
{
    let mut r: Vec<Vec<u8>> = Vec::new();
    let n = flux.len();
    let nb: usize = n / 512 + if n % 512 == 0 { 0 } else { 1 };
    assert(nb == (n + 511) / 512);
    let mut i: usize = 0;
    while i < nb
        invariant
            n == flux@.len(),
            nb == (n + 511) / 512,
            i <= nb,
            r@.len() == i,
            forall|k: int| 0 <= k < r@.len() ==> (#[trigger] r@[k])@ == secteur_v(flux@, k),
        decreases nb - i,
    {
        let base: usize = 512 * i;
        let mut s: Vec<u8> = Vec::new();
        let mut j: usize = 0;
        while j < 512
            invariant
                n == flux@.len(),
                base == 512 * i,
                base < n,
                j <= 512,
                s@.len() == j,
                forall|k: int|
                    0 <= k < j ==> #[trigger] s@[k] == (if base + k < n {
                        flux@[base + k]
                    } else {
                        0u8
                    }),
            decreases 512 - j,
        {
            if j < n - base {
                s.push(flux[base + j]);
            } else {
                s.push(0u8);
            }
            j = j + 1;
        }
        proof {
            assert(s@ =~= secteur_v(flux@, i as int));
        }
        r.push(s);
        i = i + 1;
    }
    r
}

impl FileSystem {
    /// Ajoute à `sortie` toutes les entrées sous `noeud`, chemins préfixés par `prefixe`.
    fn collecter_entrees(
        &self,
        noeud: &Node,
        prefixe: &str,
        sortie: &mut Vec<(String, bool, Vec<u8>, Horodatage)>,
    )
        ensures
            vue_entrees(final(sortie)@) == vue_entrees(old(sortie)@) + collecter(noeud@, prefixe@),
        decreases noeud,
    {
        match noeud {
            Node::File { .. } => {
                assert(vue_entrees(final(sortie)@) =~= vue_entrees(old(sortie)@) + collecter(noeud@, prefixe@));
            },
            Node::Directory { children, horodatage } => {
                proof {
                    lemme_vue_enfants(children@);
                }
                let ghost enf = ve(*children);
                let mut i: usize = 0;
                proof {
                    assert(enf.take(0) =~= Seq::<(Seq<char>, NoeudV)>::empty());
                    assert(vue_entrees(sortie@) =~= vue_entrees(old(sortie)@) + collecter_liste(enf.take(0), prefixe@));
                }
                while i < children.len()
                    invariant
                        i <= children.len(),
                        *noeud == (Node::Directory { children: *children, horodatage: *horodatage }),
                        enf == ve(*children),
                        enf.len() == children@.len(),
                        forall|j: int|
                            0 <= j < children@.len() ==> #[trigger] enf[j] == (
                                children@[j].0@,
                                vue_noeud(children@[j].1),
                            ),
                        vue_entrees(sortie@) == vue_entrees(old(sortie)@) + collecter_liste(
                            enf.take(i as int),
                            prefixe@,
                        ),
                    decreases children.len() - i,
                {
                    let nom = &children[i].0;
                    let enfant_i = &children[i].1;
                    let mut chemin = vers_chaine(prefixe);
                    if prefixe.unicode_len() != 0 {
                        pousser_car(&mut chemin, '/');
                    }
                    chemin.append(nom.as_str());
                    proof {
                        assert(chemin@ =~= prefixer(prefixe@, nom@));
                        assert(enf.take(i + 1).drop_last() =~= enf.take(i as int));
                        assert(enf.take(i + 1).last() == enf[i as int]);
                    }
                    let h = enfant_i.horodatage();
                    let ghost avant = vue_entrees(sortie@);
                    match enfant_i {
                        Node::Directory { .. } => {
                            let copie = chemin.clone();
                            sortie.push((copie, true, Vec::new(), h));
                            proof {
                                assert(vue_entrees(sortie@) =~= avant.push((chemin@, true, Seq::<u8>::empty(), h)));
                                let e = children@[i as int];
                                assert(decreases_to!(children@ => e));
                                assert(decreases_to!(e => e.1));
                                assert(decreases_to!(*children => children@));
                                assert((*noeud)->children == *children);
                                assert(decreases_to!(*noeud => (*noeud)->children));
                            }
                            let ghost apres_push = vue_entrees(sortie@);
                            self.collecter_entrees(enfant_i, chemin.as_str(), sortie);
                            proof {
                                let e = enf[i as int];
                                assert(e.1 == enfant_i@);
                                assert(e.1 is Dossier);
                                assert(horodatage_v(e.1) == h);
                                let bloc = seq![(chemin@, true, Seq::<u8>::empty(), h)] + collecter(e.1, chemin@);
                                assert(collecter_liste(enf.take(i + 1), prefixe@) == collecter_liste(
                                    enf.take(i as int),
                                    prefixe@,
                                ) + bloc);
                                assert(vue_entrees(sortie@) == apres_push + collecter(e.1, chemin@));
                                assert(apres_push + collecter(e.1, chemin@) =~= avant + bloc);
                                assert(vue_entrees(sortie@) =~= vue_entrees(old(sortie)@) + collecter_liste(
                                    enf.take(i + 1),
                                    prefixe@,
                                ));
                            }
                        },
                        Node::File { data, .. } => {
                            let copie = cloner_octets(data);
                            let ghost cv = copie@;
                            let ghost chv = chemin@;
                            sortie.push((chemin, false, copie, h));
                            proof {
                                assert(vue_entrees(sortie@) =~= avant.push((chv, false, cv, h)));
                                let e = enf[i as int];
                                assert(e.1 == enfant_i@);
                                assert(e.1 == NoeudV::Fichier(data@, h));
                                assert(collecter_liste(enf.take(i + 1), prefixe@) == collecter_liste(
                                    enf.take(i as int),
                                    prefixe@,
                                ) + seq![(chemin@, false, data@, h)]);
                                assert(vue_entrees(sortie@) =~= vue_entrees(old(sortie)@) + collecter_liste(
                                    enf.take(i + 1),
                                    prefixe@,
                                ));
                            }
                        },
                    }
                    i = i + 1;
                }
                proof {
                    assert(enf.take(i as int) =~= enf);
                }
            },
        }
    }

    /// Toutes les entrées du VFS, dans l'ordre d'écriture sur disque.
    pub fn entrees(&self) -> (r: Vec<(String, bool, Vec<u8>, Horodatage)>)
        ensures
            vue_entrees(r@) == collecter(self@.racine, Seq::empty()),
    {
        let mut r: Vec<(String, bool, Vec<u8>, Horodatage)> = Vec::new();
        self.collecter_entrees(&self.root, "", &mut r);
        proof {
            assert(vue_entrees(Seq::<(String, bool, Vec<u8>, Horodatage)>::empty()) =~= Seq::<EntreeV>::empty());
            assert(""@ =~= Seq::<char>::empty()) by {
                reveal_strlit("");
            }
            assert(vue_entrees(r@) =~= collecter(self@.racine, Seq::empty()));
        }
        r
    }

    /// Écritures à faire sur /var pour persister le VFS : (LBA, secteur) des données, puis le superbloc.
    pub fn synchroniser_sur_disque(&self) -> (r: Vec<(u64, Vec<u8>)>)
        ensures
            r@.len() == nb_ecritures_v(flux_v(self@.racine)) + 1,
            forall|i: int|
                0 <= i < r@.len() - 1 ==> (#[trigger] r@[i]).0 == LBA_FS_DATA_DEBUT + i && r@[i].1@
                    == secteur_v(flux_v(self@.racine), i),
            r@.last().0 == LBA_FS_SUPERBLOC,
            r@.last().1@ == superbloc_v(
                flux_v(self@.racine).len() as u32,
                collecter(self@.racine, Seq::empty()).len() as u32,
                nb_secteurs_v(flux_v(self@.racine).len() as u32),
            ),
    {
        let entrees = self.entrees();
        let flux = encoder_entrees(&entrees);
        proof {
            assert(vue_entrees(entrees@).len() == entrees@.len());
        }
        let n_flux: usize = flux.len();
        let taille_flux = n_flux as u32;
        let nb_entrees = entrees.len() as u32;
        let nb_secteurs: u32 = if taille_flux == 0 {
            0u32
        } else {
            ((taille_flux as u64 + 511) / 512) as u32
        };
        let mut ecritures: Vec<(u64, Vec<u8>)> = Vec::new();
        if nb_secteurs > 0 {
            let secteurs = decouper_secteurs(&flux);
            let mut i: usize = 0;
            while i < secteurs.len()
                invariant
                    i <= secteurs@.len(),
                    secteurs@.len() == (flux@.len() + 511) / 512,
                    n_flux == flux@.len(),
                    ecritures@.len() == i,
                    forall|k: int| 0 <= k < secteurs@.len() ==> (#[trigger] secteurs@[k])@ == secteur_v(flux@, k),
                    forall|k: int|
                        0 <= k < i ==> (#[trigger] ecritures@[k]).0 == LBA_FS_DATA_DEBUT + k
                            && ecritures@[k].1@ == secteur_v(flux@, k),
                decreases secteurs.len() - i,
            {
                let copie = cloner_octets(&secteurs[i]);
                proof {
                    assert(flux@.len() == n_flux);
                    assert(i < (usize::MAX as int + 511) / 512);
                    assert(i as u64 + 66 < 0x1_0000_0000_0000_0000);
                }
                ecritures.push((LBA_FS_DATA_DEBUT + (i as u64), copie));
                i = i + 1;
            }
        }
        let mut sb: Vec<u8> = Vec::new();
        let mut k: usize = 0;
        while k < 12
            invariant
                k <= 12,
                sb@ == magic_fs().take(k as int),
            decreases 12 - k,
        {
            let octet: u8 = if k == 0 {
                81u8
            } else if k == 1 {
                66u8
            } else if k == 2 {
                88u8
            } else if k == 3 || k == 6 {
                95u8
            } else if k == 4 {
                70u8
            } else if k == 5 {
                83u8
            } else if k == 7 {
                86u8
            } else if k == 8 {
                49u8
            } else {
                0u8
            };
            sb.push(octet);
            k = k + 1;
            assert(sb@ =~= magic_fs().take(k as int));
        }
        crate::octets::pousser_le32(&mut sb, taille_flux);
        crate::octets::pousser_le32(&mut sb, nb_entrees);
        crate::octets::pousser_le32(&mut sb, nb_secteurs);
        let reste = crate::octets::zeros(488);
        crate::octets::etendre(&mut sb, reste.as_slice());
        proof {
            assert(magic_fs().take(12) =~= magic_fs());
            assert(sb@ =~= superbloc_v(taille_flux, nb_entrees, nb_secteurs));
        }
        ecritures.push((LBA_FS_SUPERBLOC, sb));
        ecritures
    }
}

// ---------------------------------------------------------------------------
// Persistance : relecture
// ---------------------------------------------------------------------------

/// Entrées lues dans un flux, jusqu'à la fin ou jusqu'à la première entrée incomplète ou invalide.
pub open spec fn decoder_flux(f: Seq<u8>) -> Seq<EntreeV>
    decreases f.len(),
{
    if f.len() < 6 {
        Seq::empty()
    } else {
        let pl = crate::octets::val16(f[4], f[5]);
        let reste = f.skip(6);
        if pl > reste.len() {
            Seq::empty()
        } else {
            let pb = reste.take(pl as int);
            if !vstd::utf8::valid_utf8(pb) {
                Seq::empty()
            } else {
                let ch = vstd::utf8::decode_utf8(pb);
                let h = Horodatage { heure: f[1], minute: f[2], seconde: f[3] };
                let r2 = reste.skip(pl as int);
                if f[0] == 1 {
                    seq![(ch, true, Seq::<u8>::empty(), h)] + decoder_flux(r2)
                } else if r2.len() < 4 {
                    Seq::empty()
                } else {
                    let dl = crate::octets::val32(r2[0], r2[1], r2[2], r2[3]);
                    let r3 = r2.skip(4);
                    if dl > r3.len() {
                        Seq::empty()
                    } else {
                        seq![(ch, false, r3.take(dl as int), h)] + decoder_flux(r3.skip(dl as int))
                    }
                }
            }
        }
    }
}

/// Insertion d'un nœud à un chemin absolu, en créant les dossiers intermédiaires manquants.
pub open spec fn inserer_chemin(
    n: NoeudV,
    p: Seq<Seq<char>>,
    est_dossier: bool,
    data: Seq<u8>,
    h: Horodatage,
) -> NoeudV
    decreases p.len(),
{
    if p.len() == 0 {
        n
    } else {
        match n {
            NoeudV::Fichier(_, _) => n,
            NoeudV::Dossier(enf, hd) => if p.len() == 1 {
                if est_dossier {
                    if a_enfant(enf, p[0]) {
                        n
                    } else {
                        NoeudV::Dossier(inserer_enfant(enf, p[0], NoeudV::Dossier(Seq::empty(), h)), hd)
                    }
                } else {
                    NoeudV::Dossier(inserer_enfant(enf, p[0], NoeudV::Fichier(data, h)), hd)
                }
            } else {
                let enf1 = if a_enfant(enf, p[0]) {
                    enf
                } else {
                    inserer_enfant(enf, p[0], NoeudV::Dossier(Seq::empty(), h))
                };
                let c = enfant(enf1, p[0]).unwrap();
                NoeudV::Dossier(
                    inserer_enfant(enf1, p[0], inserer_chemin(c, p.drop_first(), est_dossier, data, h)),
                    hd,
                )
            },
        }
    }
}

pub open spec fn appliquer_entree(r: NoeudV, e: EntreeV) -> NoeudV {
    inserer_chemin(r, path::parties(e.0), e.1, e.2, e.3)
}

/// Arbre obtenu en insérant les entrées dans l'ordre.
pub open spec fn restaurer(r: NoeudV, s: Seq<EntreeV>) -> NoeudV
    decreases s.len(),
{
    if s.len() == 0 {
        r
    } else {
        restaurer(appliquer_entree(r, s[0]), s.drop_first())
    }
}

/// Valeurs d'un superbloc accepté : (taille du flux, nombre d'entrées, nombre de secteurs).
pub open spec fn superbloc_valide(sb: Seq<u8>) -> Option<(nat, nat, nat)> {
    let taille = crate::octets::val32(sb[12], sb[13], sb[14], sb[15]);
    let nb = crate::octets::val32(sb[16], sb[17], sb[18], sb[19]);
    let nbs = crate::octets::val32(sb[20], sb[21], sb[22], sb[23]);
    if sb.take(12) != magic_fs() {
        None
    } else if nb == 0 || taille == 0 {
        None
    } else if taille > 16 * 1024 * 1024 || nbs != (taille + 511) / 512 {
        None
    } else {
        Some((taille, nb, nbs))
    }
}

/// Contrôle du superbloc du VFS ; rend (taille du flux, nombre d'entrées, nombre de secteurs).
pub fn analyser_superbloc(sb: &[u8]) -> (r: Option<(usize, usize, usize)>)
    requires
        sb@.len() == 512,
    ensures
        match superbloc_valide(sb@) {
            Some((t, n, s)) => r == Some((t as usize, n as usize, s as usize)),
            None => r is None,
        },
{
    let mut k: usize = 0;
    while k < 12
        invariant
            k <= 12,
            sb@.len() == 512,
            sb@.take(k as int) == magic_fs().take(k as int),
        decreases 12 - k,
    {
        let attendu: u8 = if k == 0 {
            81u8
        } else if k == 1 {
            66u8
        } else if k == 2 {
            88u8
        } else if k == 3 || k == 6 {
            95u8
        } else if k == 4 {
            70u8
        } else if k == 5 {
            83u8
        } else if k == 7 {
            86u8
        } else if k == 8 {
            49u8
        } else {
            0u8
        };
        if sb[k] != attendu {
            proof {
                assert(sb@.take(12)[k as int] != magic_fs()[k as int]);
            }
            return None;
        }
        k = k + 1;
        assert(sb@.take(k as int) =~= magic_fs().take(k as int));
    }
    proof {
        assert(magic_fs().take(12) =~= magic_fs());
    }
    let taille = crate::octets::lire_le32(sb[12], sb[13], sb[14], sb[15]) as usize;
    let nb = crate::octets::lire_le32(sb[16], sb[17], sb[18], sb[19]) as usize;
    let nbs = crate::octets::lire_le32(sb[20], sb[21], sb[22], sb[23]) as usize;
    if nb == 0 || taille == 0 {
        return None;
    }
    if taille > 16 * 1024 * 1024 || nbs != (taille + 511) / 512 {
        return None;
    }
    Some((taille, nb, nbs))
}

/// Insère, le long de `p[i..]`, le nœud décrit (dossiers intermédiaires créés au besoin).
fn inserer_parties(
    n: Node,
    p: &Vec<String>,
    i: usize,
    est_dossier: bool,
    data: Vec<u8>,
    h: Horodatage,
) -> (r: Node)
    requires
        i <= p.len(),
        bien_forme(n@),
    ensures
        r@ == inserer_chemin(n@, vue_chemin(p@).skip(i as int), est_dossier, data@, h),
        bien_forme(r@),
    decreases p.len() - i,
{
    if i == p.len() {
        proof {
            assert(vue_chemin(p@).skip(i as int) =~= Seq::<Seq<char>>::empty());
        }
        return n;
    }
    proof {
        arbre::lemme_chemin(p@, i as int);
    }
    match n {
        Node::File { data: d, horodatage } => Node::File { data: d, horodatage },
        Node::Directory { mut children, horodatage } => {
            let ghost enf = ve(children);
            proof {
                lemme_vue_enfants(children@);
                lemme_enfants_bien_formes(enf);
            }
            if i + 1 == p.len() {
                proof {
                    assert(vue_chemin(p@).skip(i as int).len() == 1);
                }
                if est_dossier {
                    if arbre::chercher(&children, p[i].as_str()).is_none() {
                        let d = Node::nouveau_dossier(h);
                        proof {
                            lemme_enfants_bien_formes(Seq::empty());
                        }
                        inserer_entree(&mut children, p[i].clone(), d);
                    }
                } else {
                    let f = Node::nouveau_fichier(data, h);
                    inserer_entree(&mut children, p[i].clone(), f);
                }
                Node::Directory { children, horodatage }
            } else {
                if arbre::chercher(&children, p[i].as_str()).is_none() {
                    let d = Node::nouveau_dossier(h);
                    proof {
                        lemme_enfants_bien_formes(Seq::empty());
                    }
                    inserer_entree(&mut children, p[i].clone(), d);
                }
                let ghost enf1 = ve(children);
                proof {
                    lemme_vue_enfants(children@);
                    lemme_enfants_bien_formes(enf1);
                }
                let k = match arbre::chercher(&children, p[i].as_str()) {
                    Some(k) => k,
                    None => {
                        return Node::Directory { children, horodatage };
                    },
                };
                let (nom, c) = children.remove(k);
                let c2 = inserer_parties(c, p, i + 1, est_dossier, data, h);
                let ghost c2v = c2@;
                children.insert(k, (nom, c2));
                proof {
                    lemme_vue_enfants(children@);
                    let t = ve(children);
                    assert(t =~= enf1.update(k as int, (enf1[k as int].0, c2v)));
                    assert forall|a: int, b: int| 0 <= a < b < t.len() implies node::lex_lt(
                        #[trigger] t[a].0,
                        #[trigger] t[b].0,
                    ) by {
                        assert(node::lex_lt(enf1[a].0, enf1[b].0));
                    }
                    lemme_enfants_bien_formes(t);
                }
                Node::Directory { children, horodatage }
            }
        },
    }
}

impl FileSystem {
    /// Insère un nœud au chemin absolu `chemin` (dossiers intermédiaires créés au besoin).
    fn inserer_noeud_absolu(&mut self, chemin: &str, est_dossier: bool, data: Vec<u8>, h: Horodatage)
        ensures
            final(self)@.cwd == old(self)@.cwd,
            final(self)@.racine == inserer_chemin(old(self)@.racine, path::parties(chemin@), est_dossier, data@, h),
    {
        let parties = path::decouper_chemin(chemin, false);
        if parties.len() == 0 {
            return;
        }
        let racine = self.sortir_racine();
        proof {
            assert(vue_chemin(parties@).skip(0) =~= vue_chemin(parties@));
        }
        let n = inserer_parties(racine, &parties, 0, est_dossier, data, h);
        proof {
            assert(n@ is Dossier);
        }
        self.root = n;
    }

    /// Restaure les entrées d'un flux relu sur /var ; rend le nombre d'entrées restaurées.
    pub fn restaurer_flux(&mut self, flux: &[u8]) -> (r: usize)
        ensures
            final(self)@.cwd == old(self)@.cwd,
            final(self)@.racine == restaurer(old(self)@.racine, decoder_flux(flux@)),
            r == decoder_flux(flux@).len(),
    {
        let mut offset: usize = 0;
        let mut restaures: usize = 0;
        let n = flux.len();
        proof {
            assert(flux@.skip(0) =~= flux@);
            lemme_decoder_longueur(flux@);
        }
        loop
            invariant
                n == flux@.len(),
                offset <= n,
                self@.cwd == old(self)@.cwd,
                restaurer(old(self)@.racine, decoder_flux(flux@)) == restaurer(
                    self@.racine,
                    decoder_flux(flux@.skip(offset as int)),
                ),
                restaures + decoder_flux(flux@.skip(offset as int)).len() == decoder_flux(flux@).len(),
                decoder_flux(flux@).len() <= n,
            ensures
                decoder_flux(flux@.skip(offset as int)).len() == 0,
                restaurer(old(self)@.racine, decoder_flux(flux@)) == self@.racine,
                restaures == decoder_flux(flux@).len(),
            decreases n - offset,
        {
            match lire_entree(flux, offset) {
                None => {
                    break;
                },
                Some((chemin, est_dossier, data, horo, suivant)) => {
                    let ghost e = (chemin@, est_dossier, data@, horo);
                    let ghost reste = decoder_flux(flux@.skip(suivant as int));
                    self.inserer_noeud_absolu(chemin.as_str(), est_dossier, data, horo);
                    restaures = restaures + 1;
                    offset = suivant;
                    proof {
                        assert((seq![e] + reste)[0] == e);
                        assert((seq![e] + reste).drop_first() =~= reste);
                    }
                },
            }
        }
        restaures
    }
}

/// Lit l'entrée du flux qui commence à `offset` ; rend aussi l'offset de la suivante.
fn lire_entree(flux: &[u8], offset: usize) -> (r: Option<(String, bool, Vec<u8>, Horodatage, usize)>)
    requires
        offset <= flux@.len(),
    ensures
        match r {
            Some((ch, d, data, h, suivant)) => offset < suivant <= flux@.len() && decoder_flux(
                flux@.skip(offset as int),
            ) == seq![(ch@, d, data@, h)] + decoder_flux(flux@.skip(suivant as int)),
            None => decoder_flux(flux@.skip(offset as int)) == Seq::<EntreeV>::empty(),
        },
{
    let n = flux.len();
    let ghost f = flux@.skip(offset as int);
    if n - offset < 6 {
        return None;
    }
    let est_dossier = flux[offset] == 1;
    let hh = flux[offset + 1];
    let mm = flux[offset + 2];
    let ss = flux[offset + 3];
    let path_len = crate::octets::lire_le16(flux[offset + 4], flux[offset + 5]) as usize;
    proof {
        assert(f[0] == flux@[offset as int]);
        assert(f[1] == flux@[offset + 1]);
        assert(f[2] == flux@[offset + 2]);
        assert(f[3] == flux@[offset + 3]);
        assert(f[4] == flux@[offset + 4]);
        assert(f[5] == flux@[offset + 5]);
        assert(f.skip(6) =~= flux@.skip(offset + 6));
    }
    let o1 = offset + 6;
    if path_len > n - o1 {
        return None;
    }
    let octets_chemin = crate::octets::extraire(flux, o1, o1 + path_len);
    proof {
        assert(octets_chemin@ =~= f.skip(6).take(path_len as int));
    }
    let chemin = match texte_utf8(octets_chemin.as_slice()) {
        Some(c) => c,
        None => {
            return None;
        },
    };
    let o2 = o1 + path_len;
    let horo = Horodatage::new(hh, mm, ss);
    proof {
        assert(f.skip(6).skip(path_len as int) =~= flux@.skip(o2 as int));
    }
    if est_dossier {
        return Some((chemin, true, Vec::new(), horo, o2));
    }
    if n - o2 < 4 {
        return None;
    }
    let data_len = crate::octets::lire_le32(flux[o2], flux[o2 + 1], flux[o2 + 2], flux[o2 + 3]) as usize;
    let ghost r2 = flux@.skip(o2 as int);
    proof {
        assert(r2[0] == flux@[o2 as int]);
        assert(r2[1] == flux@[o2 + 1]);
        assert(r2[2] == flux@[o2 + 2]);
        assert(r2[3] == flux@[o2 + 3]);
        assert(r2.skip(4) =~= flux@.skip(o2 + 4));
    }
    let o3 = o2 + 4;
    if data_len > n - o3 {
        return None;
    }
    let data = crate::octets::extraire(flux, o3, o3 + data_len);
    proof {
        assert(data@ =~= r2.skip(4).take(data_len as int));
    }
    let o4 = o3 + data_len;
    proof {
        assert(r2.skip(4).skip(data_len as int) =~= flux@.skip(o4 as int));
    }
    Some((chemin, false, data, horo, o4))
}

/// Chaque entrée lue consomme au moins un octet.
pub proof fn lemme_decoder_longueur(f: Seq<u8>)
    ensures
        decoder_flux(f).len() <= f.len(),
    decreases f.len(),
{
    if f.len() >= 6 {
        let pl = crate::octets::val16(f[4], f[5]);
        let reste = f.skip(6);
        if pl <= reste.len() {
            let r2 = reste.skip(pl as int);
            lemme_decoder_longueur(r2);
            if r2.len() >= 4 {
                let dl = crate::octets::val32(r2[0], r2[1], r2[2], r2[3]);
                let r3 = r2.skip(4);
                if dl <= r3.len() {
                    lemme_decoder_longueur(r3.skip(dl as int));
                }
            }
        }
    }
}

/// Issue d'une suppression dans le répertoire courant.
pub open spec fn supprimer_resultat(v: VueFs, nom: Seq<char>, dossier_attendu: bool) -> Result<(), &'static str> {
    match dossier_a(v.racine, v.cwd) {
        None => Err("erreur_fs"),
        Some((enf, _)) => match enfant(enf, nom) {
            None => Err("introuvable"),
            Some(x) => if (x is Dossier) && !dossier_attendu {
                Err("est_dossier")
            } else if !(x is Dossier) && dossier_attendu {
                Err("est_fichier")
            } else {
                Ok(())
            },
        },
    }
}

/// Issue d'un renommage dans le répertoire courant.
pub open spec fn renommer_resultat(
    v: VueFs,
    ancien: Seq<char>,
    nouveau: Seq<char>,
    dossier_attendu: bool,
) -> Result<(), &'static str> {
    match dossier_a(v.racine, v.cwd) {
        None => Err("erreur_fs"),
        Some((enf, _)) => if a_enfant(enf, nouveau) {
            Err("existe_deja")
        } else {
            match enfant(enf, ancien) {
                None => Err("introuvable"),
                Some(x) => if (x is Dossier) && !dossier_attendu {
                    Err("est_dossier")
                } else if !(x is Dossier) && dossier_attendu {
                    Err("est_fichier")
                } else {
                    Ok(())
                },
            }
        },
    }
}

/// Le système après renommage réussi de `ancien` en `nouveau` dans le répertoire courant.
pub open spec fn renommage_v(v: VueFs, ancien: Seq<char>, nouveau: Seq<char>) -> VueFs {
    let enf = dossier_a(v.racine, v.cwd).unwrap().0;
    VueFs {
        racine: avec_entrees(
            v.racine,
            v.cwd,
            inserer_enfant(retirer_enfant(enf, ancien), nouveau, enfant(enf, ancien).unwrap()),
        ),
        cwd: v.cwd,
    }
}

/// Le système après suppression réussie de `nom` dans le répertoire courant.
pub open spec fn suppression_v(v: VueFs, nom: Seq<char>) -> VueFs {
    VueFs {
        racine: avec_entrees(v.racine, v.cwd, retirer_enfant(dossier_a(v.racine, v.cwd).unwrap().0, nom)),
        cwd: v.cwd,
    }
}

/// Contenu lisible d'un fichier du répertoire courant.
pub open spec fn lire_v(v: VueFs, nom: Seq<char>) -> Option<Seq<u8>> {
    match dossier_a(v.racine, v.cwd) {
        Some((enf, _)) => match enfant(enf, nom) {
            Some(NoeudV::Fichier(d, _)) => Some(d),
            _ => None,
        },
        None => None,
    }
}

// ---------------------------------------------------------------------------
// Accès au système de fichiers du noyau
// ---------------------------------------------------------------------------

/// Le système après écriture du fichier `nom` dans le répertoire courant (inchangé s'il n'y a
/// pas de répertoire courant).
pub open spec fn ecrire_v(v: VueFs, nom: Seq<char>, donnees: Seq<u8>, h: Horodatage) -> VueFs {
    match dossier_a(v.racine, v.cwd) {
        Some((enf, _)) => VueFs {
            racine: avec_entrees(v.racine, v.cwd, inserer_enfant(enf, nom, NoeudV::Fichier(donnees, h))),
            cwd: v.cwd,
        },
        None => v,
    }
}

/// Contenu du fichier `nom` du répertoire courant.
pub fn lire(fs: &FileSystem, nom: &str) -> (r: Option<Vec<u8>>)
    ensures
        match lire_v(fs@, nom@) {
            Some(d) => r matches Some(v) && v@ == d,
            None => r is None,
        },
{
    fs.lire(nom)
}

/// Crée ou remplace le fichier `nom` du répertoire courant, horodaté `h`.
pub fn ecrire(fs: &mut FileSystem, nom: &str, donnees: &[u8], h: Horodatage) -> (r: Vec<(u64, Vec<u8>)>)
    ensures
        final(fs)@ == ecrire_v(old(fs)@, nom@, donnees@, h),
        sync_si(dossier_a(old(fs)@.racine, old(fs)@.cwd) is Some, final(fs)@.racine, r@),
{
    let copie = crate::octets::extraire(donnees, 0, donnees.len());
    proof {
        assert(donnees@.subrange(0, donnees@.len() as int) =~= donnees@);
    }
    fs.ecrire(nom, copie, h).1
}

/// Entrées du répertoire courant : (nom, taille, est_dossier, horodatage), par nom croissant.
pub fn lister(fs: &FileSystem) -> (r: Vec<(String, usize, bool, Horodatage)>)
    ensures
        match dossier_a(fs@.racine, fs@.cwd) {
            Some((enf, _)) => r@.len() == enf.len() && forall|i: int|
                0 <= i < enf.len() ==> {
                    &&& (#[trigger] r@[i]).0@ == enf[i].0
                    &&& r@[i].1 == taille_v(enf[i].1)
                    &&& r@[i].2 == (enf[i].1 is Dossier)
                    &&& r@[i].3 == horodatage_v(enf[i].1)
                },
            None => r@.len() == 0,
        },
{
    fs.lister_courant()
}

/// Texte du répertoire courant.
pub fn chemin_actuel(fs: &FileSystem) -> (r: String)
    ensures
        r@ == chemin_texte(fs@.cwd),
{
    fs.obtenir_chemin_actuel()
}

/// Supprime l'entrée `nom` du répertoire courant.
pub fn supprimer(fs: &mut FileSystem, nom: &str, dossier_attendu: bool) -> (r: (Result<(), &'static str>, Vec<(u64, Vec<u8>)>))
    ensures
        final(fs)@.cwd == old(fs)@.cwd,
        r.0 is Ok ==> final(fs)@.racine == avec_entrees(
            old(fs)@.racine,
            old(fs)@.cwd,
            retirer_enfant(dossier_a(old(fs)@.racine, old(fs)@.cwd).unwrap().0, nom@),
        ),
        r.0 is Err ==> final(fs)@.racine == old(fs)@.racine,
        r.0 == supprimer_resultat(old(fs)@, nom@, dossier_attendu),
        sync_si(r.0 is Ok, final(fs)@.racine, r.1@),
{
    fs.supprimer(nom, dossier_attendu)
}

/// Renomme l'entrée `ancien` du répertoire courant en `nouveau`.
pub fn renommer(fs: &mut FileSystem, ancien: &str, nouveau: &str, dossier_attendu: bool) -> (r: (Result<(), &'static str>, Vec<(u64, Vec<u8>)>))
    ensures
        final(fs)@.cwd == old(fs)@.cwd,
        r.0 is Ok ==> final(fs)@.racine == avec_entrees(
            old(fs)@.racine,
            old(fs)@.cwd,
            inserer_enfant(
                retirer_enfant(dossier_a(old(fs)@.racine, old(fs)@.cwd).unwrap().0, ancien@),
                nouveau@,
                enfant(dossier_a(old(fs)@.racine, old(fs)@.cwd).unwrap().0, ancien@).unwrap(),
            ),
        ),
        r.0 is Err ==> final(fs)@.racine == old(fs)@.racine,
        r.0 == renommer_resultat(old(fs)@, ancien@, nouveau@, dossier_attendu),
        sync_si(r.0 is Ok, final(fs)@.racine, r.1@),
{
    fs.renommer(ancien, nouveau, dossier_attendu)
}

/// Copie `source` vers `cible` (récursivement pour un dossier si `recursif`).
pub fn copier(fs: &mut FileSystem, source: &str, cible: &str, recursif: bool) -> (r: (Result<(), VfsError>, Vec<(u64, Vec<u8>)>))
    ensures
        final(fs)@.cwd == old(fs)@.cwd,
        (final(fs)@.racine, r.0) == copier_v(old(fs)@, source@, cible@, recursif),
        sync_si(r.0 is Ok, final(fs)@.racine, r.1@),
{
    fs.copier(source, cible, recursif)
}

/// Déplace `source` vers `cible`.
pub fn deplacer(fs: &mut FileSystem, source: &str, cible: &str) -> (r: (Result<(), VfsError>, Vec<(u64, Vec<u8>)>))
    ensures
        final(fs)@.cwd == old(fs)@.cwd,
        (final(fs)@.racine, r.0) == deplacer_v(old(fs)@, source@, cible@),
        sync_si(r.0 is Ok, final(fs)@.racine, r.1@),
{
    fs.deplacer(source, cible)
}

/// Restaure le VFS depuis le flux relu sur /var (les secteurs annoncés par le superbloc, mis bout
/// à bout et ramenés à la taille du flux) ; rend le nombre d'entrées restaurées.
pub fn charger_depuis_disque(fs: &mut FileSystem, flux: &[u8]) -> (r: usize)
    ensures
        final(fs)@.cwd == old(fs)@.cwd,
        final(fs)@.racine == restaurer(old(fs)@.racine, decoder_flux(flux@)),
        r == decoder_flux(flux@).len(),
{
    fs.restaurer_flux(flux)
}

/// Les écritures `w` sont celles de la synchronisation de l'arbre de racine `racine` quand la
/// modification a réussi (`ok`), et aucune sinon.
pub open spec fn sync_si(ok: bool, racine: NoeudV, w: Seq<(u64, Vec<u8>)>) -> bool {
    if ok {
        ecritures_sync_v(racine, w)
    } else {
        w.len() == 0
    }
}

/// Écritures `r` qui persistent sur /var l'arbre de racine `racine` : les secteurs du flux, à
/// partir du premier secteur de données, puis le superbloc.
pub open spec fn ecritures_sync_v(racine: NoeudV, r: Seq<(u64, Vec<u8>)>) -> bool {
    &&& r.len() == nb_ecritures_v(flux_v(racine)) + 1
    &&& forall|i: int|
        0 <= i < r.len() - 1 ==> (#[trigger] r[i]).0 == LBA_FS_DATA_DEBUT + i && r[i].1@ == secteur_v(
            flux_v(racine),
            i,
        )
    &&& r.last().0 == LBA_FS_SUPERBLOC
    &&& r.last().1@ == superbloc_v(
        flux_v(racine).len() as u32,
        collecter(racine, Seq::empty()).len() as u32,
        nb_secteurs_v(flux_v(racine).len() as u32),
    )
}

/// Écritures qui persistent le VFS sur /var.
pub fn synchroniser(fs: &FileSystem) -> (r: Vec<(u64, Vec<u8>)>)
    ensures
        ecritures_sync_v(fs@.racine, r@),
{
    fs.synchroniser_sur_disque()
}

/// Entrées du répertoire désigné par `chemin` (le répertoire courant pour un chemin vide),
/// ou "est_fichier" s'il désigne un fichier, "introuvable" s'il ne désigne rien.
pub open spec fn lister_cible_v(v: VueFs, chemin: Seq<char>) -> Result<Seq<(Seq<char>, NoeudV)>, &'static str> {
    match acces(v.racine, resoudre(v.cwd, chemin)) {
        Some(NoeudV::Dossier(enf, _)) => Ok(enf),
        Some(NoeudV::Fichier(_, _)) => Err("est_fichier"),
        None => Err("introuvable"),
    }
}

impl FileSystem {
    /// Entrées du répertoire désigné par `chemin`.
    pub fn lister_cible(&self, chemin: &str) -> (r: Result<Vec<(String, usize, bool, Horodatage)>, &'static str>)
        ensures
            match lister_cible_v(self@, chemin@) {
                Ok(enf) => r matches Ok(v) && decrit(v@, enf),
                Err(e) => r == Err::<Vec<(String, usize, bool, Horodatage)>, &'static str>(e),
            },
    {
        proof {
            use_type_invariant(self);
        }
        let p = self.resoudre_chemin(chemin);
        match acceder(&self.root, &p) {
            Some(Node::Directory { children, .. }) => Ok(entrees_de(children)),
            Some(Node::File { .. }) => Err("est_fichier"),
            None => Err("introuvable"),
        }
    }
}

/// Entrées du répertoire désigné par `chemin`.
pub fn lister_cible(fs: &FileSystem, chemin: &str) -> (r: Result<Vec<(String, usize, bool, Horodatage)>, &'static str>)
    ensures
        match lister_cible_v(fs@, chemin@) {
            Ok(enf) => r matches Ok(v) && decrit(v@, enf),
            Err(e) => r == Err::<Vec<(String, usize, bool, Horodatage)>, &'static str>(e),
        },
{
    fs.lister_cible(chemin)
}

} // verus!
