use vstd::prelude::*;
use std::string::String;
use std::vec::Vec;
use vstd::string::StringSliceAdditionalSpecFns;
use crate::fs::{FileSystem, VueFs, dossier_a, ecrire_v, lire_v};
use crate::fs::node::Horodatage;
use crate::texte::{
    caracteres, chaine_de_caracteres, chercher_motif, decouper_mots, egal, mots, rogner, rogner_v,
    texte_utf8, trouver, vers_chaine, vue_mots,
};

verus! {

/// Taille du tampon de saisie : une ligne compte au plus 255 caractères.
pub const BUFFER_SIZE: usize = 256;

/// Nombre de lignes gardées dans l'historique.
pub const HISTORIQUE_TAILLE: usize = 10;

/// Ligne de commande : saisie en cours et historique des lignes validées.
pub struct Shell {
    buffer: Vec<u8>,
    historique: Vec<Vec<u8>>,
    historique_index: usize,
}

/// Modèle du shell : la ligne saisie, l'historique (du plus ancien au plus récent) et la position
/// de rappel dans l'historique.
pub struct VueShell {
    pub ligne: Seq<u8>,
    pub historique: Seq<Seq<u8>>,
    pub index: nat,
}

pub open spec fn vue_lignes(v: Seq<Vec<u8>>) -> Seq<Seq<u8>> {
    v.map_values(|l: Vec<u8>| l@)
}

impl View for Shell {
    type V = VueShell;

    closed spec fn view(&self) -> VueShell {
        VueShell {
            ligne: self.buffer@,
            historique: vue_lignes(self.historique@),
            index: self.historique_index as nat,
        }
    }
}

/// Ce que la saisie d'un caractère demande à l'affichage.
pub enum Saisie {
    /// La ligne est validée : elle est à exécuter (puis l'invite est à réafficher).
    Valider(Vec<u8>),
    /// Le dernier caractère affiché est à effacer.
    Effacer,
    /// Le caractère est à afficher.
    Afficher(char),
    /// Rien.
    Rien,
}

/// Mise à jour de la ligne affichée lors d'un rappel d'historique.
pub struct MajLigne {
    /// Nombre de caractères à effacer.
    pub a_effacer: usize,
    /// Texte à afficher ensuite, si la ligne rappelée est de l'UTF-8 valide.
    pub a_afficher: Option<String>,
}

/// Shell cohérent : ligne d'au plus 255 octets, au plus 10 lignes d'historique, non vides et
/// d'au plus 255 octets, position de rappel dans l'historique.
pub open spec fn shell_valide(v: VueShell) -> bool {
    &&& v.ligne.len() < BUFFER_SIZE
    &&& v.historique.len() <= HISTORIQUE_TAILLE
    &&& v.index <= v.historique.len()
    &&& forall|i: int|
        0 <= i < v.historique.len() ==> 0 < (#[trigger] v.historique[i]).len() < BUFFER_SIZE
}

/// Historique après validation de la ligne : elle s'ajoute à la fin (la plus ancienne s'en va si
/// l'historique est plein) et la position de rappel passe après elle ; une ligne vide ne change rien.
pub open spec fn enregistrer_v(v: VueShell) -> VueShell {
    if v.ligne.len() == 0 {
        v
    } else {
        let h = if v.historique.len() < HISTORIQUE_TAILLE {
            v.historique.push(v.ligne)
        } else {
            v.historique.drop_first().push(v.ligne)
        };
        VueShell { historique: h, index: h.len(), ..v }
    }
}

/// Octet rangé pour un caractère saisi (ses 8 bits de poids faible).
pub open spec fn octet_de(c: char) -> u8 {
    (c as u32) as u8
}

/// Effet d'un caractère saisi : l'état du shell et la demande à l'affichage (sans la ligne validée).
pub open spec fn saisie_v(v: VueShell, c: char) -> (VueShell, Option<Seq<u8>>, int) {
    if c == '\n' || c == '\r' {
        (VueShell { ligne: Seq::empty(), ..enregistrer_v(v) }, Some(v.ligne), 0)
    } else if c == '\u{8}' || c == '\u{7f}' {
        if v.ligne.len() > 0 {
            (VueShell { ligne: v.ligne.drop_last(), ..v }, None, 1)
        } else {
            (v, None, 0)
        }
    } else if v.ligne.len() < BUFFER_SIZE - 1 {
        (VueShell { ligne: v.ligne.push(octet_de(c)), ..v }, None, 2)
    } else {
        (v, None, 0)
    }
}

/// Correspondance entre la demande rendue et son modèle : 0 rien (ou validation), 1 effacer, 2 afficher.
pub open spec fn saisie_rendue(s: Saisie, c: char, attendu: (VueShell, Option<Seq<u8>>, int)) -> bool {
    match s {
        Saisie::Valider(l) => attendu.1 == Some(l@),
        Saisie::Effacer => attendu.1 is None && attendu.2 == 1,
        Saisie::Afficher(x) => attendu.1 is None && attendu.2 == 2 && x == c,
        Saisie::Rien => attendu.1 is None && attendu.2 == 0,
    }
}

/// Texte affiché pour une ligne rappelée.
pub open spec fn texte_rappel(l: Seq<u8>) -> Option<Seq<char>> {
    if vstd::utf8::valid_utf8(l) {
        Some(vstd::utf8::decode_utf8(l))
    } else {
        None
    }
}

pub open spec fn vue_maj(m: MajLigne) -> (nat, Option<Seq<char>>) {
    (
        m.a_effacer as nat,
        match m.a_afficher {
            Some(s) => Some(s@),
            None => None,
        },
    )
}

impl Shell {
    /// Shell neuf : ligne vide, historique vide.
    pub fn new() -> (r: Self)
        ensures
            shell_valide(r@),
            r@.ligne == Seq::<u8>::empty(),
            r@.historique == Seq::<Seq<u8>>::empty(),
            r@.index == 0,
    {
        let r = Shell { buffer: Vec::new(), historique: Vec::new(), historique_index: 0 };
        assert(r@.historique =~= Seq::<Seq<u8>>::empty());
        r
    }

    /// Range la ligne saisie dans l'historique.
    fn enregistrer_dans_historique(&mut self)
        requires
            shell_valide(old(self)@),
        ensures
            shell_valide(final(self)@),
            final(self)@ == enregistrer_v(old(self)@),
    {
        if self.buffer.len() == 0 {
            return;
        }
        let ligne = crate::octets::extraire(self.buffer.as_slice(), 0, self.buffer.len());
        assert(ligne@ =~= self.buffer@);
        let ghost avant = self@;
        if self.historique.len() < HISTORIQUE_TAILLE {
            self.historique.push(ligne);
        } else {
            let mut nouveau: Vec<Vec<u8>> = Vec::new();
            let mut i: usize = 1;
            while i < self.historique.len()
                invariant
                    1 <= i <= self.historique@.len(),
                    vue_lignes(self.historique@) == avant.historique,
                    vue_lignes(nouveau@) == avant.historique.subrange(1, i as int),
                decreases self.historique@.len() - i,
            {
                let copie = crate::octets::extraire(self.historique[i].as_slice(), 0, self.historique[i].len());
                proof {
                    assert(copie@ =~= self.historique@[i as int]@);
                    assert(avant.historique[i as int] == self.historique@[i as int]@);
                }
                let ghost ancien = nouveau@;
                let ghost cv = copie@;
                nouveau.push(copie);
                proof {
                    assert(vue_lignes(ancien).len() == ancien.len());
                    assert(ancien.len() == i - 1);
                    assert forall|k: int| 0 <= k < nouveau@.len() implies #[trigger] vue_lignes(nouveau@)[k]
                        == avant.historique.subrange(1, i + 1)[k] by {
                        assert(vue_lignes(nouveau@)[k] == nouveau@[k]@);
                        if k < ancien.len() {
                            assert(nouveau@[k] == ancien[k]);
                            assert(vue_lignes(ancien)[k] == ancien[k]@);
                            assert(vue_lignes(ancien)[k] == avant.historique.subrange(1, i as int)[k]);
                        } else {
                            assert(nouveau@[k]@ == cv);
                        }
                    }
                }
                i = i + 1;
                assert(vue_lignes(nouveau@) =~= avant.historique.subrange(1, i as int));
            }
            nouveau.push(ligne);
            self.historique = nouveau;
            assert(vue_lignes(self.historique@) =~= avant.historique.drop_first().push(
                avant.ligne,
            ));
        }
        self.historique_index = self.historique.len();
        proof {
            assert(self@.historique =~= enregistrer_v(avant).historique);
        }
    }

    /// Traite un caractère saisi : validation de la ligne (entrée), effacement (retour arrière,
    /// suppression) ou ajout d'un caractère (au plus 255 par ligne).
    pub fn introduire_caractere(&mut self, c: char) -> (r: Saisie)
        requires
            shell_valide(old(self)@),
        ensures
            shell_valide(final(self)@),
            final(self)@ == saisie_v(old(self)@, c).0,
            saisie_rendue(r, c, saisie_v(old(self)@, c)),
    {
        if c == '\n' || c == '\r' {
            let ligne = crate::octets::extraire(self.buffer.as_slice(), 0, self.buffer.len());
            assert(ligne@ =~= self.buffer@);
            self.enregistrer_dans_historique();
            self.buffer = Vec::new();
            Saisie::Valider(ligne)
        } else if c == '\u{8}' || c == '\u{7f}' {
            if self.buffer.len() > 0 {
                self.buffer.pop();
                Saisie::Effacer
            } else {
                Saisie::Rien
            }
        } else if self.buffer.len() < BUFFER_SIZE - 1 {
            self.buffer.push((c as u32) as u8);
            Saisie::Afficher(c)
        } else {
            Saisie::Rien
        }
    }

    /// Remplace la ligne saisie par la ligne `idx` de l'historique.
    fn remplacer_ligne_saisie(&mut self, idx: usize) -> (r: MajLigne)
        requires
            shell_valide(old(self)@),
            idx < old(self)@.historique.len(),
        ensures
            shell_valide(final(self)@),
            final(self)@ == (VueShell { ligne: old(self)@.historique[idx as int], ..old(self)@ }),
            vue_maj(r) == (old(self)@.ligne.len(), texte_rappel(old(self)@.historique[idx as int])),
    {
        let a_effacer = self.buffer.len();
        let ligne = crate::octets::extraire(self.historique[idx].as_slice(), 0, self.historique[idx].len());
        assert(ligne@ =~= self@.historique[idx as int]);
        let a_afficher = texte_utf8(ligne.as_slice());
        self.buffer = ligne;
        MajLigne { a_effacer, a_afficher }
    }

    /// Rappelle la ligne précédente de l'historique ; rien s'il n'y en a pas.
    pub fn historique_precedent(&mut self) -> (r: Option<MajLigne>)
        requires
            shell_valide(old(self)@),
        ensures
            shell_valide(final(self)@),
            old(self)@.historique.len() == 0 || old(self)@.index == 0 ==> r is None && final(self)@
                == old(self)@,
            old(self)@.historique.len() > 0 && old(self)@.index > 0 ==> {
                let i = old(self)@.index - 1;
                &&& final(self)@ == (VueShell {
                    ligne: old(self)@.historique[i],
                    index: i as nat,
                    ..old(self)@
                })
                &&& r matches Some(m) && vue_maj(m) == (old(self)@.ligne.len(), texte_rappel(
                    old(self)@.historique[i],
                ))
            },
    {
        if self.historique.len() == 0 || self.historique_index == 0 {
            return None;
        }
        self.historique_index = self.historique_index - 1;
        let i = self.historique_index;
        Some(self.remplacer_ligne_saisie(i))
    }

    /// Rappelle la ligne suivante de l'historique ; après la plus récente, la ligne redevient vide.
    pub fn historique_suivant(&mut self) -> (r: Option<MajLigne>)
        requires
            shell_valide(old(self)@),
        ensures
            shell_valide(final(self)@),
            old(self)@.index >= old(self)@.historique.len() ==> r is None && final(self)@ == old(
                self,
            )@,
            old(self)@.index + 1 == old(self)@.historique.len() ==> {
                &&& final(self)@ == (VueShell {
                    ligne: Seq::empty(),
                    index: old(self)@.index + 1,
                    ..old(self)@
                })
                &&& r matches Some(m) && vue_maj(m) == (old(self)@.ligne.len(), None::<Seq<char>>)
            },
            old(self)@.index + 1 < old(self)@.historique.len() ==> {
                let i = (old(self)@.index + 1) as int;
                &&& final(self)@ == (VueShell {
                    ligne: old(self)@.historique[i],
                    index: i as nat,
                    ..old(self)@
                })
                &&& r matches Some(m) && vue_maj(m) == (old(self)@.ligne.len(), texte_rappel(
                    old(self)@.historique[i],
                ))
            },
    {
        if self.historique_index >= self.historique.len() {
            return None;
        }
        self.historique_index = self.historique_index + 1;
        if self.historique_index == self.historique.len() {
            let a_effacer = self.buffer.len();
            self.buffer = Vec::new();
            Some(MajLigne { a_effacer, a_afficher: None })
        } else {
            let i = self.historique_index;
            Some(self.remplacer_ligne_saisie(i))
        }
    }
}

/// Après validation d'une ligne non vide, le rappel de la ligne précédente la redonne.
pub proof fn loi_rappel_derniere_ligne(v: VueShell)
    requires
        shell_valide(v),
        v.ligne.len() > 0,
    ensures
        ({
            let w = enregistrer_v(v);
            &&& w.historique.len() > 0
            &&& w.index == w.historique.len()
            &&& w.historique[w.index - 1] == v.ligne
        }),
{
}

/// L'historique garde, dans l'ordre, les dernières lignes non vides validées, dix au plus.
pub proof fn loi_historique_borne(v: VueShell)
    requires
        shell_valide(v),
    ensures
        shell_valide(VueShell { ligne: Seq::empty(), ..enregistrer_v(v) }),
        enregistrer_v(v).historique.len() <= HISTORIQUE_TAILLE,
        v.ligne.len() > 0 && v.historique.len() == HISTORIQUE_TAILLE ==> enregistrer_v(v).historique
            == v.historique.drop_first().push(v.ligne),
{
}

// ---------------------------------------------------------------------------
// Exécution d'une ligne validée
// ---------------------------------------------------------------------------

/// Préparation d'une ligne validée.
pub enum Execution {
    /// Ligne vide ou illisible : rien à faire.
    Rien,
    /// Redirection sans nom de fichier : erreur de syntaxe.
    RedirectionSansCible,
    /// Commande à évaluer, avec sa redirection éventuelle (fichier, ajout en fin de fichier).
    Lancer(String, Option<(String, bool)>),
}

/// Modèle d'une préparation.
pub enum ExecutionV {
    Rien,
    RedirectionSansCible,
    Lancer(Seq<char>, Option<(Seq<char>, bool)>),
}

pub open spec fn vue_execution(e: Execution) -> ExecutionV {
    match e {
        Execution::Rien => ExecutionV::Rien,
        Execution::RedirectionSansCible => ExecutionV::RedirectionSansCible,
        Execution::Lancer(c, r) => ExecutionV::Lancer(
            c@,
            match r {
                Some((f, a)) => Some((f@, a)),
                None => None,
            },
        ),
    }
}

pub open spec fn double_chevron() -> Seq<char> {
    seq!['>', '>']
}

pub open spec fn chevron() -> Seq<char> {
    seq!['>']
}

/// Découpage d'une ligne : la ligne (UTF-8) est débarrassée de ses blancs ; un `>>` (sinon un `>`)
/// sépare la commande du fichier de redirection, ajout en fin de fichier pour `>>`.
pub open spec fn execution_v(ligne: Seq<u8>) -> ExecutionV {
    if !vstd::utf8::valid_utf8(ligne) {
        ExecutionV::Rien
    } else {
        let e = rogner_v(vstd::utf8::decode_utf8(ligne));
        if e.len() == 0 {
            ExecutionV::Rien
        } else {
            match trouver(e, double_chevron()) {
                Some(i) => {
                    let cible = rogner_v(e.skip(i + 2));
                    if cible.len() == 0 {
                        ExecutionV::RedirectionSansCible
                    } else {
                        ExecutionV::Lancer(rogner_v(e.take(i)), Some((cible, true)))
                    }
                },
                None => match trouver(e, chevron()) {
                    Some(i) => {
                        let cible = rogner_v(e.skip(i + 1));
                        if cible.len() == 0 {
                            ExecutionV::RedirectionSansCible
                        } else {
                            ExecutionV::Lancer(rogner_v(e.take(i)), Some((cible, false)))
                        }
                    },
                    None => ExecutionV::Lancer(e, None),
                },
            }
        }
    }
}

/// Texte formé des caractères `v[a..b]`.
fn sous_texte(v: &Vec<char>, a: usize, b: usize) -> (r: String)
    requires
        a <= b <= v@.len(),
    ensures
        r@ == v@.subrange(a as int, b as int),
{
    let mut r = String::new();
    let mut i = a;
    while i < b
        invariant
            a <= i <= b <= v@.len(),
            r@ == v@.subrange(a as int, i as int),
        decreases b - i,
    {
        crate::texte::pousser_car(&mut r, v[i]);
        i = i + 1;
        assert(r@ =~= v@.subrange(a as int, i as int));
    }
    r
}

/// Prépare l'exécution d'une ligne validée : commande et redirection.
pub fn executer_commande(ligne: &[u8]) -> (r: Execution)
    ensures
        vue_execution(r) == execution_v(ligne@),
{
    let texte = match texte_utf8(ligne) {
        Some(t) => t,
        None => {
            return Execution::Rien;
        },
    };
    let entree = rogner(texte.as_str());
    let e = caracteres(entree.as_str());
    if e.len() == 0 {
        return Execution::Rien;
    }
    let mut dd: Vec<char> = Vec::new();
    dd.push('>');
    dd.push('>');
    assert(dd@ =~= double_chevron());
    match chercher_motif(&e, &dd) {
        Some(i) => {
            let avant = sous_texte(&e, 0, i);
            let apres = sous_texte(&e, i + 2, e.len());
            let cmd = rogner(avant.as_str());
            let cible = rogner(apres.as_str());
            proof {
                assert(e@.subrange(0, i as int) =~= e@.take(i as int));
                assert(e@.subrange(i + 2, e@.len() as int) =~= e@.skip(i + 2));
            }
            if cible.as_str().unicode_len() == 0 {
                Execution::RedirectionSansCible
            } else {
                Execution::Lancer(cmd, Some((cible, true)))
            }
        },
        None => {
            let mut d: Vec<char> = Vec::new();
            d.push('>');
            assert(d@ =~= chevron());
            match chercher_motif(&e, &d) {
                Some(i) => {
                    let avant = sous_texte(&e, 0, i);
                    let apres = sous_texte(&e, i + 1, e.len());
                    let cmd = rogner(avant.as_str());
                    let cible = rogner(apres.as_str());
                    proof {
                        assert(e@.subrange(0, i as int) =~= e@.take(i as int));
                        assert(e@.subrange(i + 1, e@.len() as int) =~= e@.skip(i + 1));
                    }
                    if cible.as_str().unicode_len() == 0 {
                        Execution::RedirectionSansCible
                    } else {
                        Execution::Lancer(cmd, Some((cible, false)))
                    }
                },
                None => Execution::Lancer(entree, None),
            }
        },
    }
}

/// Contenu écrit par une redirection : la sortie de la commande, précédée en mode ajout du contenu
/// actuel du fichier s'il existe.
pub open spec fn contenu_redirige(fs: VueFs, cible: Seq<char>, ajout: bool, sortie: Seq<u8>) -> Seq<u8> {
    let existant = if ajout {
        match lire_v(fs, cible) {
            Some(d) => d,
            None => Seq::empty(),
        }
    } else {
        Seq::empty()
    };
    existant + sortie
}

/// `>` remplace le contenu du fichier par la sortie de la commande ; `>>` l'ajoute à la fin du
/// contenu existant, ou crée le fichier s'il n'existe pas.
pub proof fn loi_redirection(v: VueFs, cible: Seq<char>, ajout: bool, sortie: Seq<u8>, h: Horodatage)
    requires
        crate::fs::node::bien_forme(v.racine),
        crate::fs::dossier_a(v.racine, v.cwd) is Some,
    ensures
        lire_v(ecrire_v(v, cible, contenu_redirige(v, cible, ajout, sortie), h), cible) == Some(
            if ajout {
                match lire_v(v, cible) {
                    Some(d) => d + sortie,
                    None => sortie,
                }
            } else {
                sortie
            },
        ),
{
    let c = contenu_redirige(v, cible, ajout, sortie);
    crate::fs::lois::loi_lire_apres_ecrire(v, cible, c, h, cible);
    assert(Seq::<u8>::empty() + sortie =~= sortie);
}

/// Écrit la sortie capturée d'une commande dans le fichier `cible` du répertoire courant
/// (à la suite du contenu actuel en mode ajout) ; rend les écritures qui synchronisent /var.
pub fn rediriger(fs: &mut FileSystem, cible: &str, ajout: bool, sortie: &str, h: Horodatage) -> (r: Vec<(u64, Vec<u8>)>)
    ensures
        final(fs)@ == ecrire_v(old(fs)@, cible@, contenu_redirige(old(fs)@, cible@, ajout, sortie.spec_bytes()), h),
        crate::fs::sync_si(dossier_a(old(fs)@.racine, old(fs)@.cwd) is Some, final(fs)@.racine, r@),
{
    let mut donnees: Vec<u8> = Vec::new();
    if ajout {
        match crate::fs::lire(fs, cible) {
            Some(existant) => {
                crate::octets::etendre(&mut donnees, existant.as_slice());
            },
            None => {},
        }
    }
    crate::octets::etendre(&mut donnees, sortie.as_bytes());
    assert(donnees@ =~= contenu_redirige(old(fs)@, cible@, ajout, sortie.spec_bytes()));
    crate::fs::ecrire(fs, cible, donnees.as_slice(), h)
}

// ---------------------------------------------------------------------------
// Évaluation d'une commande
// ---------------------------------------------------------------------------

/// Commande reconnue, avec ses arguments.
pub enum Commande {
    Qtr,
    Ntr,
    Mnl(String),
    Inf,
    Tmps,
    Cpr(Vec<String>),
    Edt(String),
    Ls,
    Cat(String),
    Ctr(String),
    Cdr(String),
    Spp(String),
    Rnm(String),
    Dpc(Vec<String>),
    Afn,
    Mmr,
    Ver(String),
    Aide,
    Inconnue(String),
}

/// Modèle d'une commande.
pub enum CommandeV {
    Qtr,
    Ntr,
    Mnl(Seq<char>),
    Inf,
    Tmps,
    Cpr(Seq<Seq<char>>),
    Edt(Seq<char>),
    Ls,
    Cat(Seq<char>),
    Ctr(Seq<char>),
    Cdr(Seq<char>),
    Spp(Seq<char>),
    Rnm(Seq<char>),
    Dpc(Seq<Seq<char>>),
    Afn,
    Mmr,
    Ver(Seq<char>),
    Aide,
    Inconnue(Seq<char>),
}

pub open spec fn vue_commande(c: Commande) -> CommandeV {
    match c {
        Commande::Qtr => CommandeV::Qtr,
        Commande::Ntr => CommandeV::Ntr,
        Commande::Mnl(a) => CommandeV::Mnl(a@),
        Commande::Inf => CommandeV::Inf,
        Commande::Tmps => CommandeV::Tmps,
        Commande::Cpr(v) => CommandeV::Cpr(vue_mots(v@)),
        Commande::Edt(a) => CommandeV::Edt(a@),
        Commande::Ls => CommandeV::Ls,
        Commande::Cat(a) => CommandeV::Cat(a@),
        Commande::Ctr(a) => CommandeV::Ctr(a@),
        Commande::Cdr(a) => CommandeV::Cdr(a@),
        Commande::Spp(a) => CommandeV::Spp(a@),
        Commande::Rnm(a) => CommandeV::Rnm(a@),
        Commande::Dpc(v) => CommandeV::Dpc(vue_mots(v@)),
        Commande::Afn => CommandeV::Afn,
        Commande::Mmr => CommandeV::Mmr,
        Commande::Ver(a) => CommandeV::Ver(a@),
        Commande::Aide => CommandeV::Aide,
        Commande::Inconnue(a) => CommandeV::Inconnue(a@),
    }
}

/// Lexique affiché par `aide` dans le shell.
pub open spec fn lexique_v() -> Seq<Seq<char>> {
    seq![
        "Lexique des commandes QBX :"@,
        "  ntr  : Nettoyer l'écran"@,
        "  inf  : Informations système"@,
        "  tmps : Horloge temps réel"@,
        "  edt  : Éditeur de texte (ex: edt -l test.txt)"@,
        "  ls   : Lister les fichiers en mémoire"@,
        "  cat  : Afficher le contenu d'un fichier"@,
        "  ctr  : Créer un répertoire (ex: ctr monrep)"@,
        "  cdr  : Changer de répertoire (ex: cdr monrep, cdr ..)"@,
        "  spp  : Supprimer un fichier ou répertoire (ex: spp test.txt, spp -r monrep)"@,
        "  mnl  : Manuel système (ex: mnl edt)"@,
        "  qtr  : Quitter le système"@,
        "  rnm  : Renommer (ex: rnm f1.txt f2.txt, rnm -r rep1 rep2)"@,
        "  cpr  : Copier un fichier ou répertoire (ex: cpr f1.txt f2.txt, cpr -r rep1 rep2)"@,
        "  dpc  : Deplacer un fichier ou repertoire (ex: dpc f1.txt rep/)"@,
        "  afn  : Afficher les messages et informations du noyau"@,
        "  >    : Rediriger la sortie vers un fichier (ex: ls > liste.txt)"@,
        "  >>   : Ajouter la sortie a la fin d'un fichier (ex: afn >> journal.txt)"@,
        "  mmr  : Afficher les statistiques de la mémoire (Heap)"@,
        "  ver  : Informations système et version (ex: ver, ver -a, ver -r)"@,
    ]
}

/// Lignes du lexique des commandes.
pub fn lexique() -> (r: Vec<String>)
    ensures
        vue_mots(r@) == lexique_v(),
{
    let mut r: Vec<String> = Vec::new();
    r.push(vers_chaine("Lexique des commandes QBX :"));
    r.push(vers_chaine("  ntr  : Nettoyer l'écran"));
    r.push(vers_chaine("  inf  : Informations système"));
    r.push(vers_chaine("  tmps : Horloge temps réel"));
    r.push(vers_chaine("  edt  : Éditeur de texte (ex: edt -l test.txt)"));
    r.push(vers_chaine("  ls   : Lister les fichiers en mémoire"));
    r.push(vers_chaine("  cat  : Afficher le contenu d'un fichier"));
    r.push(vers_chaine("  ctr  : Créer un répertoire (ex: ctr monrep)"));
    r.push(vers_chaine("  cdr  : Changer de répertoire (ex: cdr monrep, cdr ..)"));
    r.push(vers_chaine("  spp  : Supprimer un fichier ou répertoire (ex: spp test.txt, spp -r monrep)"));
    r.push(vers_chaine("  mnl  : Manuel système (ex: mnl edt)"));
    r.push(vers_chaine("  qtr  : Quitter le système"));
    r.push(vers_chaine("  rnm  : Renommer (ex: rnm f1.txt f2.txt, rnm -r rep1 rep2)"));
    r.push(vers_chaine("  cpr  : Copier un fichier ou répertoire (ex: cpr f1.txt f2.txt, cpr -r rep1 rep2)"));
    r.push(vers_chaine("  dpc  : Deplacer un fichier ou repertoire (ex: dpc f1.txt rep/)"));
    r.push(vers_chaine("  afn  : Afficher les messages et informations du noyau"));
    r.push(vers_chaine("  >    : Rediriger la sortie vers un fichier (ex: ls > liste.txt)"));
    r.push(vers_chaine("  >>   : Ajouter la sortie a la fin d'un fichier (ex: afn >> journal.txt)"));
    r.push(vers_chaine("  mmr  : Afficher les statistiques de la mémoire (Heap)"));
    r.push(vers_chaine("  ver  : Informations système et version (ex: ver, ver -a, ver -r)"));
    assert(vue_mots(r@) =~= lexique_v());
    r
}

/// Ligne affichée pour une commande inconnue.
pub fn ligne_inconnue(commande: &str) -> (r: String)
    ensures
        r@ == "Commande inconnue : '"@ + commande@ + "'"@,
{
    let mut l = vers_chaine("Commande inconnue : '");
    crate::texte::pousser_texte(&mut l, commande);
    crate::texte::pousser_texte(&mut l, "'");
    l
}

/// Ligne affichée avant l'extinction demandée par `qtr`.
pub fn ligne_extinction() -> (r: String)
    ensures
        r@ == "[QBX] Extinction du système..."@,
{
    vers_chaine("[QBX] Extinction du système...")
}

/// Le `k`-ième mot, ou un texte vide.
pub open spec fn mot_ou_vide(ws: Seq<Seq<char>>, k: int) -> Seq<char> {
    if k < ws.len() {
        ws[k]
    } else {
        Seq::empty()
    }
}

/// Ce qui suit les `k` premiers octets de la ligne, sans blancs autour (vide si la ligne n'a pas
/// plus de `k` octets).
pub open spec fn reste_v(e: Seq<char>, k: nat) -> Seq<char> {
    let b = vstd::utf8::encode_utf8(e);
    if b.len() > k {
        rogner_v(vstd::utf8::decode_utf8(b.skip(k as int)))
    } else {
        Seq::empty()
    }
}

/// L'octet `k` de la ligne ne coupe pas un caractère.
pub open spec fn coupure_valide(e: Seq<char>, k: nat) -> bool {
    let b = vstd::utf8::encode_utf8(e);
    b.len() > k ==> vstd::utf8::is_char_boundary(b, k as int)
}

/// Les commandes dont les arguments sont pris après les trois premiers octets de la ligne.
pub open spec fn prend_le_reste(c: Seq<char>) -> bool {
    ||| c == "cpr"@
    ||| c == "edt"@
    ||| c == "cat"@
    ||| c == "ctr"@
    ||| c == "cdr"@
    ||| c == "spp"@
    ||| c == "rnm"@
    ||| c == "dpc"@
    ||| c == "ver"@
}

/// Commande désignée par le premier mot de la ligne, et ses arguments : le deuxième mot pour `mnl`,
/// le reste de la ligne (ou ses mots) pour les commandes qui en prennent.
pub open spec fn evaluation_v(e: Seq<char>) -> CommandeV {
    let ws = mots(e);
    let c = mot_ou_vide(ws, 0);
    let a = mot_ou_vide(ws, 1);
    let r = reste_v(e, 3);
    if c == "qtr"@ {
        CommandeV::Qtr
    } else if c == "ntr"@ {
        CommandeV::Ntr
    } else if c == "mnl"@ {
        CommandeV::Mnl(a)
    } else if c == "inf"@ {
        CommandeV::Inf
    } else if c == "tmps"@ {
        CommandeV::Tmps
    } else if c == "cpr"@ {
        CommandeV::Cpr(mots(r))
    } else if c == "edt"@ {
        CommandeV::Edt(r)
    } else if c == "ls"@ {
        CommandeV::Ls
    } else if c == "cat"@ {
        CommandeV::Cat(r)
    } else if c == "ctr"@ {
        CommandeV::Ctr(r)
    } else if c == "cdr"@ {
        CommandeV::Cdr(r)
    } else if c == "spp"@ {
        CommandeV::Spp(r)
    } else if c == "rnm"@ {
        CommandeV::Rnm(r)
    } else if c == "dpc"@ {
        CommandeV::Dpc(mots(r))
    } else if c == "afn"@ {
        CommandeV::Afn
    } else if c == "mmr"@ {
        CommandeV::Mmr
    } else if c == "ver"@ {
        CommandeV::Ver(r)
    } else if c == "aide"@ {
        CommandeV::Aide
    } else {
        CommandeV::Inconnue(c)
    }
}

/// Ce qui suit les `k` premiers octets, sans blancs autour.
pub fn reste_x(entree: &str, k: usize) -> (r: String)
    requires
        coupure_valide(entree@, k as nat),
    ensures
        r@ == reste_v(entree@, k as nat),
{
    if entree.as_bytes().len() > k {
        let (_, fin) = entree.split_at(k);
        proof {
            vstd::utf8::encode_utf8_decode_utf8(fin@);
            assert(fin.spec_bytes() =~= entree.spec_bytes().skip(k as int));
        }
        rogner(fin)
    } else {
        let r = String::new();
        assert(r@ =~= reste_v(entree@, k as nat));
        r
    }
}

/// Reconnaît la commande d'une ligne et ses arguments.
pub fn evaluer_commande(entree: &str) -> (r: Commande)
    requires
        prend_le_reste(mot_ou_vide(mots(entree@), 0)) ==> coupure_valide(entree@, 3),
    ensures
        vue_commande(r) == evaluation_v(entree@),
{
    let ws = decouper_mots(entree);
    let c: String = if ws.len() > 0 {
        vers_chaine(ws[0].as_str())
    } else {
        String::new()
    };
    let a: String = if ws.len() > 1 {
        vers_chaine(ws[1].as_str())
    } else {
        String::new()
    };
    proof {
        assert(vue_mots(ws@).len() == ws@.len());
        if ws@.len() > 0 {
            assert(vue_mots(ws@)[0] == ws@[0]@);
        }
        if ws@.len() > 1 {
            assert(vue_mots(ws@)[1] == ws@[1]@);
        }
        assert(c@ == mot_ou_vide(mots(entree@), 0));
        assert(a@ == mot_ou_vide(mots(entree@), 1));
    }
    let c = c.as_str();
    if egal(c, "qtr") {
        Commande::Qtr
    } else if egal(c, "ntr") {
        Commande::Ntr
    } else if egal(c, "mnl") {
        Commande::Mnl(a)
    } else if egal(c, "inf") {
        Commande::Inf
    } else if egal(c, "tmps") {
        Commande::Tmps
    } else if egal(c, "cpr") {
        let r = reste_x(entree, 3);
        Commande::Cpr(decouper_mots(r.as_str()))
    } else if egal(c, "edt") {
        Commande::Edt(reste_x(entree, 3))
    } else if egal(c, "ls") {
        Commande::Ls
    } else if egal(c, "cat") {
        Commande::Cat(reste_x(entree, 3))
    } else if egal(c, "ctr") {
        Commande::Ctr(reste_x(entree, 3))
    } else if egal(c, "cdr") {
        Commande::Cdr(reste_x(entree, 3))
    } else if egal(c, "spp") {
        Commande::Spp(reste_x(entree, 3))
    } else if egal(c, "rnm") {
        Commande::Rnm(reste_x(entree, 3))
    } else if egal(c, "dpc") {
        let r = reste_x(entree, 3);
        Commande::Dpc(decouper_mots(r.as_str()))
    } else if egal(c, "afn") {
        Commande::Afn
    } else if egal(c, "mmr") {
        Commande::Mmr
    } else if egal(c, "ver") {
        Commande::Ver(reste_x(entree, 3))
    } else if egal(c, "aide") {
        Commande::Aide
    } else {
        Commande::Inconnue(vers_chaine(c))
    }
}


/// Mot qui appelle chaque commande (pour une commande inconnue, le mot tapé).
pub open spec fn mot_de_commande(c: CommandeV) -> Seq<char> {
    match c {
        CommandeV::Qtr => "qtr"@,
        CommandeV::Ntr => "ntr"@,
        CommandeV::Mnl(_) => "mnl"@,
        CommandeV::Inf => "inf"@,
        CommandeV::Tmps => "tmps"@,
        CommandeV::Cpr(_) => "cpr"@,
        CommandeV::Edt(_) => "edt"@,
        CommandeV::Ls => "ls"@,
        CommandeV::Cat(_) => "cat"@,
        CommandeV::Ctr(_) => "ctr"@,
        CommandeV::Cdr(_) => "cdr"@,
        CommandeV::Spp(_) => "spp"@,
        CommandeV::Rnm(_) => "rnm"@,
        CommandeV::Dpc(_) => "dpc"@,
        CommandeV::Afn => "afn"@,
        CommandeV::Mmr => "mmr"@,
        CommandeV::Ver(_) => "ver"@,
        CommandeV::Aide => "aide"@,
        CommandeV::Inconnue(w) => w,
    }
}

/// Les mots de commande que le shell reconnaît.
pub open spec fn mot_connu(w: Seq<char>) -> bool {
    ||| w == "qtr"@
    ||| w == "ntr"@
    ||| w == "mnl"@
    ||| w == "inf"@
    ||| w == "tmps"@
    ||| w == "cpr"@
    ||| w == "edt"@
    ||| w == "ls"@
    ||| w == "cat"@
    ||| w == "ctr"@
    ||| w == "cdr"@
    ||| w == "spp"@
    ||| w == "rnm"@
    ||| w == "dpc"@
    ||| w == "afn"@
    ||| w == "mmr"@
    ||| w == "ver"@
    ||| w == "aide"@
}

/// Une ligne appelle la commande que nomme son premier mot, et aucune autre ; un mot qui n'est pas
/// une commande donne une commande inconnue portant ce mot. `mnl` reçoit le deuxième mot ; `cpr`
/// et `dpc` reçoivent les mots qui suivent les trois premiers octets ; `edt`, `cat`, `ctr`, `cdr`,
/// `spp`, `rnm` et `ver` reçoivent ce texte sans blancs autour.
pub proof fn loi_commande_nommee(e: Seq<char>)
    ensures
        mot_de_commande(evaluation_v(e)) == mot_ou_vide(mots(e), 0),
        evaluation_v(e) is Inconnue <==> !mot_connu(mot_ou_vide(mots(e), 0)),
        match evaluation_v(e) {
            CommandeV::Mnl(a) => a == mot_ou_vide(mots(e), 1),
            CommandeV::Cpr(a) => a == mots(reste_v(e, 3)),
            CommandeV::Dpc(a) => a == mots(reste_v(e, 3)),
            CommandeV::Edt(r) => r == reste_v(e, 3),
            CommandeV::Cat(r) => r == reste_v(e, 3),
            CommandeV::Ctr(r) => r == reste_v(e, 3),
            CommandeV::Cdr(r) => r == reste_v(e, 3),
            CommandeV::Spp(r) => r == reste_v(e, 3),
            CommandeV::Rnm(r) => r == reste_v(e, 3),
            CommandeV::Ver(r) => r == reste_v(e, 3),
            _ => true,
        },
{
}

} // verus!
