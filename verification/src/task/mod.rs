use vstd::prelude::*;
use std::boxed::Box;
use std::collections::VecDeque;
use std::vec::Vec;

pub mod context;

use context::ContexteTache;
use std::string::String;
use crate::texte::{decimal, pousser_decimal, pousser_texte, vers_chaine};

verus! {

/// Taille de la pile de chaque tâche.
pub const TAILLE_PILE: usize = 32768;

/// Identifiant d'une tâche.
#[derive(Debug, Clone, Copy, PartialEq, Eq, Structural)]
pub struct TaskId(pub usize);

/// État d'une tâche.
#[derive(Debug, Clone, Copy, PartialEq, Eq, Structural)]
pub enum EtatTache {
    Prete,
    EnCours,
    Terminee,
}

/// Tâche noyau : identifiant, état, registres sauvegardés et pile.
pub struct Tache {
    pub id: TaskId,
    pub etat: EtatTache,
    pub contexte: ContexteTache,
    pile: Option<Vec<u8>>,
}

/// Modèle d'une tâche : identifiant, état, registres sauvegardés.
pub closed spec fn vue_tache(t: Tache) -> (usize, EtatTache, ContexteTache) {
    (t.id.0, t.etat, t.contexte)
}

pub open spec fn vue_taches(s: Seq<Box<Tache>>) -> Seq<(usize, EtatTache, ContexteTache)> {
    s.map_values(|t: Box<Tache>| vue_tache(*t))
}

/// Sommet initial de la pile d'une tâche dont la pile finit à `fin_pile` : aligné sur 16 octets,
/// moins un cran pour l'alignement à l'entrée de fonction et un cran pour l'adresse de retour.
pub open spec fn sommet_pile_v(fin_pile: usize) -> int {
    fin_pile - fin_pile % 16 - 16
}

/// Sommet initial de la pile d'une tâche.
pub fn sommet_pile(fin_pile: usize) -> (r: usize)
    requires
        fin_pile >= 16,
    ensures
        r == sommet_pile_v(fin_pile),
{
    let aligne = fin_pile & !0xFusize;
    assert(aligne == fin_pile - fin_pile % 16 && aligne >= 16) by (bit_vector)
        requires
            aligne == fin_pile & !0xFusize,
            fin_pile >= 16,
    ;
    aligne - 8 - 8
}

impl Tache {
    /// Tâche prête dont la pile et les registres sont déjà préparés.
    pub fn nouvelle(id: TaskId, contexte: ContexteTache, pile: Vec<u8>) -> (r: Self)
        ensures
            vue_tache(r) == (id.0, EtatTache::Prete, contexte),
    {
        Tache { id, etat: EtatTache::Prete, contexte, pile: Some(pile) }
    }
}

/// Ordonnanceur coopératif à tourniquet.
pub struct Ordonnanceur {
    pub taches: VecDeque<Box<Tache>>,
    pub courante: Option<Box<Tache>>,
    pub prochain_id: usize,
    pub zombies: Vec<Box<Tache>>,
}

/// Modèle de l'ordonnanceur : file des tâches prêtes, tâche courante, prochain identifiant,
/// tâches terminées à libérer.
pub struct VueOrdonnanceur {
    pub file: Seq<(usize, EtatTache, ContexteTache)>,
    pub courante: Option<(usize, EtatTache, ContexteTache)>,
    pub prochain_id: nat,
    pub zombies: Seq<(usize, EtatTache, ContexteTache)>,
}

impl View for Ordonnanceur {
    type V = VueOrdonnanceur;

    open spec fn view(&self) -> VueOrdonnanceur {
        VueOrdonnanceur {
            file: vue_taches(self.taches@),
            courante: match self.courante {
                Some(t) => Some(vue_tache(*t)),
                None => None,
            },
            prochain_id: self.prochain_id as nat,
            zombies: vue_taches(self.zombies@),
        }
    }
}

/// Bascule : la tâche qui cède, puis celle qui prend la main.
pub open spec fn ceder_v(o: VueOrdonnanceur) -> (VueOrdonnanceur, bool) {
    let o1 = VueOrdonnanceur { zombies: Seq::empty(), ..o };
    if o.file.len() == 0 || o.courante is None {
        (o1, false)
    } else {
        let a = o.courante->0;
        let n = o.file[0];
        let a2 = if a.1 == EtatTache::EnCours {
            (a.0, EtatTache::Prete, a.2)
        } else {
            a
        };
        let n2 = (n.0, EtatTache::EnCours, n.2);
        if a2.1 == EtatTache::Terminee {
            (
                VueOrdonnanceur {
                    file: o.file.drop_first(),
                    courante: Some(n2),
                    zombies: seq![a2],
                    ..o
                },
                true,
            )
        } else {
            (
                VueOrdonnanceur {
                    file: o.file.drop_first().push(a2),
                    courante: Some(n2),
                    zombies: Seq::empty(),
                    ..o
                },
                true,
            )
        }
    }
}

impl Ordonnanceur {
    /// Ordonnanceur vide ; le premier identifiant attribué sera 1.
    pub fn new() -> (r: Self)
        ensures
            r@.file == Seq::<(usize, EtatTache, ContexteTache)>::empty(),
            r@.courante is None,
            r@.prochain_id == 1,
            r@.zombies == Seq::<(usize, EtatTache, ContexteTache)>::empty(),
    {
        let r = Ordonnanceur { taches: VecDeque::new(), courante: None, prochain_id: 1, zombies: Vec::new() };
        assert(r@.file =~= Seq::<(usize, EtatTache, ContexteTache)>::empty());
        assert(r@.zombies =~= Seq::<(usize, EtatTache, ContexteTache)>::empty());
        r
    }
}

/// Enregistre le fil d'exécution actuel comme tâche 0, en cours ; rend l'entrée d'audit à
/// consigner.
pub fn initialiser(ord: &mut Ordonnanceur) -> (r: String)
    ensures
        final(ord)@ == (VueOrdonnanceur {
            courante: Some((0usize, EtatTache::EnCours, ContexteTache { r15: 0, r14: 0, r13: 0, r12: 0, rbx: 0, rbp: 0, rsp: 0 })),
            ..old(ord)@
        }),
        r@ == "[TSK] Ordonnanceur cooperatif initialise (Tache 0 active)"@,
{
    let tache_principale = Box::new(
        Tache { id: TaskId(0), etat: EtatTache::EnCours, contexte: ContexteTache::default(), pile: None },
    );
    ord.courante = Some(tache_principale);
    vers_chaine("[TSK] Ordonnanceur cooperatif initialise (Tache 0 active)")
}

/// Entrée d'audit de la création d'une tâche.
pub open spec fn audit_creation(id: usize) -> Seq<char> {
    "[TSK] Tache "@ + decimal(id as nat) + " creee et placee en file prete"@
}

/// Entrée d'audit de la fin d'une tâche.
pub open spec fn audit_fin(id: usize) -> Seq<char> {
    "[TSK] Tache "@ + decimal(id as nat) + " marquee terminee"@
}

fn ligne_tache(id: usize, fin: &str) -> (r: String)
    ensures
        r@ == "[TSK] Tache "@ + decimal(id as nat) + fin@,
{
    let mut l = vers_chaine("[TSK] Tache ");
    pousser_decimal(&mut l, id as u64);
    pousser_texte(&mut l, fin);
    l
}

/// Place en fin de file une nouvelle tâche prête (registres et pile déjà préparés) ; rend son
/// identifiant et l'entrée d'audit à consigner.
pub fn creer_tache(ord: &mut Ordonnanceur, contexte: ContexteTache, pile: Vec<u8>) -> (r: (TaskId, String))
    requires
        old(ord).prochain_id < usize::MAX,
    ensures
        r.0.0 == old(ord)@.prochain_id,
        final(ord)@ == (VueOrdonnanceur {
            file: old(ord)@.file.push((r.0.0, EtatTache::Prete, contexte)),
            prochain_id: old(ord)@.prochain_id + 1,
            ..old(ord)@
        }),
        r.1@ == audit_creation(r.0.0),
{
    let id = TaskId(ord.prochain_id);
    ord.prochain_id = ord.prochain_id + 1;
    let nouvelle = Box::new(Tache::nouvelle(id, contexte, pile));
    let ghost avant = ord.taches@;
    ord.taches.push_back(nouvelle);
    assert(vue_taches(ord.taches@) =~= vue_taches(avant).push((id.0, EtatTache::Prete, contexte)));
    (id, ligne_tache(id.0, " creee et placee en file prete"))
}

/// Cède le processeur à la première tâche de la file ; la tâche qui cède repasse en fin de file
/// (ou parmi les tâches à libérer si elle est terminée). Les tâches terminées au tour précédent
/// sont libérées. Rend vrai s'il faut basculer de contexte.
pub fn ceder(ord: &mut Ordonnanceur) -> (r: bool)
    ensures
        (final(ord)@, r) == ceder_v(old(ord)@),
{
    ord.zombies.clear();
    assert(vue_taches(ord.zombies@) =~= Seq::<(usize, EtatTache, ContexteTache)>::empty());
    if ord.taches.len() == 0 {
        return false;
    }
    let mut ancienne = match ord.courante.take() {
        Some(t) => t,
        None => {
            return false;
        },
    };
    let ghost file = ord.taches@;
    let mut nouvelle = match ord.taches.pop_front() {
        Some(t) => t,
        None => {
            ord.courante = Some(ancienne);
            return false;
        },
    };
    proof {
        assert(vue_taches(ord.taches@) =~= vue_taches(file).drop_first());
        assert(vue_taches(file)[0] == vue_tache(*nouvelle));
    }
    if ancienne.etat == EtatTache::EnCours {
        ancienne.etat = EtatTache::Prete;
    }
    nouvelle.etat = EtatTache::EnCours;
    if ancienne.etat == EtatTache::Terminee {
        let ghost z = ord.zombies@;
        ord.zombies.push(ancienne);
        assert(vue_taches(ord.zombies@) =~= seq![vue_tache(*ord.zombies@[0])]);
    } else {
        let ghost avant = ord.taches@;
        ord.taches.push_back(ancienne);
        assert(vue_taches(ord.taches@) =~= vue_taches(avant).push(vue_tache(*ord.taches@.last())));
    }
    ord.courante = Some(nouvelle);
    true
}

/// Marque la tâche courante comme terminée ; rend l'entrée d'audit à consigner, s'il y a une
/// tâche courante.
pub fn terminer_tache_courante(ord: &mut Ordonnanceur) -> (r: Option<String>)
    ensures
        final(ord)@ == (VueOrdonnanceur {
            courante: match old(ord)@.courante {
                Some(t) => Some((t.0, EtatTache::Terminee, t.2)),
                None => None,
            },
            ..old(ord)@
        }),
        match old(ord)@.courante {
            Some(t) => r matches Some(a) && a@ == audit_fin(t.0),
            None => r is None,
        },
{
    match ord.courante.take() {
        Some(mut t) => {
            t.etat = EtatTache::Terminee;
            let a = ligne_tache(t.id.0, " marquee terminee");
            ord.courante = Some(t);
            Some(a)
        },
        None => None,
    }
}

/// Tourniquet : céder fait passer la première tâche prête en tête et la tâche qui cède en fin de
/// file, sans perdre ni ajouter de tâche vivante.
pub proof fn loi_tourniquet(o: VueOrdonnanceur)
    requires
        o.file.len() > 0,
        o.courante matches Some(c) && c.1 != EtatTache::Terminee,
    ensures
        ceder_v(o).1,
        ceder_v(o).0.courante == Some((o.file[0].0, EtatTache::EnCours, o.file[0].2)),
        ceder_v(o).0.file.len() == o.file.len(),
        ceder_v(o).0.file.last() == (match o.courante {
            Some(c) => (c.0, EtatTache::Prete, c.2),
            None => o.file[0],
        }),
        forall|i: int| 0 <= i < o.file.len() - 1 ==> #[trigger] ceder_v(o).0.file[i] == o.file[i + 1],
{
}

} // verus!
