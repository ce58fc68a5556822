use vstd::prelude::*;
use std::string::String;
use crate::fs::node::vue_chemin;

verus! {

/// Codes d'erreurs standardisés pour les opérations VFS.
#[derive(Debug, Clone, Copy, PartialEq, Eq, Structural)]
pub enum VfsError {
    SourceIntrouvable,
    DestinationIntrouvable,
    CibleExisteDeja,
    PasUnRepertoire,
    EstUnRepertoire,
    CycleDetecte,
    CheminInvalide,
}

impl VfsError {
    /// Message lisible associé à chaque code.
    pub fn message(&self) -> (r: &'static str)
        ensures
            r@ == message_v(*self),
    {
        match self {
            VfsError::SourceIntrouvable => "Fichier ou repertoire source introuvable.",
            VfsError::DestinationIntrouvable => "Repertoire de destination introuvable.",
            VfsError::CibleExisteDeja => "La cible existe deja.",
            VfsError::PasUnRepertoire => "Le chemin de destination n'est pas un repertoire.",
            VfsError::EstUnRepertoire => "La source est un repertoire (utiliser -r).",
            VfsError::CycleDetecte => "Impossible de copier un repertoire a l'interieur de lui-meme.",
            VfsError::CheminInvalide => "Chemin specifie invalide.",
        }
    }
}

pub open spec fn message_v(e: VfsError) -> Seq<char> {
    match e {
        VfsError::SourceIntrouvable => "Fichier ou repertoire source introuvable."@,
        VfsError::DestinationIntrouvable => "Repertoire de destination introuvable."@,
        VfsError::CibleExisteDeja => "La cible existe deja."@,
        VfsError::PasUnRepertoire => "Le chemin de destination n'est pas un repertoire."@,
        VfsError::EstUnRepertoire => "La source est un repertoire (utiliser -r)."@,
        VfsError::CycleDetecte => "Impossible de copier un repertoire a l'interieur de lui-meme."@,
        VfsError::CheminInvalide => "Chemin specifie invalide."@,
    }
}

/// Catégorisation de l'opération de copie (fichier vers fichier, ou vers un répertoire).
#[derive(Debug, Clone, Copy, PartialEq, Eq, Structural)]
pub enum TypeOperationCopie {
    FichierVersFichier,
    VersRepertoire,
}

/// `cible` commence par `source` (ou lui est égal).
pub open spec fn est_descendant_v(source: Seq<Seq<char>>, cible: Seq<Seq<char>>) -> bool {
    source.len() <= cible.len() && cible.take(source.len() as int) == source
}

/// Vrai si `chemin_cible` est `chemin_source` ou se trouve sous lui.
pub fn est_descendant(chemin_source: &[String], chemin_cible: &[String]) -> (r: bool)
    ensures
        r == est_descendant_v(vue_chemin(chemin_source@), vue_chemin(chemin_cible@)),
{
    if chemin_cible.len() < chemin_source.len() {
        return false;
    }
    let mut i: usize = 0;
    while i < chemin_source.len()
        invariant
            i <= chemin_source.len() <= chemin_cible.len(),
            forall|j: int| 0 <= j < i ==> chemin_cible@[j]@ == (#[trigger] chemin_source@[j])@,
        decreases chemin_source.len() - i,
    {
        if chemin_source[i] != chemin_cible[i] {
            proof {
                let vs = vue_chemin(chemin_source@);
                let vc = vue_chemin(chemin_cible@);
                assert(vc.take(vs.len() as int)[i as int] != vs[i as int]);
            }
            return false;
        }
        i = i + 1;
    }
    proof {
        let vs = vue_chemin(chemin_source@);
        let vc = vue_chemin(chemin_cible@);
        assert(vc.take(vs.len() as int) =~= vs);
    }
    true
}

} // verus!
