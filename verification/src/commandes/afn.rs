use vstd::prelude::*;
use std::string::String;
use std::vec::Vec;
use crate::journal::{JournalNoyau, ecritures_enregistrement, fenetre, journal_valide, journal_vide, presents, vue_chaines};
use crate::session::{NiveauPrivilege, Session, rang};
use crate::texte::{egal, pousser_car, pousser_texte, rogner, rogner_v, vers_chaine, vue_mots};

verus! {

/// Ce que `afn` fait afficher.
pub enum SortieAfn {
    Lignes(Vec<String>),
    Paginer(String),
}

pub enum SortieAfnV {
    Lignes(Seq<Seq<char>>),
    Paginer(Seq<char>),
}

pub open spec fn vue_sortie_afn(s: SortieAfn) -> SortieAfnV {
    match s {
        SortieAfn::Lignes(v) => SortieAfnV::Lignes(vue_mots(v@)),
        SortieAfn::Paginer(t) => SortieAfnV::Paginer(t@),
    }
}

/// Texte paginé : l'en-tête, chaque message suivi d'un saut de ligne, puis le pied.
pub open spec fn texte_journal(msgs: Seq<Seq<char>>) -> Seq<char>
    decreases msgs.len(),
{
    if msgs.len() == 0 {
        "--- Journal des messages du noyau QBX ---\n"@
    } else {
        texte_journal(msgs.drop_last()) + msgs.last() + seq!['\n']
    }
}

/// Affichage des messages du journal par `afn` : page par page au-delà de 20 messages.
pub open spec fn afn_lecture_v(msgs: Seq<Seq<char>>) -> SortieAfnV {
    if msgs.len() == 0 {
        SortieAfnV::Lignes(seq!["afn: Aucun message dans le journal du noyau."@])
    } else if msgs.len() > 20 {
        SortieAfnV::Paginer(texte_journal(msgs) + "-----------------------------------------"@)
    } else {
        SortieAfnV::Lignes(
            seq!["--- Journal des messages du noyau QBX ---"@] + msgs + seq!["-----------------------------------------"@],
        )
    }
}

/// La commande demande la purge (`afn -c`).
pub open spec fn demande_purge(args: Seq<char>) -> bool {
    rogner_v(args) == "-c"@
}

/// Refus de purge faute de privilège (Administrateur requis).
pub open spec fn purge_refusee(niveau: NiveauPrivilege) -> bool {
    rang(niveau) < rang(NiveauPrivilege::Administrateur)
}

/// Message consigné après une purge.
pub open spec fn message_purge() -> Seq<char> {
    "[AUDIT] Journal système réinitialisé"@
}

/// Commande `afn [-c]` : affiche le journal, ou le purge (`-c`, Administrateur requis) en consignant
/// la purge à l'heure `heure`. Rend l'affichage et les écritures qui persistent le journal.
pub fn executer(journal: &mut JournalNoyau, session: &Session, args: &str, heure: (u8, u8, u8)) -> (r: (
    SortieAfn,
    Vec<(u64, Vec<u8>)>,
))
    requires
        journal_valide(old(journal)@),
    ensures
        journal_valide(final(journal)@),
        demande_purge(args@) && purge_refusee(session@.niveau) ==> final(journal)@ == old(journal)@
            && vue_sortie_afn(r.0) == SortieAfnV::Lignes(
            seq!["afn: EPERM - Privilèges insuffisants pour purger le journal."@],
        ) && r.1@.len() == 0,
        demande_purge(args@) && !purge_refusee(session@.niveau) ==> {
            let l = crate::journal::ligne_v(heure.0, heure.1, heure.2, message_purge());
            &&& fenetre(final(journal)@) == seq![Some(l)]
            &&& vue_sortie_afn(r.0) == SortieAfnV::Lignes(seq!["afn: Journal d'audit noyau purgé avec succès."@])
            &&& r.1@.len() == 2
            &&& forall|k: int|
                0 <= k < 2 ==> (#[trigger] r.1@[k]).0 == ecritures_enregistrement(journal_vide(), final(journal)@, l)[k].0
                    && r.1@[k].1@ == ecritures_enregistrement(journal_vide(), final(journal)@, l)[k].1
        },
        !demande_purge(args@) ==> final(journal)@ == old(journal)@ && vue_sortie_afn(r.0) == afn_lecture_v(
            presents(fenetre(old(journal)@)),
        ) && r.1@.len() == 0,
{
    let option = rogner(args);
    let mut lignes: Vec<String> = Vec::new();
    if egal(option.as_str(), "-c") {
        if !session.a_privilege(NiveauPrivilege::Administrateur) {
            lignes.push(vers_chaine("afn: EPERM - Privilèges insuffisants pour purger le journal."));
            assert(vue_mots(lignes@) =~= seq!["afn: EPERM - Privilèges insuffisants pour purger le journal."@]);
            return (SortieAfn::Lignes(lignes), Vec::new());
        }
        crate::journal::purger(journal);
        proof {
            assert(fenetre(journal@) =~= Seq::<Option<Seq<char>>>::empty());
            assert(journal@ == journal_vide());
        }
        let ecritures = crate::journal::enregistrer(journal, heure, "[AUDIT] Journal système réinitialisé");
        lignes.push(vers_chaine("afn: Journal d'audit noyau purgé avec succès."));
        assert(vue_mots(lignes@) =~= seq!["afn: Journal d'audit noyau purgé avec succès."@]);
        return (SortieAfn::Lignes(lignes), ecritures);
    }
    let entrees = journal.lire_tous();
    let ghost m = presents(fenetre(journal@));
    assert(vue_chaines(entrees@) == vue_mots(entrees@));
    if entrees.len() == 0 {
        lignes.push(vers_chaine("afn: Aucun message dans le journal du noyau."));
        assert(vue_mots(lignes@) =~= seq!["afn: Aucun message dans le journal du noyau."@]);
        return (SortieAfn::Lignes(lignes), Vec::new());
    }
    if entrees.len() > 20 {
        let mut sortie = vers_chaine("--- Journal des messages du noyau QBX ---\n");
        let mut i: usize = 0;
        while i < entrees.len()
            invariant
                vue_mots(entrees@) == m,
                i <= entrees@.len(),
                sortie@ == texte_journal(m.take(i as int)),
            decreases entrees@.len() - i,
        {
            proof {
                assert(m.take(i + 1).drop_last() =~= m.take(i as int));
                assert(m.take(i + 1).last() == entrees@[i as int]@);
            }
            pousser_texte(&mut sortie, entrees[i].as_str());
            pousser_car(&mut sortie, '\n');
            i = i + 1;
        }
        pousser_texte(&mut sortie, "-----------------------------------------");
        assert(m.take(entrees@.len() as int) =~= m);
        return (SortieAfn::Paginer(sortie), Vec::new());
    }
    lignes.push(vers_chaine("--- Journal des messages du noyau QBX ---"));
    let mut i: usize = 0;
    while i < entrees.len()
        invariant
            vue_mots(entrees@) == m,
            i <= entrees@.len(),
            vue_mots(lignes@) == seq!["--- Journal des messages du noyau QBX ---"@] + m.take(i as int),
        decreases entrees@.len() - i,
    {
        let ghost avant = lignes@;
        let l = vers_chaine(entrees[i].as_str());
        let ghost lv = l@;
        lignes.push(l);
        proof {
            assert(vue_mots(lignes@) =~= vue_mots(avant).push(lv));
            assert(m[i as int] == entrees@[i as int]@);
        }
        i = i + 1;
        assert(vue_mots(lignes@) =~= seq!["--- Journal des messages du noyau QBX ---"@] + m.take(i as int));
    }
    let ghost avant = lignes@;
    lignes.push(vers_chaine("-----------------------------------------"));
    assert(vue_mots(lignes@) =~= vue_mots(avant).push("-----------------------------------------"@));
    assert(m.take(entrees@.len() as int) =~= m);
    assert(vue_mots(lignes@) =~= seq!["--- Journal des messages du noyau QBX ---"@] + m + seq![
        "-----------------------------------------"@,
    ]);
    (SortieAfn::Lignes(lignes), Vec::new())
}

} // verus!
