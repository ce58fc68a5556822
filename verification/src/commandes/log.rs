use vstd::prelude::*;
use std::string::String;
use std::vec::Vec;
use crate::journal::{JournalNoyau, fenetre, journal_valide, presents, vue_chaines};
use crate::texte::{vers_chaine, vue_mots};

verus! {

/// Lignes affichées par `log` pour les messages du journal.
pub open spec fn log_v(msgs: Seq<Seq<char>>) -> Seq<Seq<char>> {
    if msgs.len() == 0 {
        seq!["Journal du noyau : Aucun événement enregistré."@]
    } else {
        seq!["--- [ Journal du noyau QBX (Audit & Système) ] ---"@] + msgs + seq![
            "--------------------------------------------------"@,
        ]
    }
}

/// Commande `log` : rend les lignes à afficher.
pub fn executer(journal: &JournalNoyau) -> (r: Vec<String>)
    requires
        journal_valide(journal@),
    ensures
        vue_mots(r@) == log_v(presents(fenetre(journal@))),
{
    let messages = journal.lire_tous();
    let ghost m = presents(fenetre(journal@));
    assert(vue_chaines(messages@) == vue_mots(messages@));
    let mut lignes: Vec<String> = Vec::new();
    if messages.len() == 0 {
        lignes.push(vers_chaine("Journal du noyau : Aucun événement enregistré."));
        assert(vue_mots(lignes@) =~= log_v(m));
        return lignes;
    }
    lignes.push(vers_chaine("--- [ Journal du noyau QBX (Audit & Système) ] ---"));
    let mut i: usize = 0;
    while i < messages.len()
        invariant
            vue_mots(messages@) == m,
            i <= messages@.len(),
            vue_mots(lignes@) == seq!["--- [ Journal du noyau QBX (Audit & Système) ] ---"@] + m.take(i as int),
        decreases messages@.len() - i,
    {
        let ghost avant = lignes@;
        let l = vers_chaine(messages[i].as_str());
        let ghost lv = l@;
        lignes.push(l);
        proof {
            assert(vue_mots(lignes@) =~= vue_mots(avant).push(lv));
            assert(m[i as int] == messages@[i as int]@);
        }
        i = i + 1;
        assert(vue_mots(lignes@) =~= seq!["--- [ Journal du noyau QBX (Audit & Système) ] ---"@] + m.take(i as int));
    }
    let ghost avant = lignes@;
    lignes.push(vers_chaine("--------------------------------------------------"));
    assert(vue_mots(lignes@) =~= vue_mots(avant).push("--------------------------------------------------"@));
    assert(m.take(messages@.len() as int) =~= m);
    assert(vue_mots(lignes@) =~= log_v(m));
    lignes
}

} // verus!
