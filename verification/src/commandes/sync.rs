use vstd::prelude::*;
use std::string::String;
use std::vec::Vec;
use crate::fs::{FileSystem, ecritures_sync_v, synchroniser};
use crate::journal::{CAPACITE_MAX, JournalNoyau, ecritures_enregistrement, enregistrer, fenetre, journal_valide, ligne_v};
use crate::texte::vers_chaine;

verus! {

/// Message consigné par `sync`.
pub open spec fn message_sync() -> Seq<char> {
    "[SYNC] Synchronisation forcée des tampons VFS vers SATA (/var)"@
}

/// Ce que `sync` rend : les écritures du VFS sur /var, celles du journal, et la ligne affichée.
pub struct SortieSync {
    pub ecritures_vfs: Vec<(u64, Vec<u8>)>,
    pub ecritures_journal: Vec<(u64, Vec<u8>)>,
    pub ligne: String,
}

/// Commande `sync` : persiste le VFS sur /var, puis consigne la synchronisation au journal à
/// l'heure `heure`.
pub fn executer(fs: &FileSystem, journal: &mut JournalNoyau, heure: (u8, u8, u8)) -> (r: SortieSync)
    requires
        journal_valide(old(journal)@),
    ensures
        ecritures_sync_v(fs@.racine, r.ecritures_vfs@),
        journal_valide(final(journal)@),
        fenetre(final(journal)@) == if old(journal)@.taille < CAPACITE_MAX {
            fenetre(old(journal)@).push(Some(ligne_v(heure.0, heure.1, heure.2, message_sync())))
        } else {
            fenetre(old(journal)@).drop_first().push(Some(ligne_v(heure.0, heure.1, heure.2, message_sync())))
        },
        r.ecritures_journal@.len() == 2,
        forall|k: int|
            0 <= k < 2 ==> (#[trigger] r.ecritures_journal@[k]).0 == ecritures_enregistrement(
                old(journal)@,
                final(journal)@,
                ligne_v(heure.0, heure.1, heure.2, message_sync()),
            )[k].0 && r.ecritures_journal@[k].1@ == ecritures_enregistrement(
                old(journal)@,
                final(journal)@,
                ligne_v(heure.0, heure.1, heure.2, message_sync()),
            )[k].1,
        r.ligne@ == "sync: Synchronisation terminée. Tampons VFS vidés vers le contrôleur SATA (/var)."@,
{
    let ecritures_vfs = synchroniser(fs);
    let ecritures_journal = enregistrer(journal, heure, "[SYNC] Synchronisation forcée des tampons VFS vers SATA (/var)");
    let ligne = vers_chaine("sync: Synchronisation terminée. Tampons VFS vidés vers le contrôleur SATA (/var).");
    SortieSync { ecritures_vfs, ecritures_journal, ligne }
}

} // verus!
