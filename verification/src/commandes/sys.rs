use vstd::prelude::*;
use std::string::String;
use std::vec::Vec;
use crate::fs::FileSystem;
use crate::fs::node::Horodatage;
use crate::journal::{JournalNoyau, journal_valide};
use crate::syscalls::{audit_syscall, console_syscall_v, executer_syscall, syscall_ecrit, syscall_v};
use crate::fs::sync_si;
use crate::texte::{
    analyser_usize, analyser_usize_v, decimal, decouper_mots, mots, pousser_car, pousser_decimal, pousser_texte,
    vers_chaine, vue_mots,
};

verus! {

/// Écriture décimale d'un entier signé.
pub open spec fn entier_v(n: int) -> Seq<char> {
    if n < 0 {
        seq!['-'] + decimal((-n) as nat)
    } else {
        decimal(n as nat)
    }
}

fn pousser_entier(s: &mut String, n: isize)
    ensures
        final(s)@ == old(s)@ + entier_v(n as int),
{
    if n < 0 {
        pousser_car(s, '-');
        let m: u64 = (0i128 - n as i128) as u64;
        pousser_decimal(s, m);
    } else {
        pousser_decimal(s, n as u64);
    }
    assert(final(s)@ =~= old(s)@ + entier_v(n as int));
}

/// Argument passé à l'appel système : les octets du deuxième mot, qui est en mémoire du noyau et
/// donc projeté ; sans deuxième mot, la plage vide, refusée comme invalide.
pub open spec fn argument_sys(ws: Seq<Seq<char>>) -> Option<Seq<u8>> {
    if ws.len() > 1 {
        Some(vstd::utf8::encode_utf8(ws[1]))
    } else {
        None
    }
}

/// Dernière ligne affichée par `sys` : le numéro de l'appel et son code de retour.
pub open spec fn ligne_retour_v(id: usize, code: isize) -> Seq<char> {
    "[SYSCALL] Appel "@ + decimal(id as nat) + " exécuté (code retour : "@ + entier_v(code as int) + ")"@
}

/// Lignes d'usage de `sys`.
pub open spec fn usage_sys() -> Seq<Seq<char>> {
    seq!["Usage : sys <id> [argument]"@, "Exemple : sys 4 mon_fichier.sh"@]
}

/// Commande `sys <id> [argument]` : exécute l'appel système `id` sur l'argument, à l'heure `h`.
/// Rend les lignes affichées et les écritures qui persistent le journal.
pub fn executer(fs: &mut FileSystem, journal: &mut JournalNoyau, args: &str, h: Horodatage) -> (r: (
    Vec<String>,
    Vec<(u64, Vec<u8>)>,
    Vec<(u64, Vec<u8>)>,
))
    requires
        journal_valide(old(journal)@),
    ensures
        journal_valide(final(journal)@),
        mots(args@).len() == 0 ==> vue_mots(r.0@) == usage_sys() && final(fs)@ == old(fs)@ && final(journal)@
            == old(journal)@ && r.1@.len() == 0 && r.2@.len() == 0,
        mots(args@).len() > 0 && analyser_usize_v(mots(args@)[0]) is None ==> vue_mots(r.0@) == seq![
            "sys: identifiant invalide"@,
        ] && final(fs)@ == old(fs)@ && final(journal)@ == old(journal)@ && r.1@.len() == 0 && r.2@.len() == 0,
        mots(args@).len() > 0 ==> (analyser_usize_v(mots(args@)[0]) matches Some(id) ==> {
            let nom = argument_sys(mots(args@));
            let (fs2, code) = syscall_v(old(fs)@, id, nom, h);
            &&& final(fs)@ == fs2
            &&& vue_mots(r.0@) == console_syscall_v(old(fs)@, id, nom).push(ligne_retour_v(id, code))
            &&& audit_syscall(old(journal)@, final(journal)@, id, h, r.1@)
            &&& sync_si(syscall_ecrit(old(fs)@, id, nom), final(fs)@.racine, r.2@)
        }),
{
    let parties = decouper_mots(args);
    let ghost ws = mots(args@);
    if parties.len() == 0 {
        let mut l: Vec<String> = Vec::new();
        l.push(vers_chaine("Usage : sys <id> [argument]"));
        l.push(vers_chaine("Exemple : sys 4 mon_fichier.sh"));
        assert(vue_mots(l@) =~= usage_sys());
        return (l, Vec::new(), Vec::new());
    }
    assert(parties@[0]@ == ws[0]);
    let id = match analyser_usize(parties[0].as_str()) {
        Some(n) => n,
        None => {
            let mut l: Vec<String> = Vec::new();
            l.push(vers_chaine("sys: identifiant invalide"));
            assert(vue_mots(l@) =~= seq!["sys: identifiant invalide"@]);
            return (l, Vec::new(), Vec::new());
        },
    };
    let effets = if parties.len() > 1 {
        assert(parties@[1]@ == ws[1]);
        executer_syscall(fs, journal, id, Some(parties[1].as_str().as_bytes()), h)
    } else {
        executer_syscall(fs, journal, id, None, h)
    };
    let mut lignes = effets.console;
    let mut derniere = vers_chaine("[SYSCALL] Appel ");
    pousser_decimal(&mut derniere, id as u64);
    pousser_texte(&mut derniere, " exécuté (code retour : ");
    pousser_entier(&mut derniere, effets.code);
    pousser_texte(&mut derniere, ")");
    let ghost avant = lignes@;
    lignes.push(derniere);
    assert(vue_mots(lignes@) =~= vue_mots(avant).push(ligne_retour_v(id, effets.code)));
    (lignes, effets.ecritures_journal, effets.ecritures_fs)
}

} // verus!
