use vstd::prelude::*;
use std::vec::Vec;
use crate::fs::{FileSystem, VueFs, dossier_a, ecrire_v, lire_v, sync_si};
use crate::fs::node::Horodatage;
use std::string::String;
use crate::journal::{CAPACITE_MAX, JournalNoyau, VueJournal, ecritures_enregistrement, enregistrer, fenetre, journal_valide, ligne_v};
use crate::texte::{decimal, pousser_decimal, pousser_texte, texte_utf8, vers_chaine, vue_mots};

verus! {

pub const SYS_EXIT: usize = 1;
pub const SYS_WRITE: usize = 2;
pub const SYS_LOG: usize = 3;
pub const SYS_READ: usize = 4;
pub const SYS_WRITE_FILE: usize = 5;

/// Taille d'une page.
pub const TAILLE_PAGE: u64 = 4096;

/// Page qui contient l'adresse `a`.
pub open spec fn page_de(a: u64) -> u64 {
    (a - a % 4096) as u64
}

/// Adresses dont la traduction est vérifiée pour la plage [ptr, ptr + len - 1] : son début, sa fin,
/// puis le début de chaque page strictement entre la page du début et celle de la fin (comprise).
/// Aucune si la plage est vide ou commence à l'adresse nulle.
pub open spec fn adresses_v(ptr: usize, len: usize) -> Seq<u64> {
    if len == 0 || ptr == 0 {
        Seq::empty()
    } else {
        let debut = ptr as u64;
        let fin = (ptr + len - 1) as u64;
        let pd = page_de(debut);
        let pf = page_de(fin);
        let n = (pf - pd) / 4096;
        seq![debut, fin] + Seq::new(n as nat, |k: int| (pd + 4096 * (k + 1)) as u64)
    }
}

/// La plage tient dans l'espace d'adressage, sa dernière page comprise.
pub open spec fn plage_representable(ptr: usize, len: usize) -> bool {
    len == 0 || ptr == 0 || (ptr + len <= usize::MAX && ptr + len - 1 <= u64::MAX - 4096)
}

proof fn lemme_page(a: u64)
    ensures
        page_de(a) <= a,
        page_de(a) % 4096 == 0,
        a - page_de(a) < 4096,
{
}

/// Adresses à traduire pour valider la plage [ptr, ptr + len - 1].
pub fn adresses_a_verifier(ptr: usize, len: usize) -> (r: Vec<u64>)
    requires
        plage_representable(ptr, len),
    ensures
        r@ == adresses_v(ptr, len),
{
    let mut r: Vec<u64> = Vec::new();
    if len == 0 || ptr == 0 {
        return r;
    }
    let debut = ptr as u64;
    let fin = (ptr + len - 1) as u64;
    r.push(debut);
    r.push(fin);
    let page_debut = debut - debut % 4096;
    let page_fin = fin - fin % 4096;
    proof {
        lemme_page(debut);
        lemme_page(fin);
        assert(page_debut <= page_fin);
    }
    let ghost n = (page_fin - page_debut) / 4096;
    let mut p = page_debut + 4096;
    let mut k: u64 = 0;
    while p <= page_fin
        invariant
            page_debut % 4096 == 0,
            page_fin % 4096 == 0,
            page_debut <= page_fin,
            page_fin <= u64::MAX - 4096,
            n == (page_fin - page_debut) / 4096,
            p == page_debut + 4096 * (k + 1),
            k <= n,
            r@ == seq![debut, fin] + Seq::new(k as nat, |j: int| (page_debut + 4096 * (j + 1)) as u64),
        decreases page_fin - page_debut - 4096 * k,
    {
        r.push(p);
        assert(k + 1 <= n) by (nonlinear_arith)
            requires
                page_debut + 4096 * (k + 1) <= page_fin,
                n == (page_fin - page_debut) / 4096,
        ;
        k = k + 1;
        p = p + 4096;
        assert(r@ =~= seq![debut, fin] + Seq::new(k as nat, |j: int| (page_debut + 4096 * (j + 1)) as u64));
    }
    assert(k == n) by (nonlinear_arith)
        requires
            page_debut + 4096 * (k + 1) > page_fin,
            k <= n,
            n == (page_fin - page_debut) / 4096,
    ;
    r
}

/// La plage est valide quand elle est non vide, ne commence pas à l'adresse nulle et que chaque
/// adresse vérifiée se traduit (`traduites[i]` : l'adresse `i` a une traduction).
pub fn valider_plage_memoire(ptr: usize, len: usize, traduites: &Vec<bool>) -> (r: bool)
    requires
        traduites@.len() == adresses_v(ptr, len).len(),
    ensures
        r == (len != 0 && ptr != 0 && forall|i: int| 0 <= i < traduites@.len() ==> #[trigger] traduites@[i]),
{
    if len == 0 || ptr == 0 {
        return false;
    }
    let mut i: usize = 0;
    while i < traduites.len()
        invariant
            i <= traduites@.len(),
            forall|j: int| 0 <= j < i ==> #[trigger] traduites@[j],
        decreases traduites@.len() - i,
    {
        if !traduites[i] {
            return false;
        }
        i = i + 1;
    }
    true
}

/// Résultat d'un appel système. `nom` : les octets de la plage passée en argument, si elle a été
/// validée (`None` sinon) ; lus seulement pour SYS_READ et SYS_WRITE_FILE.
pub open spec fn syscall_v(fs: VueFs, id: usize, nom: Option<Seq<u8>>, h: Horodatage) -> (VueFs, isize) {
    if id == SYS_EXIT || id == SYS_WRITE || id == SYS_LOG {
        (fs, 0isize)
    } else if id == SYS_READ || id == SYS_WRITE_FILE {
        match nom {
            None => (fs, -5isize),
            Some(b) => if !vstd::utf8::valid_utf8(b) {
                (fs, -2isize)
            } else if b.len() == 0 {
                (fs, -1isize)
            } else if id == SYS_READ {
                (fs, if lire_v(fs, vstd::utf8::decode_utf8(b)) is Some {
                    0isize
                } else {
                    -3isize
                })
            } else {
                (ecrire_v(fs, vstd::utf8::decode_utf8(b), Seq::empty(), h), 0isize)
            },
        }
    } else {
        (fs, -1isize)
    }
}

/// Lignes affichées par un appel système.
pub open spec fn console_syscall_v(fs: VueFs, id: usize, nom: Option<Seq<u8>>) -> Seq<Seq<char>> {
    if id == SYS_EXIT {
        seq!["[SYSCALL] Terminaison demandée (exit)."@]
    } else if id == SYS_WRITE || id == SYS_LOG {
        Seq::empty()
    } else if id == SYS_READ || id == SYS_WRITE_FILE {
        match nom {
            None => if id == SYS_READ {
                seq!["[SYSCALL] Erreur de sécurité : Plage mémoire invalide ou non mappée (SYS_READ)."@]
            } else {
                seq!["[SYSCALL] Erreur de sécurité : Plage mémoire invalide ou non mappée (SYS_WRITE_FILE)."@]
            },
            Some(b) => if !vstd::utf8::valid_utf8(b) {
                Seq::empty()
            } else if b.len() == 0 {
                if id == SYS_READ {
                    seq!["[SYSCALL] Erreur : Aucun nom de fichier spécifié pour la lecture."@]
                } else {
                    seq!["[SYSCALL] Erreur : Aucun nom de fichier spécifié pour l'écriture."@]
                }
            } else if id == SYS_READ {
                let n = vstd::utf8::decode_utf8(b);
                seq!["[SYSCALL] Lecture VFS demandée pour le fichier : '"@ + n + "'"@] + match lire_v(fs, n) {
                    Some(d) => seq!["[VFS] Fichier lu avec succès ("@ + decimal(d.len()) + " octets)"@],
                    None => Seq::empty(),
                }
            } else {
                seq![
                    "[SYSCALL] Écriture VFS demandée pour le fichier : '"@ + vstd::utf8::decode_utf8(b) + "'"@,
                    "[VFS] Écriture réussie sur le disque."@,
                ]
            },
        }
    } else {
        seq!["[SYSCALL] Erreur : Numéro de syscall inconnu ("@ + decimal(id as nat) + ")"@]
    }
}

/// Message consigné au journal par SYS_LOG.
pub open spec fn message_audit_syscall() -> Seq<char> {
    "[SYSCALL] Entrée d'audit générée par appel système"@
}

/// Effet d'un appel système sur le journal : SYS_LOG y consigne l'entrée d'audit datée de `h`
/// et rend les écritures qui la persistent ; les autres appels n'y touchent pas.
pub open spec fn audit_syscall(avant: VueJournal, apres: VueJournal, id: usize, h: Horodatage, w: Seq<(u64, Vec<u8>)>) -> bool {
    let l = ligne_v(h.heure, h.minute, h.seconde, message_audit_syscall());
    if id == SYS_LOG {
        &&& fenetre(apres) == if avant.taille < CAPACITE_MAX {
            fenetre(avant).push(Some(l))
        } else {
            fenetre(avant).drop_first().push(Some(l))
        }
        &&& w.len() == 2
        &&& forall|k: int|
            0 <= k < 2 ==> (#[trigger] w[k]).0 == ecritures_enregistrement(avant, apres, l)[k].0 && w[k].1@
                == ecritures_enregistrement(avant, apres, l)[k].1
    } else {
        apres == avant && w.len() == 0
    }
}

/// Ce qu'un appel système produit : son code de retour, les lignes affichées, et les écritures
/// qui persistent le journal (SYS_LOG seulement).
pub struct EffetsSyscall {
    pub code: isize,
    pub console: Vec<String>,
    pub ecritures_journal: Vec<(u64, Vec<u8>)>,
    pub ecritures_fs: Vec<(u64, Vec<u8>)>,
}

/// L'appel crée bien un fichier du VFS : SYS_WRITE_FILE, avec un nom de fichier non vide en UTF-8
/// valide, dans un répertoire courant qui existe.
pub open spec fn syscall_ecrit(fs: VueFs, id: usize, nom: Option<Seq<u8>>) -> bool {
    &&& id == SYS_WRITE_FILE
    &&& nom matches Some(b) && vstd::utf8::valid_utf8(b) && b.len() > 0
    &&& dossier_a(fs.racine, fs.cwd) is Some
}

/// Vue des octets d'un argument.
pub open spec fn vue_nom(nom: Option<&[u8]>) -> Option<Seq<u8>> {
    match nom {
        Some(b) => Some(b@),
        None => None,
    }
}

fn ligne_avec(debut: &str, milieu: &str, fin: &str) -> (r: String)
    ensures
        r@ == debut@ + milieu@ + fin@,
{
    let mut l = vers_chaine(debut);
    pousser_texte(&mut l, milieu);
    pousser_texte(&mut l, fin);
    l
}

fn ligne_nombre(debut: &str, n: u64, fin: &str) -> (r: String)
    ensures
        r@ == debut@ + decimal(n as nat) + fin@,
{
    let mut l = vers_chaine(debut);
    pousser_decimal(&mut l, n);
    pousser_texte(&mut l, fin);
    l
}

/// Répartiteur des appels système : lecture (-3 si le fichier manque) ou création d'un fichier vide ;
/// -5 pour une plage invalide, -2 pour un nom qui n'est pas de l'UTF-8, -1 pour un nom vide ou un
/// numéro inconnu. SYS_LOG consigne une entrée d'audit au journal, à l'heure `h`.
pub fn executer_syscall(
    fs: &mut FileSystem,
    journal: &mut JournalNoyau,
    id: usize,
    nom: Option<&[u8]>,
    h: Horodatage,
) -> (r: EffetsSyscall)
    requires
        journal_valide(old(journal)@),
    ensures
        (final(fs)@, r.code) == syscall_v(old(fs)@, id, vue_nom(nom), h),
        vue_mots(r.console@) == console_syscall_v(old(fs)@, id, vue_nom(nom)),
        journal_valide(final(journal)@),
        audit_syscall(old(journal)@, final(journal)@, id, h, r.ecritures_journal@),
        sync_si(syscall_ecrit(old(fs)@, id, vue_nom(nom)), final(fs)@.racine, r.ecritures_fs@),
{
    let mut console: Vec<String> = Vec::new();
    let ghost fs0 = fs@;
    if id == SYS_EXIT {
        console.push(vers_chaine("[SYSCALL] Terminaison demandée (exit)."));
        assert(vue_mots(console@) =~= console_syscall_v(fs0, id, vue_nom(nom)));
        return EffetsSyscall { code: 0, console, ecritures_journal: Vec::new(), ecritures_fs: Vec::new() };
    }
    if id == SYS_WRITE {
        assert(vue_mots(console@) =~= console_syscall_v(fs0, id, vue_nom(nom)));
        return EffetsSyscall { code: 0, console, ecritures_journal: Vec::new(), ecritures_fs: Vec::new() };
    }
    if id == SYS_LOG {
        let ecritures_journal = enregistrer(
            journal,
            (h.heure, h.minute, h.seconde),
            "[SYSCALL] Entrée d'audit générée par appel système",
        );
        assert(vue_mots(console@) =~= console_syscall_v(fs0, id, vue_nom(nom)));
        return EffetsSyscall { code: 0, console, ecritures_journal, ecritures_fs: Vec::new() };
    }
    if id == SYS_READ || id == SYS_WRITE_FILE {
        let octets = match nom {
            None => {
                if id == SYS_READ {
                    console.push(vers_chaine("[SYSCALL] Erreur de sécurité : Plage mémoire invalide ou non mappée (SYS_READ)."));
                } else {
                    console.push(vers_chaine("[SYSCALL] Erreur de sécurité : Plage mémoire invalide ou non mappée (SYS_WRITE_FILE)."));
                }
                assert(vue_mots(console@) =~= console_syscall_v(fs0, id, vue_nom(nom)));
                return EffetsSyscall { code: -5, console, ecritures_journal: Vec::new(), ecritures_fs: Vec::new() };
            },
            Some(b) => b,
        };
        let nom_fichier = match texte_utf8(octets) {
            Some(s) => s,
            None => {
                assert(vue_mots(console@) =~= console_syscall_v(fs0, id, vue_nom(nom)));
                return EffetsSyscall { code: -2, console, ecritures_journal: Vec::new(), ecritures_fs: Vec::new() };
            },
        };
        if octets.len() == 0 {
            if id == SYS_READ {
                console.push(vers_chaine("[SYSCALL] Erreur : Aucun nom de fichier spécifié pour la lecture."));
            } else {
                console.push(vers_chaine("[SYSCALL] Erreur : Aucun nom de fichier spécifié pour l'écriture."));
            }
            assert(vue_mots(console@) =~= console_syscall_v(fs0, id, vue_nom(nom)));
            return EffetsSyscall { code: -1, console, ecritures_journal: Vec::new(), ecritures_fs: Vec::new() };
        }
        if id == SYS_READ {
            console.push(ligne_avec("[SYSCALL] Lecture VFS demandée pour le fichier : '", nom_fichier.as_str(), "'"));
            let code: isize = match crate::fs::lire(fs, nom_fichier.as_str()) {
                Some(contenu) => {
                    console.push(ligne_nombre("[VFS] Fichier lu avec succès (", contenu.len() as u64, " octets)"));
                    0
                },
                None => -3,
            };
            assert(vue_mots(console@) =~= console_syscall_v(fs0, id, vue_nom(nom)));
            EffetsSyscall { code, console, ecritures_journal: Vec::new(), ecritures_fs: Vec::new() }
        } else {
            console.push(ligne_avec("[SYSCALL] Écriture VFS demandée pour le fichier : '", nom_fichier.as_str(), "'"));
            let vide: Vec<u8> = Vec::new();
            let ecritures_fs = crate::fs::ecrire(fs, nom_fichier.as_str(), vide.as_slice(), h);
            assert(vide@ =~= Seq::<u8>::empty());
            console.push(vers_chaine("[VFS] Écriture réussie sur le disque."));
            assert(vue_mots(console@) =~= console_syscall_v(fs0, id, vue_nom(nom)));
            EffetsSyscall { code: 0, console, ecritures_journal: Vec::new(), ecritures_fs }
        }
    } else {
        console.push(ligne_nombre("[SYSCALL] Erreur : Numéro de syscall inconnu (", id as u64, ")"));
        assert(vue_mots(console@) =~= console_syscall_v(fs0, id, vue_nom(nom)));
        EffetsSyscall { code: -1, console, ecritures_journal: Vec::new(), ecritures_fs: Vec::new() }
    }
}

} // verus!
