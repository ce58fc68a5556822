use qbx::commandes::afn::SortieAfn;
use qbx::commandes::cat::{calculer_lignes_ecran, SortieCat};
use qbx::commandes::mnl::SortieMnl;
use qbx::commandes::{afn, aide, cat, cdr, cpr, ctr, df, dpc, dsk, echo, inf, log, ls, mmr, mnl, qtr, rnm, spp, sync, sys, tmps, tpf, ver};
use qbx::fs::node::Horodatage;
use qbx::fs::{ecrire, lire, FileSystem};
use qbx::journal::JournalNoyau;
use qbx::session::{NiveauPrivilege, Session};

fn h() -> Horodatage {
    Horodatage::new(12, 34, 56)
}

fn v(l: &[&str]) -> Vec<String> {
    l.iter().map(|s| s.to_string()).collect()
}

fn architecte() -> Session {
    let mut s = Session::new();
    s.sceller_cle_administrateur("gerant").0.unwrap();
    s.tenter_elevation(NiveauPrivilege::Administrateur, "gerant").0.unwrap();
    s.sceller_cle_architecte("maitre").0.unwrap();
    s.tenter_elevation(NiveauPrivilege::Architecte, "maitre").0.unwrap();
    s
}

#[test]
fn echo_retire_les_guillemets() {
    assert_eq!(echo::executer("  bonjour  "), "bonjour");
    assert_eq!(echo::executer("\"a b\""), "a b");
    assert_eq!(echo::executer("'x'"), "x");
    assert_eq!(echo::executer("\""), "");
    assert_eq!(echo::executer("\"a'"), "\"a'");
}

#[test]
fn horloge_rtc() {
    assert_eq!(tmps::lire_registre_rtc(0x59), 59);
    assert_eq!(tmps::lire_registre_rtc(0x07), 7);
    assert_eq!(tmps::obtenir_heure_actuelle(0x23, 0x45, 0x01), (23, 45, 1));
    assert_eq!(tmps::executer((9, 5, 0)), "Horloge système (RTC) : 09h 05m 00s");
}

#[test]
fn ver_et_ses_options() {
    assert_eq!(ver::executer(""), v(&["QBX 0.1-EXP (x86_64)"]));
    assert_eq!(ver::executer("-a"), v(&["QBX qbx-box 0.1-EXP Microkernel Bare-Metal x86_64"]));
    assert_eq!(ver::executer("-r -s"), v(&["QBX 0.1-EXP"]));
    assert_eq!(ver::executer("-x"), v(&["ver: option invalide -- 'x'", "usage: ver [-asnmrv]"]));
}

#[test]
fn tailles_de_ls() {
    assert_eq!(ls::formater_taille(500, false), "     500");
    assert_eq!(ls::formater_taille(500, true), "    500B");
    assert_eq!(ls::formater_taille(1536, true), "    1.5K");
    assert_eq!(ls::formater_taille(20480, true), "    20K");
    assert_eq!(ls::formater_taille(3 * 1048576, true), "    3.0M");
    assert_eq!(ls::formater_taille(12 * 1048576, true), "    12M");
}

#[test]
fn ls_court_long_et_erreurs() {
    let mut fs = FileSystem::new();
    assert_eq!(ls::executer(&fs, ""), v(&["(Dossier vide)"]));
    ecrire(&mut fs, "a.txt", b"abc", h());
    assert!(fs.creer_repertoire("d", h()).0);
    assert_eq!(ls::executer(&fs, ""), v(&["a.txt", "d/"]));
    assert_eq!(
        ls::executer(&fs, "-l"),
        v(&[
            "total 2",
            "-rw-r--r--  1 qbx qbx        3 12:34:56 a.txt",
            "drwxr-xr-x  2 qbx qbx        0 12:34:56 d",
        ])
    );
    assert_eq!(ls::executer(&fs, "a.txt"), v(&["ls: 'a.txt' est un fichier."]));
    assert_eq!(
        ls::executer(&fs, "zz"),
        v(&["ls: impossible d'accéder à 'zz': Aucun fichier ou dossier de ce type."])
    );
}

#[test]
fn cat_et_ses_sorties() {
    let mut fs = FileSystem::new();
    ecrire(&mut fs, "court", b"ligne\n", h());
    ecrire(&mut fs, "vide", b"", h());
    ecrire(&mut fs, "binaire", &[0xFF, 0x00], h());
    let long: String = (0..30).map(|i| format!("l{}\n", i)).collect();
    ecrire(&mut fs, "long", long.as_bytes(), h());
    assert!(matches!(cat::executer(&fs, ""), SortieCat::Lignes(l) if l == v(&["Usage : cat <nom_fichier> [-ppp]"])));
    assert!(matches!(cat::executer(&fs, "vide"), SortieCat::Lignes(l) if l == v(&["(Fichier vide)"])));
    assert!(matches!(cat::executer(&fs, "absent"), SortieCat::Lignes(l) if l == v(&["Erreur : Fichier 'absent' introuvable."])));
    assert!(matches!(cat::executer(&fs, "binaire"), SortieCat::Lignes(l)
        if l == v(&["Erreur : le fichier ne contient pas de texte UTF-8 valide."])));
    assert!(matches!(cat::executer(&fs, "court"), SortieCat::Brut(t) if t == "ligne\n"));
    assert!(matches!(cat::executer(&fs, "court -ppp"), SortieCat::Paginer(t) if t == "ligne\n"));
    assert!(matches!(cat::executer(&fs, "long"), SortieCat::Paginer(t) if t == long));
}

#[test]
fn lignes_d_ecran() {
    assert_eq!(calculer_lignes_ecran(""), 0);
    assert_eq!(calculer_lignes_ecran("a\n\nb"), 3);
    let l: String = std::iter::repeat('x').take(81).collect();
    assert_eq!(calculer_lignes_ecran(&l), 2);
}

#[test]
fn cdr_ctr_et_spp() {
    let mut fs = FileSystem::new();
    assert_eq!(ctr::executer(&mut fs, "", h()).0, v(&["Utilisation : ctr <nom_dossier>"]));
    assert_eq!(ctr::executer(&mut fs, "a/b", h()).0, v(&["Erreur : Le nom du dossier ne peut pas contenir le caractère '/'."]));
    assert_eq!(ctr::executer(&mut fs, "d", h()).0, v(&["Répertoire 'd' créé avec succès."]));
    assert_eq!(
        ctr::executer(&mut fs, "d", h()).0,
        v(&["Erreur : Impossible de créer le répertoire 'd' (existe déjà ou invalide)."])
    );
    assert_eq!(cdr::executer(&mut fs, "  "), v(&["Usage : cdr <chemin>"]));
    assert_eq!(cdr::executer(&mut fs, "nulle"), v(&["Erreur : Répertoire introuvable ou invalide."]));
    assert_eq!(cdr::executer(&mut fs, "d"), v(&["Déplacement réussi vers 'd'."]));
    assert_eq!(cdr::executer(&mut fs, ".."), v(&["Déplacement réussi vers '..'."]));
    ecrire(&mut fs, "f", b"1", h());
    assert_eq!(spp::executer(&mut fs, "d").0, v(&["Erreur : 'd' est un répertoire. Utilisez 'spp -r d' pour le supprimer."]));
    assert_eq!(spp::executer(&mut fs, "-r f").0, v(&["Erreur : 'f' est un fichier. Utilisez 'spp f' sans l'option '-r'."]));
    assert_eq!(spp::executer(&mut fs, "f").0, v(&["Fichier 'f' supprimé avec succès."]));
    assert_eq!(spp::executer(&mut fs, "-r d").0, v(&["Répertoire 'd' supprimé avec succès."]));
    assert_eq!(spp::executer(&mut fs, "x").0, v(&["Erreur : 'x' introuvable."]));
}

#[test]
fn rnm_reserve_les_repertoires_a_l_administrateur() {
    let mut fs = FileSystem::new();
    assert!(fs.creer_repertoire("d", h()).0);
    ecrire(&mut fs, "f", b"1", h());
    let op = Session::new();
    let (l, audit, _) = rnm::executer(&mut fs, &op, "-r d e");
    assert_eq!(l, v(&["rnm: EPERM - Privilèges insuffisants pour renommer un répertoire (Administrateur requis)."]));
    assert_eq!(audit, Some("[AUDIT] rnm: tentative non autorisée de renommage du répertoire 'd' (EPERM)".to_string()));
    let (l, audit, _) = rnm::executer(&mut fs, &op, "f g");
    assert_eq!(l, v(&["Fichier 'f' renommé en 'g'."]));
    assert_eq!(audit, Some("[VFS] Fichier 'f' renommé en 'g'".to_string()));
    assert_eq!(lire(&fs, "g"), Some(b"1".to_vec()));
    let arch = architecte();
    let (l, _, _) = rnm::executer(&mut fs, &arch, "-r d e");
    assert_eq!(l, v(&["Répertoire 'd' renommé en 'e'."]));
    let (l, audit, _) = rnm::executer(&mut fs, &op, "g e");
    assert_eq!(l, v(&["Erreur : 'e' existe déjà."]));
    assert_eq!(audit, None);
}

#[test]
fn cpr_et_dpc() {
    let mut fs = FileSystem::new();
    ecrire(&mut fs, "a", b"A", h());
    assert_eq!(cpr::executer(&mut fs, &v(&["a"])).0, v(&["Usage: cpr [-r] <source> <cible>"]));
    assert!(cpr::executer(&mut fs, &v(&["a", "b"])).0.is_empty());
    assert_eq!(lire(&fs, "b"), Some(b"A".to_vec()));
    assert_eq!(cpr::executer(&mut fs, &v(&["z", "y"])).0, v(&["cpr: z: Fichier ou repertoire source introuvable."]));
    assert_eq!(dpc::executer(&mut fs, &v(&[])).0, v(&["Usage: dpc <source> <cible>"]));
    assert!(dpc::executer(&mut fs, &v(&["b", "c"])).0.is_empty());
    assert_eq!(lire(&fs, "b"), None);
    assert_eq!(dpc::executer(&mut fs, &v(&["c", "a"])).0, v(&["dpc: c: La cible existe deja."]));
}

#[test]
fn statistiques_du_tas() {
    assert_eq!(
        mmr::executer(524288, 1572864, 2097152),
        v(&[
            "--- Statistiques mémoire QBX (Heap) ---",
            "  Plage virtuelle : 0x444444440000 - 0x444444640000",
            "  Capacité totale : 2048 Ko (2097152 octets)",
            "  Mémoire allouée : 512 Ko (524288 octets) [25%]",
            "  Mémoire libre   : 1536 Ko (1572864 octets)",
            "---------------------------------------",
        ])
    );
    assert_eq!(mmr::executer(0, 0, 0)[3], "  Mémoire allouée : 0 Ko (0 octets) [0%]");
}

#[test]
fn table_des_partitions() {
    let l = df::executer();
    assert_eq!(l.len(), 7);
    assert_eq!(l[2], "hd0s0     (boot)                  0..2047      1 Mo       Amorçage noyau [RO]");
    assert_eq!(l[3], "hd0s1     /sec                 2048..20479     9 Mo       Coffre RBAC / Clés [RW]");
    assert_eq!(l[4], "hd0s2     /var                20480..2097151   1014 Mo    Audit & Fichiers [RW]");
}

#[test]
fn informations_et_sommaire() {
    assert_eq!(inf::executer()[1], "Système d'exploitation : QBX (Québec UNIX)");
    let a = aide::executer();
    assert!(a.starts_with("=== QBX Centurion : Commandes disponibles ==="));
    assert!(a.ends_with("Redirections de flux supportées : commande > fichier.txt (ou >>)"));
}

#[test]
fn manuel() {
    match mnl::executer("") {
        SortieMnl::Lignes(l) => {
            assert_eq!(l.len(), 7);
            assert_eq!(l[0], "Usage : mnl <commande>");
            assert_eq!(l[2], "  afn, aide, cat, cdr, cpr, ctr");
            assert_eq!(l[6], "  su, sync, tmps, tpf, tsk, ver");
        },
        _ => panic!(),
    }
    assert!(matches!(mnl::executer(" edt "), SortieMnl::Page(p) if p == "edt"));
    assert!(matches!(mnl::executer("zzz"), SortieMnl::Lignes(l) if l == v(&[
        "Aucune page de manuel pour : zzz",
        "Tapez 'mnl' sans argument pour voir la liste des commandes.",
    ])));
    assert_eq!(mnl::noms_pages().len(), 30);
}

#[test]
fn test_du_disque() {
    let t = dsk::tampon_test();
    assert_eq!(t.len(), 512);
    assert_eq!(&t[..49], b"QBX CENTURION SECURE STORAGE PERSISTENCE LAYER OK");
    assert!(t[49..].iter().all(|&b| b == 0));
    let l = dsk::executer(Ok(()), Ok(&t));
    assert_eq!(
        l,
        v(&[
            "--- Test d'intégrité E/S Disque SATA (LBA 100) ---",
            "[DSK] Écriture sur LBA 100... SUCCÈS",
            "[DSK] Relecture LBA 100... SUCCÈS",
            "      Données relues : \"QBX CENTURION SECURE STORAGE PERSISTENCE LAYER OK\"",
            "[DSK] Persistance physique vérifiée à 100%.",
            "--------------------------------------------------",
        ])
    );
    let mut abime = t.clone();
    abime[0] = b'Z';
    assert_eq!(dsk::executer(Ok(()), Ok(&abime))[4], "[DSK] Erreur : les données lues ne correspondent pas.");
    let mut invalide = t.clone();
    invalide[0] = 0xFF;
    assert_eq!(dsk::executer(Ok(()), Ok(&invalide))[3], "      Données relues : \"<invalide>\"");
    assert_eq!(
        dsk::executer(Err("Timeout Port AHCI occupé"), Err("")),
        v(&["--- Test d'intégrité E/S Disque SATA (LBA 100) ---", "[DSK] Écriture sur LBA 100... ÉCHEC (Timeout Port AHCI occupé)"])
    );
    assert_eq!(dsk::executer(Ok(()), Err("Port AHCI 0 non initialisé"))[2], "[DSK] Relecture LBA 100... ÉCHEC (Port AHCI 0 non initialisé)");
}

#[test]
fn sync_persiste_et_consigne() {
    let mut fs = FileSystem::new();
    ecrire(&mut fs, "a", b"A", h());
    let mut j = JournalNoyau::new();
    let s = sync::executer(&fs, &mut j, (1, 2, 3));
    assert_eq!(s.ecritures_vfs.last().unwrap().0, 65);
    assert_eq!(s.ecritures_vfs.len(), 2);
    assert_eq!(s.ecritures_journal.len(), 2);
    assert_eq!(s.ligne, "sync: Synchronisation terminée. Tampons VFS vidés vers le contrôleur SATA (/var).");
    assert_eq!(j.lire_tous(), v(&["[01:02:03] [SYNC] Synchronisation forcée des tampons VFS vers SATA (/var)"]));
}

#[test]
fn appels_systeme_depuis_la_console() {
    let mut fs = FileSystem::new();
    let mut j = JournalNoyau::new();
    let (l, w, _) = sys::executer(&mut fs, &mut j, "", h());
    assert_eq!(l, v(&["Usage : sys <id> [argument]", "Exemple : sys 4 mon_fichier.sh"]));
    assert!(w.is_empty());
    assert_eq!(sys::executer(&mut fs, &mut j, "x", h()).0, v(&["sys: identifiant invalide"]));
    assert_eq!(
        sys::executer(&mut fs, &mut j, "4 absent.txt", h()).0,
        v(&["[SYSCALL] Lecture VFS demandée pour le fichier : 'absent.txt'", "[SYSCALL] Appel 4 exécuté (code retour : -3)"])
    );
    assert_eq!(
        sys::executer(&mut fs, &mut j, "5 neuf.txt", h()).0,
        v(&[
            "[SYSCALL] Écriture VFS demandée pour le fichier : 'neuf.txt'",
            "[VFS] Écriture réussie sur le disque.",
            "[SYSCALL] Appel 5 exécuté (code retour : 0)",
        ])
    );
    assert_eq!(lire(&fs, "neuf.txt"), Some(Vec::new()));
    ecrire(&mut fs, "plein.txt", b"12345", h());
    assert_eq!(
        sys::executer(&mut fs, &mut j, "4 plein.txt", h()).0,
        v(&[
            "[SYSCALL] Lecture VFS demandée pour le fichier : 'plein.txt'",
            "[VFS] Fichier lu avec succès (5 octets)",
            "[SYSCALL] Appel 4 exécuté (code retour : 0)",
        ])
    );
    assert_eq!(
        sys::executer(&mut fs, &mut j, "4", h()).0,
        v(&[
            "[SYSCALL] Erreur de sécurité : Plage mémoire invalide ou non mappée (SYS_READ).",
            "[SYSCALL] Appel 4 exécuté (code retour : -5)",
        ])
    );
    assert_eq!(
        sys::executer(&mut fs, &mut j, "9", h()).0,
        v(&["[SYSCALL] Erreur : Numéro de syscall inconnu (9)", "[SYSCALL] Appel 9 exécuté (code retour : -1)"])
    );
    assert_eq!(
        sys::executer(&mut fs, &mut j, "1", h()).0,
        v(&["[SYSCALL] Terminaison demandée (exit).", "[SYSCALL] Appel 1 exécuté (code retour : 0)"])
    );
    assert!(j.lire_tous().is_empty());
    let (l, w, _) = sys::executer(&mut fs, &mut j, "3", h());
    assert_eq!(l, v(&["[SYSCALL] Appel 3 exécuté (code retour : 0)"]));
    assert_eq!(w.len(), 2);
    assert_eq!(j.lire_tous(), v(&["[12:34:56] [SYSCALL] Entrée d'audit générée par appel système"]));
}

#[test]
fn journal_affiche_et_purge() {
    let mut j = JournalNoyau::new();
    assert_eq!(log::executer(&j), v(&["Journal du noyau : Aucun événement enregistré."]));
    qbx::journal::enregistrer(&mut j, (0, 0, 1), "boot");
    assert_eq!(
        log::executer(&j),
        v(&["--- [ Journal du noyau QBX (Audit & Système) ] ---", "[00:00:01] boot", "--------------------------------------------------"])
    );
    let op = Session::new();
    let (s, w) = afn::executer(&mut j, &op, "", (0, 0, 2));
    assert!(w.is_empty());
    assert!(matches!(s, SortieAfn::Lignes(l) if l == v(&[
        "--- Journal des messages du noyau QBX ---",
        "[00:00:01] boot",
        "-----------------------------------------",
    ])));
    let (s, w) = afn::executer(&mut j, &op, "-c", (0, 0, 2));
    assert!(w.is_empty());
    assert!(matches!(s, SortieAfn::Lignes(l) if l == v(&["afn: EPERM - Privilèges insuffisants pour purger le journal."])));
    let arch = architecte();
    let (s, w) = afn::executer(&mut j, &arch, " -c ", (0, 0, 3));
    assert_eq!(w.len(), 2);
    assert!(matches!(s, SortieAfn::Lignes(l) if l == v(&["afn: Journal d'audit noyau purgé avec succès."])));
    assert_eq!(j.lire_tous(), v(&["[00:00:03] [AUDIT] Journal système réinitialisé"]));
}

#[test]
fn extinction_et_faute_de_page_reservees() {
    let op = Session::new();
    let a = qtr::executer(&op);
    assert_eq!(a.lignes, v(&["qtr: extinction réservée au niveau Architecte (EPERM)"]));
    assert_eq!(a.audit, Some("[SEC] Tentative d'extinction non autorisée".to_string()));
    assert!(!a.declencher);
    let arch = architecte();
    let a = qtr::executer(&arch);
    assert_eq!(a.lignes, v(&["[QBX] Extinction du système..."]));
    assert!(a.declencher);
    let t = tpf::executer(&op);
    assert_eq!(t.lignes, v(&["tpf: opération réservée au niveau Architecte (EPERM)"]));
    assert!(!t.declencher);
    assert!(tpf::executer(&arch).declencher);
}
