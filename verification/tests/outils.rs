use qbx::commandes::edt::moteur::{ActionEditeur, Editeur, Touche};
use qbx::commandes::edt::analyser_arguments;
use qbx::commandes::pager::{ActionPager, Pager};
use qbx::commandes::probe::{self, ActionProbe, Prefixe};
use qbx::commandes::snf::{analyser_trame, formater_mac};
use qbx::fs::node::Horodatage;
use qbx::fs::{ecrire, lire, FileSystem};
use qbx::ramdisk::{self, RamDisk};
use qbx::scripting::{self, CommandeScript, ErreurScript};
use qbx::task::context::ContexteTache;
use qbx::task::{ceder, creer_tache, initialiser, sommet_pile, terminer_tache_courante, EtatTache, Ordonnanceur};

fn v(l: &[&str]) -> Vec<String> {
    l.iter().map(|s| s.to_string()).collect()
}

#[test]
fn pages_successives_du_pager() {
    let texte: String = (0..30).map(|i| format!("l{}\n", i)).collect();
    let mut p = Pager::afficher_avec_pagination(&texte);
    assert!(p.a_suivre());
    let page1 = p.page_suivante();
    assert_eq!(page1.len(), 22);
    assert_eq!(page1[0], "l0");
    let page2 = p.page_suivante();
    assert_eq!(page2.len(), 8);
    assert_eq!(page2[0], "l22");
    assert!(!p.a_suivre());
}

#[test]
fn touches_du_pager() {
    let mut p = Pager::afficher_avec_pagination("a\nb\n");
    assert!(matches!(p.touche(0x9C), ActionPager::Ignorer));
    assert!(matches!(p.touche(0x39), ActionPager::Page));
    assert!(matches!(p.touche(0x10), ActionPager::Quitter));
    assert!(matches!(p.touche(0x1E), ActionPager::Ignorer));
    assert!(matches!(p.touche(0x1C), ActionPager::Ligne(Some(l), true) if l == "a"));
    assert!(matches!(p.touche(0x1C), ActionPager::Ligne(Some(l), false) if l == "b"));
    assert!(matches!(p.touche(0x1C), ActionPager::Ligne(None, false)));
}

#[test]
fn adresses_ipv4_et_prefixes() {
    assert_eq!(probe::parser_ip("10.0.2.2"), Some([10, 0, 2, 2]));
    assert_eq!(probe::parser_ip("10.0.2"), None);
    assert_eq!(probe::parser_ip("10.0.2.256"), None);
    assert_eq!(probe::parser_ip("a.b.c.d"), None);
    assert!(matches!(probe::parser_prefixe("192.168.1"), Prefixe::Valide([192, 168, 1])));
    assert!(matches!(probe::parser_prefixe("192.168"), Prefixe::Invalide));
    assert!(matches!(probe::parser_prefixe("192.x.1"), Prefixe::Illisible));
}

#[test]
fn requete_arp_puis_reponse() {
    let mac = [0x52, 0x54, 0, 0x12, 0x34, 0x56];
    let t = probe::forger_requete_arp(mac, [0, 0, 0, 0], [10, 0, 2, 2]);
    assert_eq!(t.len(), 60);
    assert_eq!(&t[0..6], &[0xFF; 6]);
    assert_eq!(&t[6..12], &mac);
    assert_eq!(&t[12..22], &[0x08, 0x06, 0x00, 0x01, 0x08, 0x00, 6, 4, 0x00, 0x01]);
    assert_eq!(&t[38..42], &[10, 0, 2, 2]);
    assert!(t[42..].iter().all(|&b| b == 0));
    let mut rep = t.clone();
    rep[21] = 2;
    rep[22..28].copy_from_slice(&[0xAA, 0xBB, 0xCC, 0xDD, 0xEE, 0xFF]);
    rep[28..32].copy_from_slice(&[10, 0, 2, 2]);
    assert_eq!(probe::analyser_reponse_arp(&rep, [10, 0, 2, 2]), Some(([10, 0, 2, 2], [0xAA, 0xBB, 0xCC, 0xDD, 0xEE, 0xFF])));
    assert_eq!(probe::analyser_reponse_arp(&rep, [10, 0, 2, 3]), None);
    assert_eq!(probe::analyser_reponse_arp(&t, [0, 0, 0, 0]), None);
    assert_eq!(probe::analyser_reponse_arp(&rep[..41], [10, 0, 2, 2]), None);
}

#[test]
fn choix_de_la_sonde() {
    let mac = [1, 2, 3, 4, 5, 6];
    assert!(matches!(probe::executer(&v(&["10.0.2.2"]), [0; 6]), ActionProbe::InterfaceAbsente));
    assert!(matches!(probe::executer(&v(&[]), mac), ActionProbe::Usage));
    assert!(matches!(probe::executer(&v(&["scan"]), mac), ActionProbe::UsageScan));
    assert!(matches!(probe::executer(&v(&["scan", "10.0.2"]), mac), ActionProbe::Balayer(p) if p == "10.0.2"));
    assert!(matches!(probe::executer(&v(&["10.0.2.9"]), mac), ActionProbe::Sonder(p) if p == "10.0.2.9"));
}

#[test]
fn trames_reniflees() {
    assert_eq!(formater_mac(&[0x00, 0x1A, 0xFF, 0x01, 0x02, 0x03]), "00:1A:FF:01:02:03");
    let mut t = vec![0u8; 60];
    t[0..6].copy_from_slice(&[0xFF; 6]);
    t[6..12].copy_from_slice(&[0x52, 0x54, 0, 0x12, 0x34, 0x56]);
    t[12] = 0x08;
    t[13] = 0x06;
    assert_eq!(
        analyser_trame(&t, 3),
        Some("[3] 60 octets | 52:54:00:12:34:56 -> FF:FF:FF:FF:FF:FF | Proto: 0x0806 (ARP)".to_string())
    );
    t[12] = 0x12;
    t[13] = 0x34;
    assert!(analyser_trame(&t, 1).unwrap().ends_with("Proto: 0x1234 (Inconnu)"));
    assert_eq!(analyser_trame(&t[..13], 1), None);
}

#[test]
fn scripts() {
    let mut fs = FileSystem::new();
    let h = Horodatage::new(0, 0, 0);
    ecrire(&mut fs, "s.sh", b"# commentaire\n  echo \"salut\"  \n\nls -l\r\ncat f\n", h);
    ecrire(&mut fs, "bin", &[0xC3], h);
    assert!(matches!(scripting::executer(&fs, "s.sh"), Ok(l) if l == v(&["echo \"salut\"", "ls -l", "cat f"])));
    assert!(matches!(scripting::executer(&fs, "  "), Err(ErreurScript::SansNom)));
    assert!(matches!(scripting::executer(&fs, "x"), Err(ErreurScript::Introuvable(n)) if n == "x"));
    assert!(matches!(scripting::executer(&fs, "bin"), Err(ErreurScript::PasUtf8(n)) if n == "bin"));
    assert!(matches!(scripting::executer_ligne_script("echo  \"a\" "), Some(CommandeScript::Echo(a)) if a == "\"a\""));
    assert!(matches!(scripting::executer_ligne_script("ls -l d"), Some(CommandeScript::Ls(a)) if a == "-l d"));
    assert!(matches!(scripting::executer_ligne_script("cat f"), Some(CommandeScript::Cat(a)) if a == "f"));
    assert!(matches!(scripting::executer_ligne_script("df"), Some(CommandeScript::Df)));
    assert!(matches!(scripting::executer_ligne_script("dsk"), Some(CommandeScript::Dsk)));
    assert!(matches!(scripting::executer_ligne_script("rm x"), Some(CommandeScript::NonSupportee(c)) if c == "rm"));
    assert!(scripting::executer_ligne_script("   ").is_none());
}

#[test]
fn disque_en_memoire() {
    let mut d = RamDisk::new();
    assert!(ramdisk::ecrire(&mut d, "a", b"1"));
    assert!(ramdisk::ecrire(&mut d, "a", b"22"));
    assert_eq!(ramdisk::lire(&d, "a"), Some(b"22".to_vec()));
    assert_eq!(d.lire("b"), None);
}

#[test]
fn tourniquet_des_taches() {
    assert_eq!(sommet_pile(0x1_0000), 0xFFF0);
    assert_eq!(sommet_pile(0x1_0007), 0xFFF0);
    let mut ord = Ordonnanceur::new();
    assert_eq!(initialiser(&mut ord), "[TSK] Ordonnanceur cooperatif initialise (Tache 0 active)");
    let c = ContexteTache::default();
    let (t1, a1) = creer_tache(&mut ord, c, vec![0u8; 64]);
    let (t2, _) = creer_tache(&mut ord, c, vec![0u8; 64]);
    assert_eq!(t1.0, 1);
    assert_eq!(a1, "[TSK] Tache 1 creee et placee en file prete");
    assert_eq!(t2.0, 2);
    assert!(ceder(&mut ord));
    assert_eq!(ord.courante.as_ref().unwrap().id.0, 1);
    assert_eq!(ord.courante.as_ref().unwrap().etat, EtatTache::EnCours);
    assert!(ceder(&mut ord));
    assert_eq!(ord.courante.as_ref().unwrap().id.0, 2);
    assert_eq!(terminer_tache_courante(&mut ord), Some("[TSK] Tache 2 marquee terminee".to_string()));
    assert!(ceder(&mut ord));
    assert_eq!(ord.courante.as_ref().unwrap().id.0, 0);
    assert!(ceder(&mut ord));
    assert_eq!(ord.courante.as_ref().unwrap().id.0, 1);
}

#[test]
fn editeur_saisie_et_deplacements() {
    let fs = FileSystem::new();
    let mut e = Editeur::new();
    assert!(!e.est_actif());
    e.lancer(false, "notes.txt", &fs);
    assert!(e.est_actif());
    for c in "ab\ncdef".chars() {
        e.inserer_caractere(c);
    }
    e.inserer_caractere('é');
    assert_eq!(e.tampon, b"ab\ncdef".to_vec());
    assert_eq!(e.curseur_pos, 7);
    e.deplacer_curseur(0, -1);
    assert_eq!(e.curseur_pos, 2);
    e.deplacer_curseur(0, 1);
    assert_eq!(e.curseur_pos, 5);
    e.deplacer_curseur(-1, 0);
    assert_eq!(e.curseur_pos, 4);
    e.supprimer_caractere();
    assert_eq!(e.tampon, b"ab\ndef".to_vec());
    e.supprimer_caractere_droit();
    assert_eq!(e.tampon, b"ab\nef".to_vec());
}

#[test]
fn editeur_couper_coller_et_enregistrer() {
    let mut fs = FileSystem::new();
    let h = Horodatage::new(1, 2, 3);
    ecrire(&mut fs, "t", b"l1\nl2\n", h);
    let mut e = Editeur::new();
    e.lancer(false, " t ", &fs);
    assert_eq!(e.curseur_pos, 6);
    e.deplacer_curseur(0, -1);
    e.deplacer_curseur(0, -1);
    assert_eq!(e.curseur_pos, 0);
    e.couper_selection_ou_ligne();
    assert_eq!(e.tampon, b"l2\n".to_vec());
    assert_eq!(e.presse_papier, b"l1\n".to_vec());
    e.deplacer_curseur(0, 1);
    e.coller();
    assert_eq!(e.tampon, b"l2\nl1\n".to_vec());
    assert_eq!(e.traiter_touche(Touche::F2, &mut fs, h).0, ActionEditeur::Sauvegarde);
    assert_eq!(lire(&fs, "t"), Some(b"l2\nl1\n".to_vec()));
    assert_eq!(e.traiter_touche(Touche::Echap, &mut fs, h).0, ActionEditeur::Quitter);
    assert!(!e.est_actif());
}

#[test]
fn editeur_sans_nom_enregistre_script_sh() {
    let mut fs = FileSystem::new();
    let h = Horodatage::new(0, 0, 0);
    let mut e = Editeur::new();
    e.lancer(false, "", &fs);
    e.inserer_caractere('x');
    assert!(e.enregistrer(&mut fs, h).0);
    assert_eq!(lire(&fs, "script.sh"), Some(b"x".to_vec()));
}

#[test]
fn arguments_de_l_editeur() {
    assert_eq!(analyser_arguments("-l  a.txt "), (true, "a.txt".to_string()));
    assert_eq!(analyser_arguments("b.txt"), (false, "b.txt".to_string()));
    assert_eq!(analyser_arguments("-l"), (true, "nouveau.txt".to_string()));
}
