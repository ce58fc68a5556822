use qbx::fs::node::Horodatage;
use qbx::fs::{ecrire, lire, FileSystem};
use qbx::shell::{evaluer_commande, executer_commande, rediriger, reste_x, Commande, Execution, Saisie, Shell};

fn taper(sh: &mut Shell, t: &str) {
    for c in t.chars() {
        sh.introduire_caractere(c);
    }
}

fn valider(sh: &mut Shell) -> Vec<u8> {
    match sh.introduire_caractere('\n') {
        Saisie::Valider(l) => l,
        _ => panic!("la ligne devait être validée"),
    }
}

#[test]
fn saisie_affiche_efface_et_valide() {
    let mut sh = Shell::new();
    assert!(matches!(sh.introduire_caractere('a'), Saisie::Afficher('a')));
    assert!(matches!(sh.introduire_caractere('b'), Saisie::Afficher('b')));
    assert!(matches!(sh.introduire_caractere('\u{8}'), Saisie::Effacer));
    assert_eq!(valider(&mut sh), b"a".to_vec());
    assert!(matches!(sh.introduire_caractere('\u{7f}'), Saisie::Rien));
    assert_eq!(valider(&mut sh), Vec::<u8>::new());
}

#[test]
fn ligne_limitee_a_255_octets() {
    let mut sh = Shell::new();
    for _ in 0..255 {
        assert!(matches!(sh.introduire_caractere('x'), Saisie::Afficher('x')));
    }
    assert!(matches!(sh.introduire_caractere('y'), Saisie::Rien));
    assert_eq!(valider(&mut sh).len(), 255);
}

#[test]
fn rappel_de_la_derniere_ligne() {
    let mut sh = Shell::new();
    taper(&mut sh, "ls");
    valider(&mut sh);
    taper(&mut sh, "cat a");
    valider(&mut sh);
    taper(&mut sh, "z");
    let m = sh.historique_precedent().unwrap();
    assert_eq!(m.a_effacer, 1);
    assert_eq!(m.a_afficher, Some("cat a".to_string()));
    let m = sh.historique_precedent().unwrap();
    assert_eq!(m.a_effacer, 5);
    assert_eq!(m.a_afficher, Some("ls".to_string()));
    assert!(sh.historique_precedent().is_none());
    let m = sh.historique_suivant().unwrap();
    assert_eq!(m.a_afficher, Some("cat a".to_string()));
    let m = sh.historique_suivant().unwrap();
    assert_eq!(m.a_effacer, 5);
    assert_eq!(m.a_afficher, None);
    assert!(sh.historique_suivant().is_none());
    assert_eq!(valider(&mut sh), Vec::<u8>::new());
}

#[test]
fn historique_borne_a_dix_lignes() {
    let mut sh = Shell::new();
    for i in 0..12 {
        taper(&mut sh, &format!("c{}", i));
        valider(&mut sh);
    }
    let mut rappels = Vec::new();
    while let Some(m) = sh.historique_precedent() {
        rappels.push(m.a_afficher.unwrap());
    }
    assert_eq!(rappels.len(), 10);
    assert_eq!(rappels[0], "c11");
    assert_eq!(rappels[9], "c2");
}

#[test]
fn decoupage_des_redirections() {
    assert!(matches!(executer_commande(b"   "), Execution::Rien));
    assert!(matches!(executer_commande(&[0xFF, 0xFE]), Execution::Rien));
    assert!(matches!(executer_commande(b"ls >  "), Execution::RedirectionSansCible));
    match executer_commande(b"  ls -l >> sortie.txt ") {
        Execution::Lancer(c, Some((f, ajout))) => {
            assert_eq!(c, "ls -l");
            assert_eq!(f, "sortie.txt");
            assert!(ajout);
        },
        _ => panic!(),
    }
    match executer_commande(b"echo a > b") {
        Execution::Lancer(c, Some((f, ajout))) => {
            assert_eq!(c, "echo a");
            assert_eq!(f, "b");
            assert!(!ajout);
        },
        _ => panic!(),
    }
    match executer_commande(b"inf") {
        Execution::Lancer(c, None) => assert_eq!(c, "inf"),
        _ => panic!(),
    }
}

#[test]
fn redirection_ecrase_ou_ajoute() {
    let mut fs = FileSystem::new();
    let h = Horodatage::new(1, 1, 1);
    ecrire(&mut fs, "f", b"debut\n", h);
    rediriger(&mut fs, "f", true, "suite\n", h);
    assert_eq!(lire(&fs, "f"), Some(b"debut\nsuite\n".to_vec()));
    rediriger(&mut fs, "f", false, "neuf", h);
    assert_eq!(lire(&fs, "f"), Some(b"neuf".to_vec()));
    rediriger(&mut fs, "g", true, "x", h);
    assert_eq!(lire(&fs, "g"), Some(b"x".to_vec()));
}

#[test]
fn reconnaissance_des_commandes() {
    assert!(matches!(evaluer_commande("qtr"), Commande::Qtr));
    assert!(matches!(evaluer_commande("ls"), Commande::Ls));
    assert!(matches!(evaluer_commande("aide"), Commande::Aide));
    match evaluer_commande("mnl edt extra") {
        Commande::Mnl(a) => assert_eq!(a, "edt"),
        _ => panic!(),
    }
    match evaluer_commande("cat   un fichier.txt  ") {
        Commande::Cat(a) => assert_eq!(a, "un fichier.txt"),
        _ => panic!(),
    }
    match evaluer_commande("cpr -r a b") {
        Commande::Cpr(v) => assert_eq!(v, vec!["-r".to_string(), "a".to_string(), "b".to_string()]),
        _ => panic!(),
    }
    match evaluer_commande("ver") {
        Commande::Ver(a) => assert_eq!(a, ""),
        _ => panic!(),
    }
    match evaluer_commande("frob x") {
        Commande::Inconnue(c) => assert_eq!(c, "frob"),
        _ => panic!(),
    }
}

#[test]
fn reste_apres_la_commande() {
    assert_eq!(reste_x("rnm  a b ", 3), "a b");
    assert_eq!(reste_x("rnm", 3), "");
}
