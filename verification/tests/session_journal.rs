use qbx::clavier_queue::ClavierQueue;
use qbx::journal::{charger_depuis_disque, enregistrer, formater_ligne, plan_de_lecture, purger, JournalNoyau};
use qbx::session::{tenter_elevation, zeroiser, NiveauPrivilege, Session};
use std::collections::BTreeMap;

#[test]
fn session_initiale_operateur() {
    let s = Session::new();
    assert_eq!(s.niveau(), NiveauPrivilege::Operateur);
    assert_eq!(s.symbole_prompt(), '>');
    assert!(!s.est_archi_initialise());
    assert!(!s.est_admin_initialise());
    assert!(s.a_privilege(NiveauPrivilege::Operateur));
    assert!(!s.a_privilege(NiveauPrivilege::Administrateur));
}

#[test]
fn sceller_puis_elever() {
    let mut s = Session::new();
    assert_eq!(
        s.sceller_cle_architecte("secret"),
        (Err("EPERM : le palier Administrateur (#) est requis pour sceller la clé Architecte."), None)
    );
    assert!(!s.est_archi_initialise());
    s.sceller_cle_administrateur("admin1").0.unwrap();
    s.tenter_elevation(NiveauPrivilege::Administrateur, "admin1").0.unwrap();
    assert_eq!(s.sceller_cle_architecte("abc"), (Err("Mot de passe trop court (4 caractères minimum)."), None));
    assert_eq!(
        s.sceller_cle_architecte("secret"),
        (Ok(()), Some("[SEC] Clé de sécurité Architecte scellée avec succès".to_string()))
    );
    assert_eq!(s.sceller_cle_architecte("autre").0, Err("Clé Architecte déjà scellée. Commande désactivée."));
    assert_eq!(
        s.tenter_elevation(NiveauPrivilege::Architecte, "faux"),
        (Err("Mot de passe incorrect."), Some("[AUTH] Échec d'authentification pour Architecte".to_string()))
    );
    assert_eq!(s.symbole_prompt(), '#');
    assert_eq!(
        s.tenter_elevation(NiveauPrivilege::Architecte, "secret"),
        (Ok(()), Some("[AUTH] Élévation accordée : Administrateur -> Architecte ('!')".to_string()))
    );
    assert_eq!(s.symbole_prompt(), '!');
    assert!(s.a_privilege(NiveauPrivilege::Administrateur));
}

#[test]
fn cle_administrateur_scellee_a_froid() {
    let mut s = Session::new();
    assert_eq!(
        s.tenter_elevation(NiveauPrivilege::Administrateur, "admin1"),
        (Err("Clé Administrateur non initialisée (l'Architecte doit exécuter 'initadm')."), None)
    );
    assert_eq!(
        s.tenter_elevation(NiveauPrivilege::Architecte, "x"),
        (Err("Clé Architecte non configurée. Tapez 'initarch' pour l'initialiser."), None)
    );
    assert_eq!(s.sceller_cle_administrateur("abc").0, Err("Mot de passe trop court (4 caractères minimum)."));
    assert!(!s.est_admin_initialise());
    assert_eq!(
        s.sceller_cle_administrateur("admin1"),
        (Ok(()), Some("[SEC] Clé de sécurité Administrateur scellée".to_string()))
    );
    assert_eq!(s.niveau(), NiveauPrivilege::Operateur);
    assert_eq!(
        s.sceller_cle_administrateur("autre1"),
        (Err("EPERM : clé Administrateur déjà scellée ; seul l'Architecte (!) peut la redéfinir."), None)
    );
    assert_eq!(
        tenter_elevation(&mut s, NiveauPrivilege::Administrateur, "admin1"),
        (Ok(()), Some("[AUTH] Élévation accordée : Operateur -> Administrateur ('#')".to_string()))
    );
    s.sceller_cle_architecte("racine").0.unwrap();
    s.tenter_elevation(NiveauPrivilege::Architecte, "racine").0.unwrap();
    assert_eq!(s.sceller_cle_administrateur("nouvelle").0, Ok(()));
    assert_eq!(s.retrograder(), (true, Some("[AUTH] Rétrogradation au niveau Opérateur ('>')".to_string())));
    assert_eq!(s.retrograder(), (false, None));
    assert_eq!(s.tenter_elevation(NiveauPrivilege::Administrateur, "admin1").0, Err("Mot de passe incorrect."));
    assert_eq!(
        s.tenter_elevation(NiveauPrivilege::Administrateur, "nouvelle"),
        (Ok(()), Some("[AUTH] Élévation accordée : Operateur -> Administrateur ('#')".to_string()))
    );
    assert_eq!(s.symbole_prompt(), '#');
    assert!(!s.a_privilege(NiveauPrivilege::Architecte));
    assert_eq!(s.tenter_elevation(NiveauPrivilege::Operateur, ""), (Ok(()), None));
    assert_eq!(s.symbole_prompt(), '>');
}

#[test]
fn zeroiser_efface_le_tampon() {
    let mut t = vec![1u8, 2, 3];
    zeroiser(&mut t);
    assert_eq!(t, vec![0, 0, 0]);
}

#[test]
fn ligne_datee() {
    assert_eq!(formater_ligne(9, 5, 0, "boot"), "[09:05:00] boot");
}

#[test]
fn journal_consigne_dans_l_ordre() {
    let mut j = JournalNoyau::new();
    assert!(j.lire_tous().is_empty());
    let w = enregistrer(&mut j, (1, 2, 3), "un");
    assert_eq!(w.len(), 2);
    assert_eq!(w[0].0, 1);
    assert_eq!(w[1].0, 0);
    assert_eq!(&w[0].1[..2], &[13u8, 0u8]);
    assert_eq!(&w[0].1[2..15], b"[01:02:03] un");
    enregistrer(&mut j, (1, 2, 4), "deux");
    assert_eq!(j.lire_tous(), vec!["[01:02:03] un".to_string(), "[01:02:04] deux".to_string()]);
    purger(&mut j);
    assert!(j.lire_tous().is_empty());
}

#[test]
fn journal_glissant_garde_les_derniers() {
    let mut j = JournalNoyau::new();
    for i in 0..70u8 {
        enregistrer(&mut j, (0, 0, i % 60), &format!("m{}", i));
    }
    let tous = j.lire_tous();
    assert_eq!(tous.len(), 64);
    assert!(tous[0].ends_with("m6"));
    assert!(tous[63].ends_with("m69"));
}

#[test]
fn journal_relu_depuis_le_disque() {
    let mut j = JournalNoyau::new();
    let mut disque: BTreeMap<u64, Vec<u8>> = BTreeMap::new();
    for (k, m) in ["alpha", "beta", "gamma"].iter().enumerate() {
        for (lba, s) in enregistrer(&mut j, (3, 4, k as u8), m) {
            disque.insert(lba, s);
        }
    }
    let plan = plan_de_lecture(&disque[&0]);
    assert_eq!(plan, vec![1, 2, 3]);
    let secteurs: Vec<Option<Vec<u8>>> = plan.iter().map(|l| disque.get(l).cloned()).collect();
    let mut relu = JournalNoyau::new();
    assert_eq!(charger_depuis_disque(&mut relu, &secteurs), 3);
    assert_eq!(relu.lire_tous(), j.lire_tous());
}

#[test]
fn superbloc_de_journal_inconnu() {
    assert!(plan_de_lecture(&[0u8; 512]).is_empty());
    assert!(plan_de_lecture(&[1u8; 4]).is_empty());
}

#[test]
fn file_clavier_fifo_et_bornee() {
    let mut q = ClavierQueue::new();
    assert_eq!(q.pop(), None);
    for i in 0..255u16 {
        assert_eq!(q.push(i as u8), Ok(()));
    }
    assert_eq!(q.push(9), Err(()));
    for i in 0..255u16 {
        assert_eq!(q.pop(), Some(i as u8));
    }
    assert_eq!(q.pop(), None);
}

#[test]
fn journal_de_65_messages_oublie_seulement_le_premier() {
    let mut j = JournalNoyau::new();
    for i in 1..=65u32 {
        j.inserer_en_memoire(format!("m{}", i));
    }
    let tous = j.lire_tous();
    assert_eq!(tous.len(), 64);
    assert_eq!(tous[0], "m2");
    assert_eq!(tous[63], "m65");
    assert_eq!(j.lire_tous(), tous);
}
