use qbx::fs::node::Horodatage;
use qbx::fs::ops::{est_descendant, VfsError};
use qbx::fs::path::{est_absolu, nettoyer_chemin};
use qbx::fs::{
    analyser_superbloc, charger_depuis_disque, chemin_actuel, copier, deplacer, ecrire, lire, lister, lister_cible,
    renommer, supprimer, synchroniser, FileSystem,
};

fn h(s: u8) -> Horodatage {
    Horodatage::new(10, 20, s)
}

fn noms(fs: &FileSystem) -> Vec<String> {
    lister(fs).into_iter().map(|e| e.0).collect()
}

#[test]
fn lire_apres_ecrire() {
    let mut fs = FileSystem::new();
    ecrire(&mut fs, "a.txt", b"bonjour", h(1));
    assert_eq!(lire(&fs, "a.txt"), Some(b"bonjour".to_vec()));
    ecrire(&mut fs, "a.txt", b"x", h(2));
    assert_eq!(lire(&fs, "a.txt"), Some(b"x".to_vec()));
    assert_eq!(lire(&fs, "b.txt"), None);
}

#[test]
fn lister_trie_par_nom() {
    let mut fs = FileSystem::new();
    ecrire(&mut fs, "zeta", b"123", h(1));
    ecrire(&mut fs, "alpha", b"", h(2));
    assert!(fs.creer_repertoire("mid", h(3)).0);
    let l = lister(&fs);
    assert_eq!(l.len(), 3);
    assert_eq!(l[0], ("alpha".to_string(), 0, false, h(2)));
    assert_eq!(l[1], ("mid".to_string(), 0, true, h(3)));
    assert_eq!(l[2], ("zeta".to_string(), 3, false, h(1)));
}

#[test]
fn creer_puis_changer_de_repertoire() {
    let mut fs = FileSystem::new();
    assert_eq!(chemin_actuel(&fs), "/");
    assert!(fs.creer_repertoire("docs", h(1)).0);
    assert!(!fs.creer_repertoire("docs", h(2)).0);
    assert!(!fs.creer_repertoire("", h(2)).0);
    assert!(fs.changer_repertoire("docs"));
    assert_eq!(chemin_actuel(&fs), "/docs");
    assert!(fs.creer_repertoire("sous", h(3)).0);
    assert!(fs.changer_repertoire("sous"));
    assert_eq!(chemin_actuel(&fs), "/docs/sous");
    assert!(fs.changer_repertoire(".."));
    assert_eq!(chemin_actuel(&fs), "/docs");
    assert!(fs.changer_repertoire("/"));
    assert_eq!(chemin_actuel(&fs), "/");
    assert!(!fs.changer_repertoire("absent"));
}

#[test]
fn changer_vers_un_fichier_refuse() {
    let mut fs = FileSystem::new();
    ecrire(&mut fs, "f", b"1", h(1));
    assert!(!fs.changer_repertoire("f"));
    assert_eq!(chemin_actuel(&fs), "/");
}

#[test]
fn supprimer_et_ses_refus() {
    let mut fs = FileSystem::new();
    ecrire(&mut fs, "f", b"1", h(1));
    assert!(fs.creer_repertoire("d", h(1)).0);
    assert_eq!(supprimer(&mut fs, "absent", false).0, Err("introuvable"));
    assert_eq!(supprimer(&mut fs, "d", false).0, Err("est_dossier"));
    assert_eq!(supprimer(&mut fs, "f", true).0, Err("est_fichier"));
    assert_eq!(supprimer(&mut fs, "f", false).0, Ok(()));
    assert_eq!(lire(&fs, "f"), None);
    assert_eq!(supprimer(&mut fs, "d", true).0, Ok(()));
    assert!(lister(&fs).is_empty());
}

#[test]
fn renommer_et_ses_refus() {
    let mut fs = FileSystem::new();
    ecrire(&mut fs, "a", b"A", h(1));
    ecrire(&mut fs, "b", b"B", h(1));
    assert_eq!(renommer(&mut fs, "a", "b", false).0, Err("existe_deja"));
    assert_eq!(renommer(&mut fs, "x", "y", false).0, Err("introuvable"));
    assert_eq!(renommer(&mut fs, "a", "c", true).0, Err("est_fichier"));
    assert_eq!(renommer(&mut fs, "a", "c", false).0, Ok(()));
    assert_eq!(lire(&fs, "a"), None);
    assert_eq!(lire(&fs, "c"), Some(b"A".to_vec()));
}

#[test]
fn copier_un_fichier_et_un_dossier() {
    let mut fs = FileSystem::new();
    ecrire(&mut fs, "a", b"A", h(1));
    assert!(fs.creer_repertoire("d", h(1)).0);
    assert_eq!(copier(&mut fs, "a", "d", false).0, Ok(()));
    assert_eq!(copier(&mut fs, "a", "b", false).0, Ok(()));
    assert_eq!(lire(&fs, "b"), Some(b"A".to_vec()));
    assert!(fs.changer_repertoire("d"));
    assert_eq!(lire(&fs, "a"), Some(b"A".to_vec()));
    assert!(fs.changer_repertoire("/"));
    assert_eq!(copier(&mut fs, "d", "e", false).0, Err(VfsError::EstUnRepertoire));
    assert_eq!(copier(&mut fs, "d", "e", true).0, Ok(()));
    assert_eq!(noms(&fs), vec!["a", "b", "d", "e"]);
    assert_eq!(copier(&mut fs, "d", "d/x", true).0, Err(VfsError::CycleDetecte));
    assert_eq!(copier(&mut fs, "a", "b", false).0, Err(VfsError::CibleExisteDeja));
    assert_eq!(copier(&mut fs, "absent", "z", false).0, Err(VfsError::SourceIntrouvable));
    assert_eq!(copier(&mut fs, "/", "z", true).0, Err(VfsError::SourceIntrouvable));
    assert_eq!(copier(&mut fs, "a", "nulle/part/z", false).0, Err(VfsError::DestinationIntrouvable));
}

#[test]
fn deplacer_un_fichier() {
    let mut fs = FileSystem::new();
    ecrire(&mut fs, "a", b"A", h(1));
    assert!(fs.creer_repertoire("d", h(1)).0);
    assert_eq!(deplacer(&mut fs, "a", "d").0, Ok(()));
    assert_eq!(lire(&fs, "a"), None);
    assert!(fs.changer_repertoire("d"));
    assert_eq!(lire(&fs, "a"), Some(b"A".to_vec()));
    assert!(fs.changer_repertoire("/"));
    assert_eq!(deplacer(&mut fs, "d", "d/e").0, Err(VfsError::CycleDetecte));
    assert_eq!(deplacer(&mut fs, "rien", "x").0, Err(VfsError::SourceIntrouvable));
    assert_eq!(deplacer(&mut fs, "d/a", "ailleurs/x").0, Err(VfsError::DestinationIntrouvable));
}

#[test]
fn lister_une_cible() {
    let mut fs = FileSystem::new();
    assert!(fs.creer_repertoire("d", h(1)).0);
    ecrire(&mut fs, "f", b"12", h(1));
    assert_eq!(lister_cible(&fs, "d").unwrap().len(), 0);
    assert_eq!(lister_cible(&fs, "f"), Err("est_fichier"));
    assert_eq!(lister_cible(&fs, "x"), Err("introuvable"));
    assert_eq!(lister_cible(&fs, "").unwrap().len(), 2);
}

#[test]
fn synchroniser_puis_recharger() {
    let mut fs = FileSystem::new();
    assert!(fs.creer_repertoire("d", h(4)).0);
    ecrire(&mut fs, "racine.txt", b"contenu", h(5));
    assert!(fs.changer_repertoire("d"));
    ecrire(&mut fs, "sous.txt", &[7u8; 600], h(6));
    let ecritures = synchroniser(&fs);
    let sb = &ecritures.last().unwrap();
    assert_eq!(sb.0, 65);
    let (taille, nb, nbs) = analyser_superbloc(&sb.1).unwrap();
    assert_eq!(nb, 3);
    assert_eq!(nbs, (taille + 511) / 512);
    assert_eq!(ecritures.len(), nbs + 1);
    for (i, e) in ecritures[..nbs].iter().enumerate() {
        assert_eq!(e.0, 66 + i as u64);
        assert_eq!(e.1.len(), 512);
    }
    let mut flux: Vec<u8> = Vec::new();
    for e in &ecritures[..nbs] {
        flux.extend_from_slice(&e.1);
    }
    flux.truncate(taille);
    let mut neuf = FileSystem::new();
    assert_eq!(charger_depuis_disque(&mut neuf, &flux), 3);
    assert_eq!(lire(&neuf, "racine.txt"), Some(b"contenu".to_vec()));
    assert!(neuf.changer_repertoire("d"));
    assert_eq!(lire(&neuf, "sous.txt"), Some(vec![7u8; 600]));
    assert_eq!(lister(&neuf)[0].3, h(6));
}

#[test]
fn vfs_vide_ecrit_seulement_le_superbloc() {
    let fs = FileSystem::new();
    let ecritures = synchroniser(&fs);
    assert_eq!(ecritures.len(), 1);
    assert_eq!(&ecritures[0].1[..12], b"QBX_FS_V1\0\0\0");
    assert_eq!(analyser_superbloc(&ecritures[0].1), None);
}

#[test]
fn superbloc_mal_signe_refuse() {
    let sb = vec![0u8; 512];
    assert_eq!(analyser_superbloc(&sb), None);
}

#[test]
fn chemins() {
    assert_eq!(nettoyer_chemin("/a/./b//../c"), vec!["a", "b", "..", "c"]);
    assert!(est_absolu("/x"));
    assert!(!est_absolu("x"));
    let fs = FileSystem::new();
    assert_eq!(fs.resoudre_chemin("/a/b/../c"), vec!["a".to_string(), "c".to_string()]);
    let a = vec!["a".to_string()];
    let ab = vec!["a".to_string(), "b".to_string()];
    assert!(est_descendant(&a, &ab));
    assert!(est_descendant(&a, &a));
    assert!(!est_descendant(&ab, &a));
}

#[test]
fn messages_d_erreur() {
    assert_eq!(VfsError::SourceIntrouvable.message(), "Fichier ou repertoire source introuvable.");
    assert_eq!(VfsError::DestinationIntrouvable.message(), "Repertoire de destination introuvable.");
    assert_eq!(VfsError::CibleExisteDeja.message(), "La cible existe deja.");
    assert_eq!(VfsError::PasUnRepertoire.message(), "Le chemin de destination n'est pas un repertoire.");
    assert_eq!(VfsError::EstUnRepertoire.message(), "La source est un repertoire (utiliser -r).");
    assert_eq!(VfsError::CycleDetecte.message(), "Impossible de copier un repertoire a l'interieur de lui-meme.");
    assert_eq!(VfsError::CheminInvalide.message(), "Chemin specifie invalide.");
}

#[test]
fn chaque_modification_rend_sa_synchronisation() {
    let mut fs = FileSystem::new();
    let w = ecrire(&mut fs, "a", b"A", h(1));
    assert_eq!(w, synchroniser(&fs));
    let (ok, w) = fs.creer_repertoire("d", h(2));
    assert!(ok);
    assert_eq!(w, synchroniser(&fs));
    assert_eq!(fs.creer_repertoire("d", h(3)), (false, Vec::new()));
    let (r, w) = renommer(&mut fs, "a", "b", false);
    assert_eq!(r, Ok(()));
    assert_eq!(w, synchroniser(&fs));
    assert_eq!(renommer(&mut fs, "a", "c", false), (Err("introuvable"), Vec::new()));
    let (r, w) = copier(&mut fs, "b", "c", false);
    assert_eq!(r, Ok(()));
    assert_eq!(w, synchroniser(&fs));
    let (r, w) = deplacer(&mut fs, "c", "d");
    assert_eq!(r, Ok(()));
    assert_eq!(w, synchroniser(&fs));
    let (r, w) = supprimer(&mut fs, "b", false);
    assert_eq!(r, Ok(()));
    assert_eq!(w, synchroniser(&fs));
    assert_eq!(supprimer(&mut fs, "b", false), (Err("introuvable"), Vec::new()));
}
