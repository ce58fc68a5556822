use qbx::allocator::taille_alignee;
use qbx::commandes::{net as cmd_net, pci as cmd_pci};
use qbx::interrupts::InterruptIndex;
use qbx::memory::physique_vers_virtuelle;
use qbx::net::e1000::{
    adresse_mac, conf_rctl, conf_tctl, diagnostique, envoyer, initialiser_rx, initialiser_tx, scruter, CarteE1000,
};
use qbx::pci::{
    activer_bus_master_et_memoire, adresse_config, ecrire_config_u16, lire_config_u16, peripherique, scruter_bus,
    trouver_e1000, PeripheriquePci,
};
use qbx::storage::ahci;
use qbx::storage::partitions::{ecrire_secteur_sec, ecrire_secteur_var, lire_secteur_sec, lire_secteur_var};
use qbx::syscalls::{adresses_a_verifier, valider_plage_memoire};
use qbx::vga_buffer::{char_vers_cp437, clear_screen, code_couleur, Couleur, Ecrivain};

fn carte_e1000() -> PeripheriquePci {
    PeripheriquePci {
        bus: 0,
        slot: 3,
        fonction: 0,
        vendor_id: 0x8086,
        device_id: 0x100E,
        classe: 2,
        sous_classe: 0,
        bar0: 0xFEBC_0004,
        irq: 11,
    }
}

#[test]
fn adresses_de_configuration_pci() {
    assert_eq!(adresse_config(0, 3, 0, 0x06), 0x8000_1804);
    assert_eq!(adresse_config(1, 0, 2, 0x10), 0x8001_0210);
}

#[test]
fn lire_apres_ecrire_un_mot_de_configuration() {
    let ancien = 0x1234_5678;
    let w = ecrire_config_u16(ancien, 2, 0xABCD);
    assert_eq!(w, 0xABCD_5678);
    assert_eq!(lire_config_u16(w, 2), 0xABCD);
    assert_eq!(lire_config_u16(w, 0), 0x5678);
    assert_eq!(activer_bus_master_et_memoire(0x0001), 0x0007);
}

#[test]
fn recensement_du_bus() {
    let releves = vec![
        (0u8, 0u8, 0xFFFFu16, 0xFFFFu16, 0u32, 0u32, 0u32),
        (0, 3, 0x8086, 0x100E, 0x0200_0000, 0xFEBC_0004, 0x0000_010B),
        (0, 1, 0x8086, 0x7000, 0x0601_0000, 0, 0),
    ];
    let ps = scruter_bus(&releves);
    assert_eq!(ps.len(), 2);
    assert_eq!(ps[0], carte_e1000());
    assert_eq!(ps[1].description(), "Pont PCI/ISA");
    assert_eq!(peripherique(releves[1]), carte_e1000());
    assert_eq!(trouver_e1000(&ps), Some(carte_e1000()));
    assert_eq!(trouver_e1000(&ps[1..].to_vec()), None);
}

#[test]
fn demarrage_du_bus_journalise() {
    let mut autre = carte_e1000();
    autre.device_id = 0x1234;
    assert_eq!(
        qbx::pci::initialiser(&vec![autre, carte_e1000()]),
        vec![
            "[PCI] Scrutateur actif : 2 peripherique(s) detecte(s)".to_string(),
            "[NET] Intel e1000 detectee sur PCI 0:3.0 (BAR0: 0xFEBC0000, IRQ: 11)".to_string(),
        ]
    );
    assert_eq!(qbx::pci::initialiser(&vec![autre])[1], "[NET] Aucune interface Intel e1000 reperee");
}

#[test]
fn commande_pci_affiche_le_tableau() {
    let l = cmd_pci::executer(&vec![carte_e1000()]);
    assert_eq!(l[2], "  00:03.0     8086:100E    0xFEBC0000     Contrôleur Ethernet [E1000]");
    assert_eq!(l[4], "  Total : 1 périphérique(s)");
}

#[test]
fn carte_e1000_mac_et_liaison() {
    let c = CarteE1000::new(0x1000, 0x5634_1200, 0x0000_9A78, 0x2);
    assert_eq!(c.mac, [0x00, 0x12, 0x34, 0x56, 0x78, 0x9A]);
    assert!(c.lien_actif);
    assert_eq!(c.index_rx, 0);
    assert_eq!(c.index_tx, 0);
    assert!(!CarteE1000::new(0, 0, 0, 0x1).lien_actif);
    let pilote = Some(c);
    assert_eq!(adresse_mac(&pilote), [0x00, 0x12, 0x34, 0x56, 0x78, 0x9A]);
    assert_eq!(adresse_mac(&None), [0u8; 6]);
}

#[test]
fn anneaux_armes_avec_les_bons_registres() {
    assert_eq!(conf_rctl(), 0x0400_801E);
    assert_eq!(conf_tctl(), 0x0004_00FA);
    let t: Vec<Option<u64>> = (0..32).map(|i| Some(0x10_0000 + 2048 * i)).collect();
    let (d, w) = initialiser_rx(&t, Some(0x1_2345_6000)).unwrap();
    assert_eq!(d.len(), 32);
    assert_eq!(d[5].adresse_tampon, 0x10_0000 + 2048 * 5);
    assert_eq!(d[5].statut, 0);
    assert_eq!(w, vec![(0x2800, 0x2345_6000), (0x2804, 1), (0x2808, 512), (0x2810, 0), (0x2818, 31), (0x0100, 0x0400_801E)]);
    let mut manque = t.clone();
    manque[7] = None;
    assert!(initialiser_rx(&manque, Some(0)).is_none());
    assert!(initialiser_rx(&t, None).is_none());
    let t16: Vec<Option<u64>> = (0..16).map(|i| Some(0x20_0000 + 2048 * i)).collect();
    let (d, w) = initialiser_tx(&t16, Some(0x3000)).unwrap();
    assert_eq!(d[0].statut, 1);
    assert_eq!(d[0].cmd, 0);
    assert_eq!(w, vec![(0x3800, 0x3000), (0x3804, 0), (0x3808, 256), (0x3810, 0), (0x3818, 0), (0x0400, 0x0004_00FA)]);
}

#[test]
fn reception_et_emission_dans_les_anneaux() {
    let mut pilote = Some(CarteE1000::new(0, 0, 0, 0));
    assert!(scruter(&mut pilote, 0, 10, &[0u8; 2048]).is_none());
    assert_eq!(pilote.as_ref().unwrap().index_rx, 0);
    let mut tampon = vec![0u8; 2048];
    tampon[..4].copy_from_slice(&[1, 2, 3, 4]);
    let p = scruter(&mut pilote, 1, 3, &tampon).unwrap();
    assert_eq!(p.donnees, vec![1, 2, 3]);
    assert_eq!(pilote.as_ref().unwrap().index_rx, 1);
    for _ in 0..31 {
        scruter(&mut pilote, 1, 0, &tampon).unwrap();
    }
    assert_eq!(pilote.as_ref().unwrap().index_rx, 0);
    assert!(!envoyer(&mut pilote, &[0u8; 2049], 1));
    assert!(!envoyer(&mut pilote, &[0u8; 60], 0));
    assert_eq!(pilote.as_ref().unwrap().index_tx, 0);
    assert!(envoyer(&mut pilote, &[0u8; 60], 1));
    assert_eq!(pilote.as_ref().unwrap().index_tx, 1);
    let mut absent: Option<CarteE1000> = None;
    assert!(!envoyer(&mut absent, &[0u8; 60], 1));
    assert!(scruter(&mut absent, 1, 0, &tampon).is_none());
}

#[test]
fn compteurs_lus_dans_l_ordre() {
    let pilote = Some(CarteE1000::new(0, 0, 0, 0));
    let lire = |reg: u32| reg + 1;
    assert_eq!(diagnostique(&pilote, lire), (0x3811, 0x3819, 0x4081, 0x2811, 0x2819, 0x4075));
    assert_eq!(diagnostique(&None, lire), (0, 0, 0, 0, 0, 0));
}

#[test]
fn demarrage_du_reseau() {
    let ps = vec![carte_e1000()];
    assert_eq!(qbx::net::initialiser(&ps, 0x1000_0000_0000), Some((carte_e1000(), 0x1000_FEBC_0000)));
    assert_eq!(qbx::net::initialiser(&vec![], 0), None);
}

#[test]
fn commande_net() {
    let mut pilote = Some(CarteE1000::new(0, 0x5634_1200, 0x9A78, 0));
    let l = cmd_net::executer(&mut pilote, |_reg: u32| 0x2);
    assert_eq!(l[1], "  Adresse MAC  : 00:12:34:56:78:9A");
    assert_eq!(l[2], "  État liaison : ACTIF / CONNECTÉ (Full Duplex 1000 Mbps)");
    assert!(pilote.as_ref().unwrap().lien_actif);
    let l = cmd_net::executer(&mut pilote, |_reg: u32| 0x0);
    assert_eq!(l[2], "  État liaison : DÉCONNECTÉ (Down)");
    let mut rien: Option<CarteE1000> = None;
    assert_eq!(cmd_net::executer(&mut rien, |r: u32| r), vec!["net: Aucune interface réseau active détectée.".to_string()]);
}

#[test]
fn ahci_decisions_de_configuration() {
    assert_eq!(ahci::classe_pci(0x0106_0102), (0x01, 0x06, 0x01));
    assert!(ahci::est_controleur_ahci(0x0106_0102));
    assert!(!ahci::est_controleur_ahci(0x0106_0002));
    assert_eq!(ahci::commande_pci_active(0x1), 0x7);
    assert_eq!(ahci::base_abar(0xFEBF_1004), 0xFEBF_1000);
    assert!(ahci::port_pret(0x1, 0x123));
    assert!(!ahci::port_pret(0x2, 0x123));
    assert!(!ahci::port_pret(0x1, 0x213));
    assert!(!ahci::port_pret(0x1, 0x121));
    assert_eq!(ahci::commande_arret(0xFFFF_FFFF), 0xFFFF_FFEE);
    assert_eq!(ahci::commande_demarrage(0), 0x11);
    assert!(ahci::arret_termine(0x3FFF));
    assert!(!ahci::arret_termine(0x8000));
}

#[test]
fn ahci_structures_de_commande() {
    assert_eq!(ahci::entete_commande(false, 0x1_0000_2000), vec![0x0001_0005, 0, 0x2000, 1]);
    assert_eq!(ahci::entete_commande(true, 0x2000), vec![0x0001_0045, 0, 0x2000, 0]);
    let p = ahci::entree_prdt(0x2_0000_0400);
    assert_eq!((p.dba, p.dbau, p.rsv0, p.dbc), (0x400, 2, 0, 511));
    let f = ahci::fis_commande(0x0000_1234_5678_9ABC, true);
    assert_eq!(f.len(), 64);
    assert_eq!(&f[..14], &[0x27, 0x80, 0x35, 0, 0xBC, 0x9A, 0x78, 0x40, 0x56, 0x34, 0x12, 0, 1, 0]);
    assert!(f[14..].iter().all(|&b| b == 0));
    assert_eq!(ahci::fis_commande(100, false)[2], 0x25);
    let id = ahci::fis_identification();
    assert_eq!(&id[..4], &[0x27, 0x80, 0xEC, 0]);
}

#[test]
fn ahci_attentes() {
    assert_eq!(ahci::attente_port(0x88, 5), Ok(Some(4)));
    assert_eq!(ahci::attente_port(0x00, 5), Ok(None));
    assert_eq!(ahci::attente_port(0x80, 0), Err("Timeout Port AHCI occupé"));
    assert_eq!(ahci::attente_port(0x00, 0), Err("Timeout Port AHCI occupé"));
    assert_eq!(ahci::attente_commande(0, 0, 9), Ok(None));
    assert_eq!(ahci::attente_commande(1, 0x4000_0000, 9), Err("Erreur matérielle retournée par le disque lors du transfert"));
    assert_eq!(ahci::attente_commande(1, 0, 1), Err("Timeout AHCI : le disque n'a pas répondu à temps"));
    assert_eq!(ahci::attente_commande(1, 0, 9), Ok(Some(8)));
}

fn mots_ata(m: &mut [u16], debut: usize, texte: &str) {
    let b = texte.as_bytes();
    for (k, paire) in b.chunks(2).enumerate() {
        m[debut + k] = ((paire[0] as u16) << 8) | (*paire.get(1).unwrap_or(&b' ') as u16);
    }
}

#[test]
fn ahci_identification_du_disque() {
    let mut m = vec![0u16; 256];
    mots_ata(&mut m, 27, "QEMU HARDDISK                           ");
    mots_ata(&mut m, 10, "QM00001             ");
    m[100] = 0;
    m[101] = 0x20;
    let infos = ahci::analyser_identification(&m);
    assert_eq!(infos.modele, "QEMU HARDDISK");
    assert_eq!(infos.serie, "QM00001");
    assert_eq!(infos.secteurs, 0x20_0000);
    assert_eq!(infos.taille_mo, 1024);
    let l = ahci::lignes_disque(&infos);
    assert_eq!(l[1], "       │ Modèle    : QEMU HARDDISK                    │");
    assert_eq!(l[3], "       │ Capacité  : 1024 Mo (2097152 secteurs LBA)  │");
    let mut ancien = vec![0u16; 256];
    ancien[60] = 0x1000;
    ancien[61] = 0x0001;
    ancien[27] = 0xFFFF;
    let infos = ahci::analyser_identification(&ancien);
    assert_eq!(infos.secteurs, 0x1_1000);
    assert_eq!(infos.modele, "Inconnu");
    assert_eq!(
        ahci::lignes_detection(0, 0x1F, 0x2922_8086),
        vec!["[AHCI] Contrôleur détecté sur PCI 00:1F.0".to_string(), "       Identifiants : Vendor 0x8086, Device 0x2922".to_string()]
    );
}

#[test]
fn partitions_isolees() {
    assert_eq!(lire_secteur_sec(0), Ok(2048));
    assert_eq!(ecrire_secteur_sec(18431), Ok(20479));
    assert_eq!(lire_secteur_sec(18432), Err("/sec: dépassement de la limite de partition"));
    assert_eq!(ecrire_secteur_sec(99999), Err("/sec: dépassement de la limite de partition"));
    assert_eq!(lire_secteur_var(0), 20480);
    assert_eq!(ecrire_secteur_var(65), 20545);
}

#[test]
fn plages_memoire_des_appels_systeme() {
    assert!(adresses_a_verifier(0, 10).is_empty());
    assert!(adresses_a_verifier(0x1000, 0).is_empty());
    assert_eq!(adresses_a_verifier(0x1000, 16), vec![0x1000, 0x100F]);
    assert_eq!(adresses_a_verifier(0x1FF0, 0x2020), vec![0x1FF0, 0x400F, 0x2000, 0x3000, 0x4000]);
    assert!(valider_plage_memoire(0x1000, 16, &vec![true, true]));
    assert!(!valider_plage_memoire(0x1000, 16, &vec![true, false]));
    assert!(!valider_plage_memoire(0x1000, 0, &vec![]));
}

#[test]
fn console_vga() {
    let couleur = code_couleur(Couleur::Jaune, Couleur::Noir);
    assert_eq!(couleur, 0x0E);
    let mut e = Ecrivain::nouveau(couleur);
    e.ecrire_chaine("Hé");
    let base = 24 * 160;
    assert_eq!(&e.ecran()[base..base + 4], &[b'H', 0x0E, 0x82, 0x0E]);
    assert_eq!(e.position_curseur(), 24 * 80 + 2);
    e.effacer_dernier_caractere();
    assert_eq!(e.position_curseur(), 24 * 80 + 1);
    assert_eq!(e.ecran()[base + 2], b' ');
    e.ecrire_chaine("\nX");
    assert_eq!(e.ecran()[base - 160], b'H');
    assert_eq!(e.ecran()[base], b'X');
    clear_screen(&mut e);
    assert_eq!(e.position_curseur(), 24 * 80);
    assert!(e.ecran().chunks(2).all(|c| c[0] == b' ' && c[1] == 0x0E));
    assert_eq!(char_vers_cp437('é'), 0x82);
    assert_eq!(char_vers_cp437('\u{263A}'), 0xFE);
}

#[test]
fn divers_materiel() {
    assert_eq!(InterruptIndex::Timer.as_u8(), 32);
    assert_eq!(InterruptIndex::Keyboard.as_usize(), 33);
    assert_eq!(physique_vers_virtuelle(0x1000, 0xFFFF_8000_0000_0000), 0xFFFF_8000_0000_1000);
    assert_eq!(taille_alignee(1), 4096);
    assert_eq!(taille_alignee(4096), 4096);
    assert_eq!(taille_alignee(0), 0);
}

#[test]
fn plan_de_scrutation_des_256_bus() {
    let plan = qbx::pci::plan_de_scrutation();
    assert_eq!(plan.len(), 256 * 32);
    assert_eq!(plan[0], (0, 0));
    assert_eq!(plan[33], (1, 1));
    assert_eq!(plan[4 * 32 + 7], (4, 7));
    assert_eq!(plan[8191], (255, 31));
}
