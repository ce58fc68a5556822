use vstd::prelude::*;
use std::string::String;
use std::vec::Vec;
use crate::texte::{
    a_gauche, decimal, hex, pousser_a_gauche, pousser_decimal, pousser_hex, pousser_texte, rogner, rogner_v,
    texte_utf8, vers_chaine, vue_mots,
};

verus! {

pub const CLASSE_STOCKAGE: u8 = 0x01;
pub const SOUS_CLASSE_SATA: u8 = 0x06;
pub const PROG_IF_AHCI: u8 = 0x01;

pub const ATA_CMD_IDENTIFY: u8 = 0xEC;
pub const ATA_CMD_READ_DMA_EXT: u8 = 0x25;
pub const ATA_CMD_WRITE_DMA_EXT: u8 = 0x35;
pub const FIS_TYPE_REG_H2D: u8 = 0x27;

/// Nombre d'essais de l'attente d'un port libre.
pub const ESSAIS_PORT: u32 = 100_000;

/// Nombre d'essais de l'attente de la fin d'une commande.
pub const ESSAIS_COMMANDE: u32 = 1_000_000;

/// Octet de `x` de poids `poids` (une puissance de 256).
pub open spec fn octet(x: nat, poids: nat) -> u8 {
    ((x / poids) % 256) as u8
}

/// Classe, sous-classe et interface de programmation lues dans le registre 0x08 d'une fonction
/// PCI (octets 3, 2 et 1).
pub fn classe_pci(class_rev: u32) -> (r: (u8, u8, u8))
    ensures
        r.0 == class_rev / 0x100_0000,
        r.1 == (class_rev / 0x1_0000) % 256,
        r.2 == (class_rev / 256) % 256,
{
    let c = class_rev;
    assert((c >> 24) & 0xFF == c / 0x100_0000 && (c >> 16) & 0xFF == (c / 0x1_0000) % 256 && (c >> 8) & 0xFF == (c
        / 256) % 256) by (bit_vector);
    (((c >> 24) & 0xFF) as u8, ((c >> 16) & 0xFF) as u8, ((c >> 8) & 0xFF) as u8)
}

/// La fonction est un contrôleur SATA en mode AHCI.
pub open spec fn est_ahci_v(class_rev: u32) -> bool {
    class_rev / 0x100_0000 == CLASSE_STOCKAGE && (class_rev / 0x1_0000) % 256 == SOUS_CLASSE_SATA && (class_rev
        / 256) % 256 == PROG_IF_AHCI
}

/// Reconnaît un contrôleur AHCI à son registre de classe.
pub fn est_controleur_ahci(class_rev: u32) -> (r: bool)
    ensures
        r == est_ahci_v(class_rev),
{
    let (classe, sous_classe, prog_if) = classe_pci(class_rev);
    classe == CLASSE_STOCKAGE && sous_classe == SOUS_CLASSE_SATA && prog_if == PROG_IF_AHCI
}

/// Registre de commande PCI avec l'accès mémoire (bit 1) et le bus master (bit 2) activés.
pub fn commande_pci_active(cmd: u32) -> (r: u32)
    ensures
        r == cmd | 6,
{
    let r = cmd | (1u32 << 1u32) | (1u32 << 2u32);
    assert(r == cmd | 6u32) by (bit_vector)
        requires
            r == cmd | (1u32 << 1u32) | (1u32 << 2u32),
    ;
    r
}

/// Adresse physique des registres du contrôleur (ABAR), sans les quatre bits de drapeaux.
pub fn base_abar(bar5: u32) -> (r: u32)
    ensures
        r == bar5 - bar5 % 16,
{
    let r = bar5 & 0xFFFF_FFF0;
    assert(r == bar5 - bar5 % 16) by (bit_vector)
        requires
            r == bar5 & 0xFFFF_FFF0u32,
    ;
    r
}

/// Le port 0 est implémenté (bit 0 de PI), un périphérique y est présent et la liaison établie
/// (DET = 3), et l'interface est active (IPM = 1).
pub open spec fn port_pret_v(pi: u32, ssts: u32) -> bool {
    pi % 2 == 1 && ssts % 16 == 3 && (ssts / 256) % 16 == 1
}

/// Décide si le port 0 est utilisable d'après les registres PI et SSTS.
pub fn port_pret(pi: u32, ssts: u32) -> (r: bool)
    ensures
        r == port_pret_v(pi, ssts),
{
    assert(((pi & 1) != 0) == (pi % 2 == 1) && ssts & 0x0F == ssts % 16 && (ssts >> 8) & 0x0F == (ssts / 256) % 16)
        by (bit_vector);
    (pi & 1) != 0 && (ssts & 0x0F) == 3 && ((ssts >> 8) & 0x0F) == 1
}

/// Registre PxCMD avec le démarrage (ST, bit 0) et la réception des FIS (FRE, bit 4) coupés.
pub fn commande_arret(cmd: u32) -> (r: u32)
    ensures
        r == cmd & !0x11u32,
{
    let mut c = cmd;
    c = c & !(1u32 << 0u32);
    c = c & !(1u32 << 4u32);
    assert(c == cmd & !0x11u32) by (bit_vector)
        requires
            c == (cmd & !(1u32 << 0u32)) & !(1u32 << 4u32),
    ;
    c
}

/// Le port est arrêté : ni la liste de commandes (CR, bit 15) ni la réception (FR, bit 14)
/// ne tournent.
pub fn arret_termine(cmd: u32) -> (r: bool)
    ensures
        r == (cmd & 0xC000 == 0),
{
    assert((1u32 << 15u32) | (1u32 << 14u32) == 0xC000u32) by (bit_vector);
    (cmd & ((1u32 << 15u32) | (1u32 << 14u32))) == 0
}

/// Registre PxCMD avec la réception des FIS puis le démarrage activés.
pub fn commande_demarrage(cmd: u32) -> (r: u32)
    ensures
        r == cmd | 0x11,
{
    let mut c = cmd;
    c = c | (1u32 << 4u32);
    c = c | (1u32 << 0u32);
    assert(c == cmd | 0x11u32) by (bit_vector)
        requires
            c == (cmd | (1u32 << 4u32)) | (1u32 << 0u32),
    ;
    c
}

/// Première entrée de la liste de commandes : FIS de 5 mots, une entrée PRDT, sens écriture
/// (bit 6) pour une écriture, puis l'adresse physique de la table de commande.
pub open spec fn entete_commande_v(est_ecriture: bool, table: u64) -> Seq<u32> {
    seq![
        if est_ecriture { 0x0001_0045u32 } else { 0x0001_0005u32 },
        0u32,
        (table % 0x1_0000_0000) as u32,
        (table / 0x1_0000_0000) as u32,
    ]
}

fn bas_haut(phys: u64) -> (r: (u32, u32))
    ensures
        r.0 == phys % 0x1_0000_0000,
        r.1 == phys / 0x1_0000_0000,
{
    assert(phys & 0xFFFF_FFFF == phys % 0x1_0000_0000 && phys >> 32 == phys / 0x1_0000_0000) by (bit_vector);
    ((phys & 0xFFFF_FFFF) as u32, (phys >> 32) as u32)
}

/// Les quatre mots de l'en-tête de commande.
pub fn entete_commande(est_ecriture: bool, table: u64) -> (r: Vec<u32>)
    ensures
        r@ == entete_commande_v(est_ecriture, table),
{
    let mut drapeaux: u32 = 5 | (1 << 16);
    if est_ecriture {
        drapeaux = drapeaux | (1 << 6);
    }
    assert(5u32 | (1u32 << 16u32) == 0x0001_0005u32 && (0x0001_0005u32 | (1u32 << 6u32)) == 0x0001_0045u32) by (bit_vector);
    let (bas, haut) = bas_haut(table);
    let mut r: Vec<u32> = Vec::new();
    r.push(drapeaux);
    r.push(0);
    r.push(bas);
    r.push(haut);
    assert(r@ =~= entete_commande_v(est_ecriture, table));
    r
}

/// Entrée de la table des régions physiques (PRDT).
#[derive(Clone, Copy, Debug, PartialEq, Eq, Structural)]
pub struct PrdtEntry {
    pub dba: u32,
    pub dbau: u32,
    pub rsv0: u32,
    pub dbc: u32,
}

/// Région d'un secteur à l'adresse physique `phys`, sans interruption de fin (bit 31 de DBC nul).
pub fn entree_prdt(phys: u64) -> (r: PrdtEntry)
    ensures
        r == (PrdtEntry {
            dba: (phys % 0x1_0000_0000) as u32,
            dbau: (phys / 0x1_0000_0000) as u32,
            rsv0: 0,
            dbc: 511,
        }),
{
    let (bas, haut) = bas_haut(phys);
    PrdtEntry { dba: bas, dbau: haut, rsv0: 0, dbc: 512 - 1 }
}

/// FIS hôte vers disque d'une commande DMA 48 bits sur un secteur : type, bit de commande,
/// code de lecture ou d'écriture, les six octets du LBA, le mode LBA, et un secteur.
pub open spec fn fis_commande_v(lba: u64, est_ecriture: bool) -> Seq<u8> {
    Seq::new(64, |i: int| 0u8).update(0, FIS_TYPE_REG_H2D).update(1, 0x80u8).update(
        2,
        if est_ecriture { ATA_CMD_WRITE_DMA_EXT } else { ATA_CMD_READ_DMA_EXT },
    ).update(7, 0x40u8).update(4, octet(lba as nat, 0x1)).update(5, octet(lba as nat, 0x100)).update(
        6,
        octet(lba as nat, 0x1_0000),
    ).update(8, octet(lba as nat, 0x100_0000)).update(9, octet(lba as nat, 0x1_0000_0000)).update(10, octet(lba as nat, 0x100_0000_0000)).update(
        12,
        1u8,
    ).update(13, 0u8)
}

/// FIS hôte vers disque de la commande IDENTIFY.
pub open spec fn fis_identification_v() -> Seq<u8> {
    Seq::new(64, |i: int| 0u8).update(0, FIS_TYPE_REG_H2D).update(1, 0x80u8).update(2, ATA_CMD_IDENTIFY).update(
        3,
        0u8,
    ).update(7, 0u8)
}

proof fn lemme_octets(lba: u64)
    ensures
        lba & 0xFF == octet(lba as nat, 0x1),
        (lba >> 8) & 0xFF == octet(lba as nat, 0x100),
        (lba >> 16) & 0xFF == octet(lba as nat, 0x1_0000),
        (lba >> 24) & 0xFF == octet(lba as nat, 0x100_0000),
        (lba >> 32) & 0xFF == octet(lba as nat, 0x1_0000_0000),
        (lba >> 40) & 0xFF == octet(lba as nat, 0x100_0000_0000),
{
    assert(lba & 0xFF == lba % 256 && (lba >> 8) & 0xFF == (lba / 0x100) % 256 && (lba >> 16) & 0xFF == (lba
        / 0x1_0000) % 256 && (lba >> 24) & 0xFF == (lba / 0x100_0000) % 256 && (lba >> 32) & 0xFF == (lba
        / 0x1_0000_0000) % 256 && (lba >> 40) & 0xFF == (lba / 0x100_0000_0000) % 256) by (bit_vector);
}

/// Les 64 octets du FIS d'un transfert d'un secteur au LBA `lba`.
pub fn fis_commande(lba: u64, est_ecriture: bool) -> (r: Vec<u8>)
    ensures
        r@ == fis_commande_v(lba, est_ecriture),
{
    let mut f = crate::octets::zeros(64);
    f.set(0, FIS_TYPE_REG_H2D);
    f.set(1, 0x80);
    f.set(2, if est_ecriture { ATA_CMD_WRITE_DMA_EXT } else { ATA_CMD_READ_DMA_EXT });
    f.set(7, 0x40);
    proof {
        lemme_octets(lba);
    }
    f.set(4, (lba & 0xFF) as u8);
    f.set(5, ((lba >> 8) & 0xFF) as u8);
    f.set(6, ((lba >> 16) & 0xFF) as u8);
    f.set(8, ((lba >> 24) & 0xFF) as u8);
    f.set(9, ((lba >> 32) & 0xFF) as u8);
    f.set(10, ((lba >> 40) & 0xFF) as u8);
    f.set(12, 1);
    f.set(13, 0);
    assert(f@ =~= fis_commande_v(lba, est_ecriture));
    f
}

/// Les 64 octets du FIS de la commande IDENTIFY.
pub fn fis_identification() -> (r: Vec<u8>)
    ensures
        r@ == fis_identification_v(),
{
    let mut f = crate::octets::zeros(64);
    f.set(0, FIS_TYPE_REG_H2D);
    f.set(1, 0x80);
    f.set(2, ATA_CMD_IDENTIFY);
    f.set(3, 0);
    f.set(7, 0);
    assert(f@ =~= fis_identification_v());
    f
}

/// Port occupé : BSY (bit 7) ou DRQ (bit 3) dans PxTFD.
pub open spec fn port_occupe_v(tfd: u32) -> bool {
    tfd & 0x88 != 0
}

/// Un pas de l'attente d'un port libre, avec `restant` essais : continuer avec un essai de moins
/// tant que le port est occupé et qu'il reste des essais, sinon s'arrêter, en échec si les essais
/// sont épuisés.
pub open spec fn attente_port_v(tfd: u32, restant: u32) -> Result<Option<u32>, &'static str> {
    if port_occupe_v(tfd) && restant > 0 {
        Ok(Some((restant - 1) as u32))
    } else if restant == 0 {
        Err("Timeout Port AHCI occupé")
    } else {
        Ok(None)
    }
}

/// Décide d'un pas de l'attente d'un port libre d'après PxTFD.
pub fn attente_port(tfd: u32, restant: u32) -> (r: Result<Option<u32>, &'static str>)
    ensures
        r == attente_port_v(tfd, restant),
{
    if (tfd & 0x88) != 0 && restant > 0 {
        Ok(Some(restant - 1))
    } else if restant == 0 {
        Err("Timeout Port AHCI occupé")
    } else {
        Ok(None)
    }
}

/// Un pas de l'attente de la fin d'une commande, avec `restant` essais : terminée quand le bit 0
/// de PxCI est retombé ; échec sur erreur fatale du disque (bit 30 de PxIS) ou quand le dernier
/// essai est consommé ; sinon continuer avec un essai de moins.
pub open spec fn attente_commande_v(ci: u32, is: u32, restant: u32) -> Result<Option<u32>, &'static str> {
    if ci & 1 == 0 {
        Ok(None)
    } else if is & 0x4000_0000 != 0 {
        Err("Erreur matérielle retournée par le disque lors du transfert")
    } else if restant <= 1 {
        Err("Timeout AHCI : le disque n'a pas répondu à temps")
    } else {
        Ok(Some((restant - 1) as u32))
    }
}

/// Décide d'un pas de l'attente de la fin d'une commande d'après PxCI et PxIS.
pub fn attente_commande(ci: u32, is: u32, restant: u32) -> (r: Result<Option<u32>, &'static str>)
    requires
        restant > 0,
    ensures
        r == attente_commande_v(ci, is, restant),
{
    if (ci & 1) == 0 {
        return Ok(None);
    }
    if (is & 0x4000_0000) != 0 {
        return Err("Erreur matérielle retournée par le disque lors du transfert");
    }
    let reste = restant - 1;
    if reste == 0 {
        return Err("Timeout AHCI : le disque n'a pas répondu à temps");
    }
    Ok(Some(reste))
}

/// Octets d'une chaîne ATA de `n` mots à partir du mot `debut` : chaque mot donne son octet fort
/// puis son octet faible.
pub open spec fn octets_ata(m: Seq<u16>, debut: int, n: nat) -> Seq<u8> {
    Seq::new(2 * n, |k: int| if k % 2 == 0 { (m[debut + k / 2] / 256) as u8 } else { (m[debut + k / 2] % 256) as u8 })
}

/// Texte décodé, ou "Inconnu" si les octets ne sont pas de l'UTF-8.
pub open spec fn texte_ou_inconnu(b: Seq<u8>) -> Seq<char> {
    if vstd::utf8::valid_utf8(b) {
        vstd::utf8::decode_utf8(b)
    } else {
        "Inconnu"@
    }
}

/// Modèle du disque (mots 27 à 46 de IDENTIFY), sans blancs autour.
pub open spec fn modele_v(m: Seq<u16>) -> Seq<char> {
    rogner_v(texte_ou_inconnu(octets_ata(m, 27, 20)))
}

/// Numéro de série du disque (mots 10 à 19 de IDENTIFY), sans blancs autour.
pub open spec fn serie_v(m: Seq<u16>) -> Seq<char> {
    rogner_v(texte_ou_inconnu(octets_ata(m, 10, 10)))
}

/// Nombre de secteurs : l'adressage 48 bits (mots 100 à 103) s'il est renseigné, sinon 28 bits
/// (mots 60 et 61).
pub open spec fn secteurs_v(m: Seq<u16>) -> nat {
    let l48 = m[100] + 0x1_0000 * m[101] + 0x1_0000_0000 * m[102] + 0x1_0000_0000_0000 * m[103];
    if l48 > 0 {
        l48 as nat
    } else {
        (m[60] + 0x1_0000 * m[61]) as nat
    }
}

/// Ce que IDENTIFY apprend du disque.
pub struct InfosDisque {
    pub modele: String,
    pub serie: String,
    pub secteurs: u64,
    pub taille_mo: u64,
}

fn chaine_ata(m: &[u16], debut: usize, n: usize) -> (r: String)
    requires
        debut + n <= m@.len(),
    ensures
        r@ == rogner_v(texte_ou_inconnu(octets_ata(m@, debut as int, n as nat))),
{
    let mut b: Vec<u8> = Vec::new();
    let mut i: usize = 0;
    while i < n
        invariant
            i <= n,
            debut + n <= m.len(),
            b@ == octets_ata(m@, debut as int, n as nat).take(2 * i),
        decreases n - i,
    {
        let mot = m[debut + i];
        b.push((mot >> 8) as u8);
        b.push((mot & 0xFF) as u8);
        proof {
            assert(mot >> 8 == mot / 256 && mot & 0xFF == mot % 256) by (bit_vector);
        }
        i = i + 1;
        assert(b@ =~= octets_ata(m@, debut as int, n as nat).take(2 * i));
    }
    assert(b@ =~= octets_ata(m@, debut as int, n as nat));
    let t = match texte_utf8(b.as_slice()) {
        Some(s) => s,
        None => vers_chaine("Inconnu"),
    };
    rogner(t.as_str())
}

/// Nombre de secteurs annoncé par la réponse à IDENTIFY.
pub fn secteurs_identification(m: &[u16]) -> (r: u64)
    requires
        m@.len() == 256,
    ensures
        r == secteurs_v(m@),
{
    let w100 = m[100] as u64;
    let w101 = m[101] as u64;
    let w102 = m[102] as u64;
    let w103 = m[103] as u64;
    let l48 = w100 | (w101 << 16) | (w102 << 32) | (w103 << 48);
    assert(l48 == w100 + 0x1_0000 * w101 + 0x1_0000_0000 * w102 + 0x1_0000_0000_0000 * w103) by (bit_vector)
        requires
            w100 < 0x1_0000,
            w101 < 0x1_0000,
            w102 < 0x1_0000,
            w103 < 0x1_0000,
            l48 == w100 | (w101 << 16u64) | (w102 << 32u64) | (w103 << 48u64),
    ;
    if l48 > 0 {
        l48
    } else {
        let w60 = m[60] as u64;
        let w61 = m[61] as u64;
        let l28 = w60 | (w61 << 16);
        assert(l28 == w60 + 0x1_0000 * w61) by (bit_vector)
            requires
                w60 < 0x1_0000,
                w61 < 0x1_0000,
                l28 == w60 | (w61 << 16u64),
        ;
        l28
    }
}

/// Analyse la réponse à IDENTIFY (256 mots) : modèle, numéro de série, nombre de secteurs et
/// capacité en Mio.
pub fn analyser_identification(m: &[u16]) -> (r: InfosDisque)
    requires
        m@.len() == 256,
        secteurs_v(m@) * 512 <= u64::MAX,
    ensures
        r.modele@ == modele_v(m@),
        r.serie@ == serie_v(m@),
        r.secteurs == secteurs_v(m@),
        r.taille_mo == secteurs_v(m@) * 512 / 1_048_576,
{
    let modele = chaine_ata(m, 27, 20);
    let serie = chaine_ata(m, 10, 10);
    let secteurs = secteurs_identification(m);
    let taille_mo = (secteurs * 512) / (1024 * 1024);
    InfosDisque { modele, serie, secteurs, taille_mo }
}

/// Cadre affiché pour le disque du port 0.
pub open spec fn lignes_disque_v(modele: Seq<char>, serie: Seq<char>, secteurs: nat, taille_mo: nat) -> Seq<Seq<char>> {
    seq![
        "       ┌── Disque SATA Port 0 ────────────────────────┐"@,
        "       │ Modèle    : "@ + a_gauche(modele, 33) + "│"@,
        "       │ Série     : "@ + a_gauche(serie, 33) + "│"@,
        "       │ Capacité  : "@ + decimal(taille_mo) + " Mo ("@ + decimal(secteurs) + " secteurs LBA)  │"@,
        "       └──────────────────────────────────────────────┘"@,
    ]
}

/// Lignes qui décrivent le disque.
pub fn lignes_disque(infos: &InfosDisque) -> (r: Vec<String>)
    ensures
        vue_mots(r@) == lignes_disque_v(
            infos.modele@,
            infos.serie@,
            infos.secteurs as nat,
            infos.taille_mo as nat,
        ),
{
    let mut r: Vec<String> = Vec::new();
    r.push(vers_chaine("       ┌── Disque SATA Port 0 ────────────────────────┐"));
    let mut l1 = vers_chaine("       │ Modèle    : ");
    pousser_a_gauche(&mut l1, &infos.modele, 33);
    pousser_texte(&mut l1, "│");
    r.push(l1);
    let mut l2 = vers_chaine("       │ Série     : ");
    pousser_a_gauche(&mut l2, &infos.serie, 33);
    pousser_texte(&mut l2, "│");
    r.push(l2);
    let mut l3 = vers_chaine("       │ Capacité  : ");
    pousser_decimal(&mut l3, infos.taille_mo);
    pousser_texte(&mut l3, " Mo (");
    pousser_decimal(&mut l3, infos.secteurs);
    pousser_texte(&mut l3, " secteurs LBA)  │");
    r.push(l3);
    r.push(vers_chaine("       └──────────────────────────────────────────────┘"));
    assert(vue_mots(r@) =~= lignes_disque_v(
        infos.modele@,
        infos.serie@,
        infos.secteurs as nat,
        infos.taille_mo as nat,
    ));
    r
}

/// Lignes affichées quand un contrôleur AHCI est trouvé à l'emplacement `slot` du bus `bus`.
pub open spec fn lignes_detection_v(bus: u8, slot: u8, id: u32) -> Seq<Seq<char>> {
    seq![
        "[AHCI] Contrôleur détecté sur PCI "@ + hex(bus as nat, 2) + ":"@ + hex(slot as nat, 2) + ".0"@,
        "       Identifiants : Vendor 0x"@ + hex((id % 0x1_0000) as nat, 4) + ", Device 0x"@ + hex(
            (id / 0x1_0000) as nat,
            4,
        ),
    ]
}

/// Lignes qui annoncent le contrôleur trouvé, d'après le registre 0 de sa fonction (fabricant
/// et modèle).
pub fn lignes_detection(bus: u8, slot: u8, id: u32) -> (r: Vec<String>)
    ensures
        vue_mots(r@) == lignes_detection_v(bus, slot, id),
{
    let vendor = id & 0xFFFF;
    let device = (id >> 16) & 0xFFFF;
    assert(vendor == id % 0x1_0000 && device == id / 0x1_0000) by (bit_vector)
        requires
            vendor == id & 0xFFFFu32,
            device == (id >> 16u32) & 0xFFFFu32,
    ;
    let mut l1 = vers_chaine("[AHCI] Contrôleur détecté sur PCI ");
    pousser_hex(&mut l1, bus as u64, 2);
    pousser_texte(&mut l1, ":");
    pousser_hex(&mut l1, slot as u64, 2);
    pousser_texte(&mut l1, ".0");
    let mut l2 = vers_chaine("       Identifiants : Vendor 0x");
    pousser_hex(&mut l2, vendor as u64, 4);
    pousser_texte(&mut l2, ", Device 0x");
    pousser_hex(&mut l2, device as u64, 4);
    let mut r: Vec<String> = Vec::new();
    r.push(l1);
    r.push(l2);
    assert(vue_mots(r@) =~= lignes_detection_v(bus, slot, id));
    r
}

/// Le FIS d'un transfert porte son LBA : les octets 4, 5, 6, 8, 9 et 10, du poids faible au
/// poids fort, redonnent tout LBA de 48 bits.
pub proof fn loi_fis_lba(lba: u64, est_ecriture: bool)
    requires
        lba < 0x1_0000_0000_0000,
    ensures
        ({
            let f = fis_commande_v(lba, est_ecriture);
            f[4] + 0x100 * f[5] + 0x1_0000 * f[6] + 0x100_0000 * f[8] + 0x1_0000_0000 * f[9] + 0x100_0000_0000
                * f[10] == lba
        }),
{
    assert(lba < 0x1_0000_0000_0000 ==> lba % 0x100 + 0x100 * ((lba / 0x100) % 0x100) + 0x1_0000 * ((lba / 0x1_0000)
        % 0x100) + 0x100_0000 * ((lba / 0x100_0000) % 0x100) + 0x1_0000_0000 * ((lba / 0x1_0000_0000) % 0x100)
        + 0x100_0000_0000 * ((lba / 0x100_0000_0000) % 0x100) == lba) by (bit_vector);
}

} // verus!
