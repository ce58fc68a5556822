use vstd::prelude::*;
use std::vec::Vec;
use crate::octets::{le32, val16, val32};
use crate::pci::{PeripheriquePci, est_e1000, trouver_e1000};

verus! {

// Registres MMIO de la carte (décalages depuis BAR0).
pub const REG_STATUS: u32 = 0x0008;
pub const REG_RCTL: u32 = 0x0100;
pub const REG_RDBAL: u32 = 0x2800;
pub const REG_RDBAH: u32 = 0x2804;
pub const REG_RDLEN: u32 = 0x2808;
pub const REG_RDH: u32 = 0x2810;
pub const REG_RDT: u32 = 0x2818;
pub const REG_TCTL: u32 = 0x0400;
pub const REG_TDBAL: u32 = 0x3800;
pub const REG_TDBAH: u32 = 0x3804;
pub const REG_TDLEN: u32 = 0x3808;
pub const REG_TDH: u32 = 0x3810;
pub const REG_TDT: u32 = 0x3818;
pub const REG_RAL: u32 = 0x5400;
pub const REG_RAH: u32 = 0x5404;
pub const REG_GPRC: u32 = 0x4074;
pub const REG_GPTC: u32 = 0x4080;

/// Commande d'un descripteur d'émission : fin de paquet, insertion du CRC, compte rendu.
pub const TX_CMD: u8 = 0x0B;

pub const NB_DESCRIPTEURS_RX: usize = 32;
pub const NB_DESCRIPTEURS_TX: usize = 16;
pub const TAILLE_TAMPON: usize = 2048;

/// Taille en octets d'un descripteur (16 octets, alignés).
pub const TAILLE_DESCRIPTEUR: u32 = 16;

/// Descripteur de réception tel que la carte le lit et l'écrit.
#[derive(Clone, Copy, Debug, PartialEq, Eq, Structural)]
pub struct DescripteurRx {
    pub adresse_tampon: u64,
    pub longueur: u16,
    pub checksum: u16,
    pub statut: u8,
    pub erreurs: u8,
    pub special: u16,
}

/// Descripteur d'émission tel que la carte le lit et l'écrit.
#[derive(Clone, Copy, Debug, PartialEq, Eq, Structural)]
pub struct DescripteurTx {
    pub adresse_tampon: u64,
    pub longueur: u16,
    pub cso: u8,
    pub cmd: u8,
    pub statut: u8,
    pub css: u8,
    pub special: u16,
}

/// Trame reçue par la carte.
pub struct PaquetRecu {
    pub donnees: Vec<u8>,
}

/// Adresse MAC lue dans RAL (quatre premiers octets) et RAH (deux derniers).
pub open spec fn mac_v(ral: u32, rah: u32) -> Seq<u8> {
    le32(ral) + seq![(rah % 256) as u8, ((rah / 256) % 256) as u8]
}

/// Le bit 1 du registre STATUS signale une liaison établie.
pub open spec fn lien_v(statut: u32) -> bool {
    (statut / 2) % 2 == 1
}

/// Le bit 0 du statut d'un descripteur signale qu'il a été traité par la carte.
pub open spec fn descripteur_fait(statut: u8) -> bool {
    statut % 2 == 1
}

/// Valeur de RCTL : réception activée, trames erronées, monodiffusion et multidiffusion
/// acceptées, diffusion acceptée, tampons de 2048 octets, CRC retiré.
pub open spec fn conf_rctl_v() -> u32 {
    0x0400_801E
}

/// Valeur de TCTL : émission activée, remplissage des trames courtes, seuil de collision 15,
/// distance de collision 64.
pub open spec fn conf_tctl_v() -> u32 {
    0x0004_00FA
}

/// Écritures de registres qui arment l'anneau de réception dont les descripteurs sont à l'adresse
/// physique `phys`.
pub open spec fn plan_rx_v(phys: u64) -> Seq<(u32, u32)> {
    seq![
        (REG_RDBAL, (phys % 0x1_0000_0000) as u32),
        (REG_RDBAH, (phys / 0x1_0000_0000) as u32),
        (REG_RDLEN, 512u32),
        (REG_RDH, 0u32),
        (REG_RDT, 31u32),
        (REG_RCTL, conf_rctl_v()),
    ]
}

/// Écritures de registres qui arment l'anneau d'émission dont les descripteurs sont à l'adresse
/// physique `phys`.
pub open spec fn plan_tx_v(phys: u64) -> Seq<(u32, u32)> {
    seq![
        (REG_TDBAL, (phys % 0x1_0000_0000) as u32),
        (REG_TDBAH, (phys / 0x1_0000_0000) as u32),
        (REG_TDLEN, 256u32),
        (REG_TDH, 0u32),
        (REG_TDT, 0u32),
        (REG_TCTL, conf_tctl_v()),
    ]
}

/// Toutes les adresses physiques des tampons ont pu être obtenues.
pub open spec fn toutes_traduites(t: Seq<Option<u64>>) -> bool {
    forall|i: int| 0 <= i < t.len() ==> (#[trigger] t[i]) is Some
}

/// Descripteur de réception initial d'un tampon.
pub open spec fn descripteur_rx_initial(adresse: u64) -> DescripteurRx {
    DescripteurRx { adresse_tampon: adresse, longueur: 0, checksum: 0, statut: 0, erreurs: 0, special: 0 }
}

/// Descripteur d'émission initial d'un tampon : libre (statut 1), sans commande.
pub open spec fn descripteur_tx_initial(adresse: u64) -> DescripteurTx {
    DescripteurTx { adresse_tampon: adresse, longueur: 0, cso: 0, cmd: 0, statut: 1, css: 0, special: 0 }
}

fn mac_depuis_registres(ral: u32, rah: u32) -> (r: [u8; 6])
    ensures
        r@ == mac_v(ral, rah),
{
    let m0 = (ral & 0xFF) as u8;
    let m1 = ((ral >> 8) & 0xFF) as u8;
    let m2 = ((ral >> 16) & 0xFF) as u8;
    let m3 = ((ral >> 24) & 0xFF) as u8;
    let m4 = (rah & 0xFF) as u8;
    let m5 = ((rah >> 8) & 0xFF) as u8;
    assert(ral & 0xFF == ral % 256 && (ral >> 8) & 0xFF == (ral / 256) % 256 && (ral >> 16) & 0xFF
        == (ral / 65536) % 256 && (ral >> 24) & 0xFF == ral / 16777216) by (bit_vector);
    assert(rah & 0xFF == rah % 256 && (rah >> 8) & 0xFF == (rah / 256) % 256) by (bit_vector);
    let r = [m0, m1, m2, m3, m4, m5];
    assert(r@ =~= mac_v(ral, rah));
    r
}

fn lien_depuis_statut(statut: u32) -> (r: bool)
    ensures
        r == lien_v(statut),
{
    assert((statut & 2 != 0) == ((statut / 2) % 2 == 1)) by (bit_vector);
    (statut & 2) != 0
}

fn bas_haut(phys: u64) -> (r: (u32, u32))
    ensures
        r.0 == phys % 0x1_0000_0000,
        r.1 == phys / 0x1_0000_0000,
{
    assert(phys & 0xFFFF_FFFF == phys % 0x1_0000_0000 && phys >> 32 == phys / 0x1_0000_0000) by (bit_vector);
    ((phys & 0xFFFF_FFFF) as u32, (phys >> 32) as u32)
}

/// Valeur de RCTL, assemblée à partir de ses bits.
pub fn conf_rctl() -> (r: u32)
    ensures
        r == conf_rctl_v(),
{
    let en: u32 = 1 << 1;
    let sbp: u32 = 1 << 2;
    let upe: u32 = 1 << 3;
    let mpe: u32 = 1 << 4;
    let bam: u32 = 1 << 15;
    let bsize_2048: u32 = 0 << 16;
    let secrc: u32 = 1 << 26;
    let r = en | sbp | upe | mpe | bam | bsize_2048 | secrc;
    assert(r == 0x0400_801Eu32) by (bit_vector)
        requires
            en == 1u32 << 1u32,
            sbp == 1u32 << 2u32,
            upe == 1u32 << 3u32,
            mpe == 1u32 << 4u32,
            bam == 1u32 << 15u32,
            bsize_2048 == 0u32 << 16u32,
            secrc == 1u32 << 26u32,
            r == en | sbp | upe | mpe | bam | bsize_2048 | secrc,
    ;
    r
}

/// Valeur de TCTL, assemblée à partir de ses champs.
pub fn conf_tctl() -> (r: u32)
    ensures
        r == conf_tctl_v(),
{
    let en: u32 = 1 << 1;
    let psp: u32 = 1 << 3;
    let ct: u32 = 15 << 4;
    let cold: u32 = 64 << 12;
    let r = en | psp | ct | cold;
    assert(r == 0x0004_00FAu32) by (bit_vector)
        requires
            en == 1u32 << 1u32,
            psp == 1u32 << 3u32,
            ct == 15u32 << 4u32,
            cold == 64u32 << 12u32,
            r == en | psp | ct | cold,
    ;
    r
}

/// Prépare l'anneau de réception : un descripteur par tampon, pointant sur l'adresse physique
/// du tampon, et les écritures de registres qui le donnent à la carte. Échoue si l'adresse
/// physique d'un tampon ou de l'anneau manque.
pub fn initialiser_rx(traductions: &Vec<Option<u64>>, anneau: Option<u64>) -> (r: Option<(Vec<DescripteurRx>, Vec<(u32, u32)>)>)
    ensures
        r is Some <==> toutes_traduites(traductions@) && anneau is Some,
        r matches Some((d, w)) ==> {
            &&& d@.len() == traductions@.len()
            &&& forall|i: int| 0 <= i < d@.len() ==> #[trigger] d@[i] == descripteur_rx_initial(traductions@[i]->0)
            &&& w@ == plan_rx_v(anneau->0)
        },
{
    let mut d: Vec<DescripteurRx> = Vec::new();
    let mut i: usize = 0;
    while i < traductions.len()
        invariant
            i <= traductions@.len(),
            d@.len() == i,
            forall|j: int| 0 <= j < i ==> (#[trigger] traductions@[j]) is Some,
            forall|j: int| 0 <= j < i ==> #[trigger] d@[j] == descripteur_rx_initial(traductions@[j]->0),
        decreases traductions@.len() - i,
    {
        match traductions[i] {
            Some(p) => {
                d.push(DescripteurRx { adresse_tampon: p, longueur: 0, checksum: 0, statut: 0, erreurs: 0, special: 0 });
            },
            None => {
                return None;
            },
        }
        i = i + 1;
    }
    let phys = match anneau {
        Some(p) => p,
        None => {
            return None;
        },
    };
    let (bas, haut) = bas_haut(phys);
    let taille: u32 = 32 * TAILLE_DESCRIPTEUR;
    let mut w: Vec<(u32, u32)> = Vec::new();
    w.push((REG_RDBAL, bas));
    w.push((REG_RDBAH, haut));
    w.push((REG_RDLEN, taille));
    w.push((REG_RDH, 0));
    w.push((REG_RDT, 31));
    w.push((REG_RCTL, conf_rctl()));
    assert(w@ =~= plan_rx_v(phys));
    Some((d, w))
}

/// Prépare l'anneau d'émission : un descripteur libre par tampon, et les écritures de
/// registres qui le donnent à la carte. Échoue si l'adresse physique d'un tampon ou de l'anneau
/// manque.
pub fn initialiser_tx(traductions: &Vec<Option<u64>>, anneau: Option<u64>) -> (r: Option<(Vec<DescripteurTx>, Vec<(u32, u32)>)>)
    ensures
        r is Some <==> toutes_traduites(traductions@) && anneau is Some,
        r matches Some((d, w)) ==> {
            &&& d@.len() == traductions@.len()
            &&& forall|i: int| 0 <= i < d@.len() ==> #[trigger] d@[i] == descripteur_tx_initial(traductions@[i]->0)
            &&& w@ == plan_tx_v(anneau->0)
        },
{
    let mut d: Vec<DescripteurTx> = Vec::new();
    let mut i: usize = 0;
    while i < traductions.len()
        invariant
            i <= traductions@.len(),
            d@.len() == i,
            forall|j: int| 0 <= j < i ==> (#[trigger] traductions@[j]) is Some,
            forall|j: int| 0 <= j < i ==> #[trigger] d@[j] == descripteur_tx_initial(traductions@[j]->0),
        decreases traductions@.len() - i,
    {
        match traductions[i] {
            Some(p) => {
                d.push(DescripteurTx { adresse_tampon: p, longueur: 0, cso: 0, cmd: 0, statut: 1, css: 0, special: 0 });
            },
            None => {
                return None;
            },
        }
        i = i + 1;
    }
    let phys = match anneau {
        Some(p) => p,
        None => {
            return None;
        },
    };
    let (bas, haut) = bas_haut(phys);
    let taille: u32 = 16 * TAILLE_DESCRIPTEUR;
    let mut w: Vec<(u32, u32)> = Vec::new();
    w.push((REG_TDBAL, bas));
    w.push((REG_TDBAH, haut));
    w.push((REG_TDLEN, taille));
    w.push((REG_TDH, 0));
    w.push((REG_TDT, 0));
    w.push((REG_TCTL, conf_tctl()));
    assert(w@ =~= plan_tx_v(phys));
    Some((d, w))
}

/// État du pilote d'une carte e1000 : adresse MAC, liaison, et position dans chaque anneau.
pub struct CarteE1000 {
    pub base_virtuelle: usize,
    pub mac: [u8; 6],
    pub lien_actif: bool,
    pub index_rx: usize,
    pub index_tx: usize,
}

impl CarteE1000 {
    /// Adresse virtuelle des registres de la carte.
    pub open spec fn base(&self) -> nat {
        self.base_virtuelle as nat
    }

    /// Prochain descripteur de réception à examiner.
    pub open spec fn rx(&self) -> nat {
        self.index_rx as nat
    }

    /// Prochain descripteur d'émission à remplir.
    pub open spec fn tx(&self) -> nat {
        self.index_tx as nat
    }

    /// Les positions restent dans leurs anneaux.
    pub open spec fn bien_formee(&self) -> bool {
        self.rx() < NB_DESCRIPTEURS_RX && self.tx() < NB_DESCRIPTEURS_TX
    }

    /// Pilote d'une carte dont les registres commencent à `base_virtuelle`, d'après les registres
    /// RAL, RAH et STATUS lus sur la carte ; les deux anneaux commencent à leur premier
    /// descripteur.
    pub fn new(base_virtuelle: usize, ral: u32, rah: u32, statut: u32) -> (r: Self)
        ensures
            r.bien_formee(),
            r.base() == base_virtuelle,
            r.mac@ == mac_v(ral, rah),
            r.lien_actif == lien_v(statut),
            r.rx() == 0,
            r.tx() == 0,
    {
        CarteE1000 {
            base_virtuelle,
            mac: mac_depuis_registres(ral, rah),
            lien_actif: lien_depuis_statut(statut),
            index_rx: 0,
            index_tx: 0,
        }
    }

    /// Relit l'adresse MAC dans les registres RAL et RAH.
    pub fn lire_adresse_mac(&mut self, ral: u32, rah: u32)
        ensures
            final(self).mac@ == mac_v(ral, rah),
            final(self).lien_actif == old(self).lien_actif,
            final(self).base() == old(self).base(),
            final(self).rx() == old(self).rx(),
            final(self).tx() == old(self).tx(),
    {
        self.mac = mac_depuis_registres(ral, rah);
    }

    /// Met à jour l'état de la liaison d'après le registre STATUS, lu par `lire`.
    pub fn rafraichir_statut<F: Fn(u32) -> u32>(&mut self, lire: F)
        requires
            forall|x: u32| lire.requires((x,)),
        ensures
            exists|v: u32| lire.ensures((REG_STATUS,), v) && final(self).lien_actif == lien_v(v),
            final(self).mac == old(self).mac,
            final(self).base() == old(self).base(),
            final(self).rx() == old(self).rx(),
            final(self).tx() == old(self).tx(),
    {
        let statut = lire(REG_STATUS);
        self.lien_actif = lien_depuis_statut(statut);
    }

    /// Examine le descripteur de réception courant, de statut `statut` et de longueur
    /// `longueur`, dont le tampon est `tampon`. S'il a été rempli par la carte, en rend la trame
    /// et passe au descripteur suivant ; l'appelant rend alors le descripteur à la carte (RDT).
    pub fn intercepter_trame(&mut self, statut: u8, longueur: u16, tampon: &[u8]) -> (r: Option<PaquetRecu>)
        requires
            old(self).bien_formee(),
            descripteur_fait(statut) ==> longueur <= tampon@.len(),
        ensures
            reception(*old(self), *final(self), statut, longueur, tampon@, r),
    {
        if statut & 1 == 0 {
            assert(!descripteur_fait(statut)) by {
                lemme_bit_fait(statut);
            }
            return None;
        }
        assert(descripteur_fait(statut)) by {
            lemme_bit_fait(statut);
        }
        let n = longueur as usize;
        let mut donnees: Vec<u8> = Vec::new();
        let mut i: usize = 0;
        while i < n
            invariant
                n <= tampon@.len(),
                i <= n,
                donnees@ == tampon@.take(i as int),
            decreases n - i,
        {
            donnees.push(tampon[i]);
            i = i + 1;
            assert(donnees@ =~= tampon@.take(i as int));
        }
        self.index_rx = (self.index_rx + 1) % NB_DESCRIPTEURS_RX;
        Some(PaquetRecu { donnees })
    }

    /// Prépare l'émission de `trame` dans le descripteur d'émission courant, de statut `statut`.
    /// Refuse une trame plus longue qu'un tampon, ou un descripteur que la carte n'a pas encore
    /// rendu ; sinon passe au descripteur suivant, que l'appelant écrit dans TDT après avoir
    /// copié la trame et armé le descripteur.
    pub fn emettre_trame(&mut self, trame: &[u8], statut: u8) -> (r: bool)
        requires
            old(self).bien_formee(),
        ensures
            emission(*old(self), *final(self), trame@.len(), statut, r),
    {
        if trame.len() > TAILLE_TAMPON {
            return false;
        }
        if statut & 1 == 0 {
            assert(!descripteur_fait(statut)) by {
                lemme_bit_fait(statut);
            }
            return false;
        }
        assert(descripteur_fait(statut)) by {
            lemme_bit_fait(statut);
        }
        self.index_tx = (self.index_tx + 1) % NB_DESCRIPTEURS_TX;
        true
    }

    /// Compteurs de la carte, lus par `lire` : tête et queue de l'anneau d'émission, trames
    /// émises, tête et queue de l'anneau de réception, trames reçues.
    pub fn relever_telemetrie<F: Fn(u32) -> u32>(&self, lire: F) -> (r: (u32, u32, u32, u32, u32, u32))
        requires
            forall|x: u32| lire.requires((x,)),
        ensures
            telemetrie(lire, r),
    {
        let tdh = lire(REG_TDH);
        let tdt = lire(REG_TDT);
        let gptc = lire(REG_GPTC);
        let rdh = lire(REG_RDH);
        let rdt = lire(REG_RDT);
        let gprc = lire(REG_GPRC);
        (tdh, tdt, gptc, rdh, rdt, gprc)
    }
}

/// Ce que `lire` a rendu pour chacun des six compteurs, dans l'ordre.
pub open spec fn telemetrie<F: Fn(u32) -> u32>(lire: F, r: (u32, u32, u32, u32, u32, u32)) -> bool {
    &&& lire.ensures((REG_TDH,), r.0)
    &&& lire.ensures((REG_TDT,), r.1)
    &&& lire.ensures((REG_GPTC,), r.2)
    &&& lire.ensures((REG_RDH,), r.3)
    &&& lire.ensures((REG_RDT,), r.4)
    &&& lire.ensures((REG_GPRC,), r.5)
}

/// Effet de l'examen d'un descripteur de réception.
pub open spec fn reception(avant: CarteE1000, apres: CarteE1000, statut: u8, longueur: u16, tampon: Seq<u8>, r: Option<PaquetRecu>) -> bool {
    if descripteur_fait(statut) {
        &&& r matches Some(p) && p.donnees@ == tampon.take(longueur as int)
        &&& apres.rx() == (avant.rx() + 1) % (NB_DESCRIPTEURS_RX as nat)
        &&& apres.tx() == avant.tx()
        &&& apres.mac == avant.mac
        &&& apres.lien_actif == avant.lien_actif
        &&& apres.base() == avant.base()
        &&& apres.bien_formee()
    } else {
        r is None && apres == avant
    }
}

/// Effet d'une demande d'émission d'une trame de `taille` octets.
pub open spec fn emission(avant: CarteE1000, apres: CarteE1000, taille: nat, statut: u8, r: bool) -> bool {
    &&& r == (taille <= TAILLE_TAMPON && descripteur_fait(statut))
    &&& r ==> {
        &&& apres.tx() == (avant.tx() + 1) % (NB_DESCRIPTEURS_TX as nat)
        &&& apres.rx() == avant.rx()
        &&& apres.mac == avant.mac
        &&& apres.lien_actif == avant.lien_actif
        &&& apres.base() == avant.base()
        &&& apres.bien_formee()
    }
    &&& !r ==> apres == avant
}

/// Le pilote, s'il y en a un, est bien formé.
pub open spec fn pilote_valide(pilote: Option<CarteE1000>) -> bool {
    pilote matches Some(c) ==> c.bien_formee()
}

/// Examine le descripteur de réception courant du pilote, s'il y a une carte.
pub fn scruter(pilote: &mut Option<CarteE1000>, statut: u8, longueur: u16, tampon: &[u8]) -> (r: Option<PaquetRecu>)
    requires
        pilote_valide(*old(pilote)),
        descripteur_fait(statut) ==> longueur <= tampon@.len(),
    ensures
        *old(pilote) is None ==> r is None && *final(pilote) is None,
        *old(pilote) matches Some(c) ==> (*final(pilote) matches Some(c2) && reception(c, c2, statut, longueur, tampon@, r)),
{
    match pilote.take() {
        Some(mut c) => {
            let r = c.intercepter_trame(statut, longueur, tampon);
            *pilote = Some(c);
            r
        },
        None => None,
    }
}

/// Demande l'émission d'une trame au pilote ; faux s'il n'y a pas de carte.
pub fn envoyer(pilote: &mut Option<CarteE1000>, trame: &[u8], statut: u8) -> (r: bool)
    requires
        pilote_valide(*old(pilote)),
    ensures
        *old(pilote) is None ==> !r && *final(pilote) is None,
        *old(pilote) matches Some(c) ==> (*final(pilote) matches Some(c2) && emission(c, c2, trame@.len(), statut, r)),
{
    match pilote.take() {
        Some(mut c) => {
            let r = c.emettre_trame(trame, statut);
            *pilote = Some(c);
            r
        },
        None => false,
    }
}

/// Adresse MAC de la carte, ou six zéros s'il n'y en a pas.
pub fn adresse_mac(pilote: &Option<CarteE1000>) -> (r: [u8; 6])
    ensures
        pilote matches Some(c) ==> r@ == c.mac@,
        pilote is None ==> r@ == seq![0u8, 0u8, 0u8, 0u8, 0u8, 0u8],
{
    match pilote {
        Some(c) => c.mac,
        None => {
            let r = [0u8; 6];
            assert(r@ =~= seq![0u8, 0u8, 0u8, 0u8, 0u8, 0u8]);
            r
        },
    }
}

/// Compteurs de la carte, ou six zéros s'il n'y en a pas.
pub fn diagnostique<F: Fn(u32) -> u32>(pilote: &Option<CarteE1000>, lire: F) -> (r: (u32, u32, u32, u32, u32, u32))
    requires
        forall|x: u32| lire.requires((x,)),
    ensures
        pilote is Some ==> telemetrie(lire, r),
        pilote is None ==> r == (0u32, 0u32, 0u32, 0u32, 0u32, 0u32),
{
    match pilote {
        Some(c) => c.relever_telemetrie(lire),
        None => (0, 0, 0, 0, 0, 0),
    }
}

/// Adresse physique des registres d'après BAR0, dont les quatre bits bas sont des drapeaux.
pub open spec fn base_mmio_v(bar0: u32) -> nat {
    (bar0 - bar0 % 16) as nat
}

/// Recherche la première carte e1000 parmi les périphériques relevés, et l'adresse virtuelle de
/// ses registres, la mémoire physique étant projetée à partir de `offset`. L'appelant active
/// ensuite le bus master de la carte et crée son pilote.
pub fn initialiser(peripheriques: &Vec<PeripheriquePci>, offset: u64) -> (r: Option<(PeripheriquePci, u64)>)
    requires
        offset <= u64::MAX - 0xFFFF_FFFF,
    ensures
        r is None <==> forall|i: int| 0 <= i < peripheriques@.len() ==> !est_e1000(#[trigger] peripheriques@[i]),
        r matches Some((p, v)) ==> {
            &&& v == base_mmio_v(p.bar0) + offset
            &&& exists|i: int|
                0 <= i < peripheriques@.len() && #[trigger] peripheriques@[i] == p && est_e1000(p) && forall|j: int|
                    0 <= j < i ==> !est_e1000(#[trigger] peripheriques@[j])
        },
{
    match trouver_e1000(peripheriques) {
        Some(p) => {
            let b = p.bar0;
            let masque = b & !0x0Fu32;
            assert(masque == b - b % 16) by (bit_vector)
                requires
                    masque == b & !0x0Fu32,
            ;
            let v = masque as u64 + offset;
            Some((p, v))
        },
        None => None,
    }
}

/// L'adresse MAC lue sur la carte redonne ses registres : ses quatre premiers octets, lus en
/// petit-boutiste, forment RAL, et les deux derniers les 16 bits bas de RAH.
pub proof fn loi_mac_registres(ral: u32, rah: u32)
    ensures
        mac_v(ral, rah).len() == 6,
        val32(mac_v(ral, rah)[0], mac_v(ral, rah)[1], mac_v(ral, rah)[2], mac_v(ral, rah)[3]) == ral,
        val16(mac_v(ral, rah)[4], mac_v(ral, rah)[5]) == rah % 0x1_0000,
{
    crate::octets::lemme_le32(ral);
}

/// Le bit DD d'un statut de descripteur est son bit de poids faible.
proof fn lemme_bit_fait(statut: u8)
    ensures
        (statut & 1 == 0) == (statut % 2 == 0),
        (statut & 1 != 0) == (statut % 2 == 1),
{
    assert((statut & 1 == 0) == (statut % 2 == 0) && (statut & 1 != 0) == (statut % 2 == 1)) by (bit_vector);
}

/// La réception est armée en mode promiscuité : RCTL active la réception (bit 1) et accepte toutes
/// les trames monodiffusion (UPE, bit 3) et multidiffusion (MPE, bit 4), sans retenir le CRC (bit 26).
pub proof fn loi_mode_promiscuite()
    ensures
        conf_rctl_v() & 0x2 != 0,
        conf_rctl_v() & 0x8 != 0,
        conf_rctl_v() & 0x10 != 0,
        conf_rctl_v() & 0x0400_0000 != 0,
{
    assert(0x0400_801Eu32 & 0x2 != 0 && 0x0400_801Eu32 & 0x8 != 0 && 0x0400_801Eu32 & 0x10 != 0 && 0x0400_801Eu32
        & 0x0400_0000 != 0) by (bit_vector);
}

} // verus!
