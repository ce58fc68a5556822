use vstd::prelude::*;
use std::vec::Vec;
use std::string::String;
use crate::texte::{decimal, hex, pousser_decimal, pousser_hex, pousser_texte, vers_chaine, vue_mots};

verus! {

/// Fabricant Intel.
pub const INTEL_VENDOR_ID: u16 = 0x8086;

/// Carte réseau Intel e1000 (82540EM).
pub const E1000_DEV_ID: u16 = 0x100E;

/// Périphérique relevé sur le bus PCI.
#[derive(Debug, Clone, Copy, PartialEq, Eq, Structural)]
pub struct PeripheriquePci {
    pub bus: u8,
    pub slot: u8,
    pub fonction: u8,
    pub vendor_id: u16,
    pub device_id: u16,
    pub classe: u8,
    pub sous_classe: u8,
    pub bar0: u32,
    pub irq: u8,
}

/// Type d'un périphérique d'après sa classe et sa sous-classe.
pub open spec fn description_v(classe: u8, sous_classe: u8) -> Seq<char> {
    if classe == 0x02 && sous_classe == 0x00 {
        "Contrôleur Ethernet"@
    } else if classe == 0x03 && sous_classe == 0x00 {
        "Contrôleur VGA compatible"@
    } else if classe == 0x06 && sous_classe == 0x00 {
        "Pont Host/PCI"@
    } else if classe == 0x06 && sous_classe == 0x01 {
        "Pont PCI/ISA"@
    } else if classe == 0x01 && sous_classe == 0x01 {
        "Contrôleur IDE/Stockage"@
    } else {
        "Périphérique générique"@
    }
}

impl PeripheriquePci {
    /// Type du périphérique.
    pub fn description(&self) -> (r: &'static str)
        ensures
            r@ == description_v(self.classe, self.sous_classe),
    {
        if self.classe == 0x02 && self.sous_classe == 0x00 {
            "Contrôleur Ethernet"
        } else if self.classe == 0x03 && self.sous_classe == 0x00 {
            "Contrôleur VGA compatible"
        } else if self.classe == 0x06 && self.sous_classe == 0x00 {
            "Pont Host/PCI"
        } else if self.classe == 0x06 && self.sous_classe == 0x01 {
            "Pont PCI/ISA"
        } else if self.classe == 0x01 && self.sous_classe == 0x01 {
            "Contrôleur IDE/Stockage"
        } else {
            "Périphérique générique"
        }
    }
}

/// Adresse écrite dans CONFIG_ADDRESS (0xCF8) pour lire le registre `decalage` d'une fonction :
/// bit d'activation, bus, emplacement, fonction, et décalage aligné sur 4 octets.
pub fn adresse_config(bus: u8, slot: u8, fonction: u8, decalage: u8) -> (r: u32)
    ensures
        r == (0x8000_0000u32 | ((bus as u32) << 16u32) | ((slot as u32) << 11u32) | ((fonction as u32)
            << 8u32) | ((decalage as u32) & 0xFCu32)),
{
    0x8000_0000u32 | ((bus as u32) << 16u32) | ((slot as u32) << 11u32) | ((fonction as u32) << 8u32) | ((
    decalage as u32) & 0xFCu32)
}

/// Mot de 16 bits au décalage `decalage` dans le mot de configuration de 32 bits qui le contient :
/// la moitié basse pour un décalage multiple de 4, la moitié haute sinon.
pub open spec fn mot16_v(mot32: u32, decalage: u8) -> u16 {
    if decalage % 4 < 2 {
        (mot32 % 65536) as u16
    } else {
        (mot32 / 65536) as u16
    }
}

/// Mot de 16 bits lu au décalage `decalage`, extrait du mot de 32 bits lu dans CONFIG_DATA.
pub fn lire_config_u16(mot32: u32, decalage: u8) -> (r: u16)
    ensures
        r == mot16_v(mot32, decalage),
{
    let d = decalage & 2;
    assert(d == 0 || d == 2) by (bit_vector)
        requires
            d == decalage & 2,
    ;
    let r = ((mot32 >> ((d as u32) * 8)) & 0xFFFF) as u16;
    assert(d == 0 <==> decalage % 4 < 2) by (bit_vector)
        requires
            d == decalage & 2,
    ;
    assert(d == 0 ==> r == (mot32 % 65536) as u16) by (bit_vector)
        requires
            r == ((mot32 >> ((d as u32) * 8)) & 0xFFFF) as u16,
    ;
    assert(d == 2 ==> r == (mot32 / 65536) as u16) by (bit_vector)
        requires
            r == ((mot32 >> ((d as u32) * 8)) & 0xFFFF) as u16,
    ;
    assert(d == 0 || d == 2) by (bit_vector)
        requires
            d == decalage & 2,
    ;
    r
}

/// Mot de 32 bits à écrire pour remplacer le mot de 16 bits au décalage `decalage` par `valeur`,
/// l'autre moitié de `ancien` restant telle quelle.
pub open spec fn fusion16_v(ancien: u32, decalage: u8, valeur: u16) -> u32 {
    if decalage % 4 < 2 {
        ((ancien / 65536) * 65536 + valeur) as u32
    } else {
        (valeur * 65536 + ancien % 65536) as u32
    }
}

/// Mot de 32 bits à écrire dans CONFIG_DATA pour écrire `valeur` sur 16 bits au décalage
/// `decalage`, sans altérer les octets voisins lus dans `ancien`.
pub fn ecrire_config_u16(ancien: u32, decalage: u8, valeur: u16) -> (r: u32)
    ensures
        r == fusion16_v(ancien, decalage, valeur),
{
    let d = decalage & 2;
    assert(d == 0 || d == 2) by (bit_vector)
        requires
            d == decalage & 2,
    ;
    let decal = (d as u32) * 8;
    let masque = !(0xFFFFu32 << decal);
    let r = (ancien & masque) | ((valeur as u32) << decal);
    assert(d == 0 <==> decalage % 4 < 2) by (bit_vector)
        requires
            d == decalage & 2,
    ;
    assert(d == 0 || d == 2) by (bit_vector)
        requires
            d == decalage & 2,
    ;
    assert(d == 0 ==> r == ((ancien / 65536) * 65536 + valeur) as u32) by (bit_vector)
        requires
            decal == (d as u32) * 8,
            masque == !(0xFFFFu32 << decal),
            r == (ancien & masque) | ((valeur as u32) << decal),
    ;
    assert(d == 2 ==> r == (valeur * 65536 + ancien % 65536) as u32) by (bit_vector)
        requires
            decal == (d as u32) * 8,
            masque == !(0xFFFFu32 << decal),
            r == (ancien & masque) | ((valeur as u32) << decal),
    ;
    r
}

/// Registre de commande avec l'accès mémoire (bit 1) et la maîtrise du bus (bit 2) activés.
pub fn activer_bus_master_et_memoire(commande: u16) -> (r: u16)
    ensures
        r == commande | 0x0006,
        r & 0x0006 == 0x0006,
        r & !0x0006u16 == commande & !0x0006u16,
{
    let r = commande | 0x0006;
    assert(r & 0x0006 == 0x0006 && r & !0x0006u16 == commande & !0x0006u16) by (bit_vector)
        requires
            r == commande | 0x0006,
    ;
    r
}

/// Un emplacement est libre quand son identifiant de fabricant vaut 0xFFFF ou 0.
pub open spec fn emplacement_occupe(vendor_id: u16) -> bool {
    vendor_id != 0xFFFF && vendor_id != 0x0000
}

/// Registres lus pour un emplacement : bus, emplacement, fabricant, modèle, registre de classe
/// (0x08), BAR0 (0x10), registre d'interruption (0x3C).
pub type Releve = (u8, u8, u16, u16, u32, u32, u32);

/// Périphérique décrit par les registres relevés d'un emplacement.
pub open spec fn peripherique_v(r: Releve) -> PeripheriquePci {
    PeripheriquePci {
        bus: r.0,
        slot: r.1,
        fonction: 0,
        vendor_id: r.2,
        device_id: r.3,
        classe: (r.4 / 16777216) as u8,
        sous_classe: ((r.4 / 65536) % 256) as u8,
        bar0: r.5,
        irq: (r.6 % 256) as u8,
    }
}

/// Périphériques des emplacements occupés, dans l'ordre du relevé.
pub open spec fn scruter_v(rs: Seq<Releve>) -> Seq<PeripheriquePci>
    decreases rs.len(),
{
    if rs.len() == 0 {
        Seq::empty()
    } else {
        let p = scruter_v(rs.drop_last());
        if emplacement_occupe(rs.last().2) {
            p.push(peripherique_v(rs.last()))
        } else {
            p
        }
    }
}

/// Périphérique décrit par les registres d'un emplacement.
pub fn peripherique(r: Releve) -> (p: PeripheriquePci)
    ensures
        p == peripherique_v(r),
{
    let classe_reg = r.4;
    let classe = ((classe_reg >> 24u32) & 0xFF) as u8;
    let sous_classe = ((classe_reg >> 16u32) & 0xFF) as u8;
    let irq = (r.6 & 0xFF) as u8;
    assert(classe == (classe_reg / 16777216) as u8 && sous_classe == ((classe_reg / 65536) % 256) as u8)
        by (bit_vector)
        requires
            classe == ((classe_reg >> 24u32) & 0xFF) as u8,
            sous_classe == ((classe_reg >> 16u32) & 0xFF) as u8,
    ;
    let i6 = r.6;
    assert(irq == (i6 % 256) as u8) by (bit_vector)
        requires
            irq == (i6 & 0xFF) as u8,
    ;
    PeripheriquePci {
        bus: r.0,
        slot: r.1,
        fonction: 0,
        vendor_id: r.2,
        device_id: r.3,
        classe,
        sous_classe,
        bar0: r.5,
        irq,
    }
}

/// Plan de scrutation : les 256 bus, et sur chacun les emplacements 0 à 31, dans l'ordre.
pub open spec fn plan_v() -> Seq<(u8, u8)> {
    Seq::new(8192, |i: int| ((i / 32) as u8, (i % 32) as u8))
}

/// Les registres relevés suivent le plan de scrutation, emplacement par emplacement.
pub open spec fn selon_plan(rs: Seq<Releve>) -> bool {
    &&& rs.len() == plan_v().len()
    &&& forall|i: int| 0 <= i < rs.len() ==> (#[trigger] rs[i]).0 == plan_v()[i].0 && rs[i].1 == plan_v()[i].1
}

/// Emplacements à relever pour recenser les périphériques : (bus, emplacement) pour les bus 0 à
/// 255 et les emplacements 0 à 31.
pub fn plan_de_scrutation() -> (r: Vec<(u8, u8)>)
    ensures
        r@ == plan_v(),
{
    let mut r: Vec<(u8, u8)> = Vec::new();
    let mut i: usize = 0;
    while i < 8192
        invariant
            i <= 8192,
            r@ == plan_v().take(i as int),
        decreases 8192 - i,
    {
        r.push(((i / 32) as u8, (i % 32) as u8));
        i = i + 1;
        assert(r@ =~= plan_v().take(i as int));
    }
    assert(plan_v().take(8192) =~= plan_v());
    r
}

/// Un emplacement occupé du relevé donne son périphérique dans le recensement.
proof fn lemme_scruter_contient(rs: Seq<Releve>, i: int)
    requires
        0 <= i < rs.len(),
        emplacement_occupe(rs[i].2),
    ensures
        scruter_v(rs).contains(peripherique_v(rs[i])),
    decreases rs.len(),
{
    if i == rs.len() - 1 {
        assert(scruter_v(rs).last() == peripherique_v(rs[i]));
    } else {
        lemme_scruter_contient(rs.drop_last(), i);
        let k = choose|k: int| 0 <= k < scruter_v(rs.drop_last()).len() && scruter_v(rs.drop_last())[k] == peripherique_v(rs[i]);
        if emplacement_occupe(rs.last().2) {
            assert(scruter_v(rs)[k] == peripherique_v(rs[i]));
        }
    }
}

/// Recense les périphériques d'après les registres relevés emplacement par emplacement ; les
/// emplacements libres sont ignorés. Relevé selon le plan, le recensement couvre les 256 bus : tout
/// emplacement occupé (bus `b`, emplacement `s`) y figure.
pub fn scruter_bus(releves: &Vec<Releve>) -> (r: Vec<PeripheriquePci>)
    ensures
        r@ == scruter_v(releves@),
        selon_plan(releves@) ==> forall|b: u8, s: u8|
            s < 32 && #[trigger] emplacement_occupe(releves@[b * 32 + s].2) ==> releves@[b * 32 + s].0 == b
                && releves@[b * 32 + s].1 == s && r@.contains(peripherique_v(releves@[b * 32 + s])),
{
    let mut r: Vec<PeripheriquePci> = Vec::new();
    let mut i: usize = 0;
    while i < releves.len()
        invariant
            i <= releves@.len(),
            r@ == scruter_v(releves@.take(i as int)),
        decreases releves@.len() - i,
    {
        proof {
            assert(releves@.take(i + 1).drop_last() =~= releves@.take(i as int));
        }
        let rel = releves[i];
        if rel.2 != 0xFFFF && rel.2 != 0x0000 {
            r.push(peripherique(rel));
        }
        i = i + 1;
    }
    assert(releves@.take(releves@.len() as int) =~= releves@);
    proof {
        if selon_plan(releves@) {
            assert forall|b: u8, s: u8|
                s < 32 && #[trigger] emplacement_occupe(releves@[b * 32 + s].2) implies releves@[b * 32 + s].0 == b
                    && releves@[b * 32 + s].1 == s && r@.contains(peripherique_v(releves@[b * 32 + s])) by {
                let i = b * 32 + s;
                assert(0 <= i < 8192);
                assert(i / 32 == b && i % 32 == s);
                lemme_scruter_contient(releves@, i);
            }
        }
    }
    r
}

/// Le périphérique est une carte Intel e1000.
pub open spec fn est_e1000(p: PeripheriquePci) -> bool {
    p.vendor_id == INTEL_VENDOR_ID && p.device_id == E1000_DEV_ID
}

/// Première carte e1000 de la liste.
pub fn trouver_e1000(peripheriques: &Vec<PeripheriquePci>) -> (r: Option<PeripheriquePci>)
    ensures
        r is None <==> forall|i: int| 0 <= i < peripheriques@.len() ==> !est_e1000(#[trigger] peripheriques@[i]),
        r matches Some(p) ==> exists|i: int|
            0 <= i < peripheriques@.len() && #[trigger] peripheriques@[i] == p && est_e1000(p) && forall|j: int|
                0 <= j < i ==> !est_e1000(#[trigger] peripheriques@[j]),
{
    let mut i: usize = 0;
    while i < peripheriques.len()
        invariant
            i <= peripheriques@.len(),
            forall|j: int| 0 <= j < i ==> !est_e1000(#[trigger] peripheriques@[j]),
        decreases peripheriques@.len() - i,
    {
        let p = peripheriques[i];
        if p.vendor_id == INTEL_VENDOR_ID && p.device_id == E1000_DEV_ID {
            return Some(p);
        }
        i = i + 1;
    }
    None
}

/// Entrées d'audit du démarrage du bus : le nombre de périphériques, puis la carte e1000 trouvée
/// (bus, emplacement, adresse de BAR0 sans ses drapeaux, IRQ) ou son absence.
pub open spec fn initialisation_v(ps: Seq<PeripheriquePci>) -> Seq<Seq<char>> {
    seq!["[PCI] Scrutateur actif : "@ + decimal(ps.len()) + " peripherique(s) detecte(s)"@] + match premiere_e1000(ps) {
        Some(p) => seq![
            "[NET] Intel e1000 detectee sur PCI "@ + decimal(p.bus as nat) + ":"@ + decimal(p.slot as nat)
                + ".0 (BAR0: 0x"@ + hex((p.bar0 - p.bar0 % 16) as nat, 8) + ", IRQ: "@ + decimal(p.irq as nat) + ")"@,
        ],
        None => seq!["[NET] Aucune interface Intel e1000 reperee"@],
    }
}

/// Première carte e1000 d'une liste.
pub open spec fn premiere_e1000(ps: Seq<PeripheriquePci>) -> Option<PeripheriquePci>
    decreases ps.len(),
{
    if ps.len() == 0 {
        None
    } else if est_e1000(ps[0]) {
        Some(ps[0])
    } else {
        premiere_e1000(ps.drop_first())
    }
}

proof fn lemme_premiere_e1000(ps: Seq<PeripheriquePci>, i: int)
    requires
        0 <= i < ps.len(),
        est_e1000(ps[i]),
        forall|j: int| 0 <= j < i ==> !est_e1000(#[trigger] ps[j]),
    ensures
        premiere_e1000(ps) == Some(ps[i]),
    decreases i,
{
    if i > 0 {
        assert(!est_e1000(ps[0]));
        assert forall|j: int| 0 <= j < i - 1 implies !est_e1000(#[trigger] ps.drop_first()[j]) by {
            assert(ps.drop_first()[j] == ps[j + 1]);
        }
        lemme_premiere_e1000(ps.drop_first(), i - 1);
    }
}

proof fn lemme_aucune_e1000(ps: Seq<PeripheriquePci>)
    requires
        forall|j: int| 0 <= j < ps.len() ==> !est_e1000(#[trigger] ps[j]),
    ensures
        premiere_e1000(ps) is None,
    decreases ps.len(),
{
    if ps.len() > 0 {
        assert(!est_e1000(ps[0]));
        assert forall|j: int| 0 <= j < ps.len() - 1 implies !est_e1000(#[trigger] ps.drop_first()[j]) by {
            assert(ps.drop_first()[j] == ps[j + 1]);
        }
        lemme_aucune_e1000(ps.drop_first());
    }
}

/// Démarrage du bus : rend les entrées d'audit qui décrivent les périphériques relevés.
pub fn initialiser(peripheriques: &Vec<PeripheriquePci>) -> (r: Vec<String>)
    ensures
        vue_mots(r@) == initialisation_v(peripheriques@),
{
    let mut l1 = vers_chaine("[PCI] Scrutateur actif : ");
    pousser_decimal(&mut l1, peripheriques.len() as u64);
    pousser_texte(&mut l1, " peripherique(s) detecte(s)");
    let mut r: Vec<String> = Vec::new();
    r.push(l1);
    match trouver_e1000(peripheriques) {
        Some(p) => {
            proof {
                let i = choose|i: int|
                    0 <= i < peripheriques@.len() && #[trigger] peripheriques@[i] == p && est_e1000(p) && forall|j: int|
                        0 <= j < i ==> !est_e1000(#[trigger] peripheriques@[j]);
                lemme_premiere_e1000(peripheriques@, i);
            }
            let b = p.bar0;
            let mmio = b & !0x0Fu32;
            assert(mmio == b - b % 16) by (bit_vector)
                requires
                    mmio == b & !0x0Fu32,
            ;
            let mut l2 = vers_chaine("[NET] Intel e1000 detectee sur PCI ");
            pousser_decimal(&mut l2, p.bus as u64);
            pousser_texte(&mut l2, ":");
            pousser_decimal(&mut l2, p.slot as u64);
            pousser_texte(&mut l2, ".0 (BAR0: 0x");
            pousser_hex(&mut l2, mmio as u64, 8);
            pousser_texte(&mut l2, ", IRQ: ");
            pousser_decimal(&mut l2, p.irq as u64);
            pousser_texte(&mut l2, ")");
            r.push(l2);
        },
        None => {
            proof {
                lemme_aucune_e1000(peripheriques@);
            }
            r.push(vers_chaine("[NET] Aucune interface Intel e1000 reperee"));
        },
    }
    assert(vue_mots(r@) =~= initialisation_v(peripheriques@));
    r
}

/// Relire le mot de 16 bits que l'on vient d'écrire le redonne, et l'autre moitié du mot de 32
/// bits n'a pas changé.
pub proof fn loi_config_lire_apres_ecrire(ancien: u32, decalage: u8, valeur: u16)
    ensures
        mot16_v(fusion16_v(ancien, decalage, valeur), decalage) == valeur,
        decalage % 4 < 2 ==> fusion16_v(ancien, decalage, valeur) / 65536 == ancien / 65536,
        decalage % 4 >= 2 ==> fusion16_v(ancien, decalage, valeur) % 65536 == ancien % 65536,
{
    assert((ancien / 65536) * 65536 + valeur < 0x1_0000_0000) by (nonlinear_arith)
        requires
            ancien < 0x1_0000_0000,
            valeur < 65536,
    ;
    assert(valeur * 65536 + ancien % 65536 < 0x1_0000_0000) by (nonlinear_arith)
        requires
            valeur < 65536,
    ;
    assert(((ancien / 65536) * 65536 + valeur) % 65536 == valeur) by (nonlinear_arith)
        requires
            valeur < 65536,
    ;
    assert(((ancien / 65536) * 65536 + valeur) / 65536 == ancien / 65536) by (nonlinear_arith)
        requires
            valeur < 65536,
    ;
    assert((valeur * 65536 + ancien % 65536) / 65536 == valeur) by (nonlinear_arith);
    assert((valeur * 65536 + ancien % 65536) % 65536 == ancien % 65536) by (nonlinear_arith);
}

} // verus!
