use vstd::prelude::*;
use std::string::String;
use std::vec::Vec;
use crate::octets::{le16, le32, val16, val32};
use crate::texte::{deux_chiffres, texte_utf8};
use vstd::string::StringSliceAdditionalSpecFns;

verus! {

/// Nombre de messages conservés par le journal.
pub const CAPACITE_MAX: usize = 64;

/// Signature du superbloc du journal sur /var.
pub open spec fn magic_journal() -> Seq<u8> {
    seq![81u8, 66u8, 88u8, 95u8, 74u8, 82u8, 78u8, 76u8, 95u8, 86u8, 49u8, 0u8]
}

/// Journal noyau : tampon circulaire de messages.
pub struct JournalNoyau {
    messages: Vec<Option<String>>,
    debut: usize,
    taille: usize,
}

/// Modèle du journal : les emplacements, l'indice du plus ancien message et le nombre de messages.
pub struct VueJournal {
    pub emplacements: Seq<Option<Seq<char>>>,
    pub debut: nat,
    pub taille: nat,
}

pub open spec fn vue_emplacement(e: Option<String>) -> Option<Seq<char>> {
    match e {
        Some(s) => Some(s@),
        None => None,
    }
}

impl View for JournalNoyau {
    type V = VueJournal;

    closed spec fn view(&self) -> VueJournal {
        VueJournal {
            emplacements: self.messages@.map_values(|e: Option<String>| vue_emplacement(e)),
            debut: self.debut as nat,
            taille: self.taille as nat,
        }
    }
}

/// Un modèle de journal cohérent : 64 emplacements, un début et une taille dans les bornes.
pub open spec fn journal_valide(v: VueJournal) -> bool {
    &&& v.emplacements.len() == CAPACITE_MAX
    &&& v.debut < CAPACITE_MAX
    &&& v.taille <= CAPACITE_MAX
}

/// Les emplacements visibles, du plus ancien au plus récent.
pub open spec fn fenetre(v: VueJournal) -> Seq<Option<Seq<char>>> {
    Seq::new(v.taille, |i: int| v.emplacements[(v.debut + i) % (CAPACITE_MAX as int)])
}

/// Les messages présents d'une suite d'emplacements, dans l'ordre.
pub open spec fn presents(w: Seq<Option<Seq<char>>>) -> Seq<Seq<char>>
    decreases w.len(),
{
    if w.len() == 0 {
        Seq::empty()
    } else {
        let r = presents(w.drop_last());
        match w.last() {
            Some(m) => r.push(m),
            None => r,
        }
    }
}

pub open spec fn vue_chaines(v: Seq<String>) -> Seq<Seq<char>> {
    v.map_values(|s: String| s@)
}

/// Ligne datée d'un message : `[hh:mm:ss] message`.
pub open spec fn ligne_v(h: u8, m: u8, s: u8, message: Seq<char>) -> Seq<char> {
    seq!['['] + deux_chiffres(h as nat) + seq![':'] + deux_chiffres(m as nat) + seq![':']
        + deux_chiffres(s as nat) + seq![']', ' '] + message
}

/// Secteur d'un message : longueur (16 bits) puis au plus 508 octets du message, complété de zéros.
pub open spec fn secteur_message_v(octets: Seq<u8>) -> Seq<u8> {
    let n: nat = if octets.len() < 508 { octets.len() } else { 508 };
    le16(n as u16) + octets.take(n as int) + Seq::new((510 - n) as nat, |i: int| 0u8)
}

/// Superbloc du journal : signature, nombre de messages, emplacement du prochain message.
pub open spec fn superbloc_journal_v(compte: u32, tete: u32) -> Seq<u8> {
    magic_journal() + le32(compte) + le32(tete) + Seq::new(492, |i: int| 0u8)
}

/// Écritures qui persistent le message rangé à l'emplacement `index` : le secteur du message,
/// puis le superbloc.
pub open spec fn persistance_v(index: nat, octets: Seq<u8>, taille_totale: nat) -> Seq<(u64, Seq<u8>)> {
    let compte: nat = if taille_totale < CAPACITE_MAX { taille_totale } else { CAPACITE_MAX as nat };
    seq![
        ((1 + index) as u64, secteur_message_v(octets)),
        (0u64, superbloc_journal_v(compte as u32, ((index + 1) % (CAPACITE_MAX as nat)) as u32)),
    ]
}

/// Compte et tête lus dans un superbloc, s'il est reconnu et cohérent.
pub open spec fn superbloc_journal_lu(sb: Seq<u8>) -> Option<(nat, nat)> {
    if sb.len() >= 20 && sb.take(12) == magic_journal() {
        let compte = val32(sb[12], sb[13], sb[14], sb[15]);
        let tete = val32(sb[16], sb[17], sb[18], sb[19]);
        if compte == 0 || compte > CAPACITE_MAX || tete >= CAPACITE_MAX {
            None
        } else {
            Some((compte, tete))
        }
    } else {
        None
    }
}

/// Secteurs de /var à relire pour un superbloc : ceux des `compte` derniers emplacements,
/// du plus ancien au plus récent.
pub open spec fn plan_de_lecture_v(sb: Seq<u8>) -> Seq<u64> {
    match superbloc_journal_lu(sb) {
        None => Seq::empty(),
        Some((compte, tete)) => {
            let depart = (tete + CAPACITE_MAX - compte) % (CAPACITE_MAX as int);
            Seq::new(compte, |i: int| (1 + (depart + i) % (CAPACITE_MAX as int)) as u64)
        },
    }
}

/// Message contenu dans un secteur relu, s'il est lisible.
pub open spec fn message_relu(o: Option<Seq<u8>>) -> Option<Seq<char>> {
    match o {
        None => None,
        Some(sect) => if sect.len() < 2 {
            None
        } else {
            let n = val16(sect[0], sect[1]);
            if n == 0 || n > 508 || 2 + n > sect.len() {
                None
            } else if !vstd::utf8::valid_utf8(sect.subrange(2, (2 + n) as int)) {
                None
            } else {
                Some(vstd::utf8::decode_utf8(sect.subrange(2, (2 + n) as int)))
            }
        },
    }
}

/// Nombre de messages lisibles parmi des secteurs relus.
pub open spec fn nb_relus(s: Seq<Option<Seq<u8>>>) -> nat
    decreases s.len(),
{
    if s.len() == 0 {
        0
    } else {
        nb_relus(s.drop_last()) + if message_relu(s.last()) is Some {
            1nat
        } else {
            0nat
        }
    }
}

pub open spec fn vue_secteurs(s: Seq<Option<Vec<u8>>>) -> Seq<Option<Seq<u8>>> {
    s.map_values(|o: Option<Vec<u8>>| match o {
        Some(v) => Some(v@),
        None => None,
    })
}

/// Emplacements après relecture : le `i`-ème secteur lisible va à l'emplacement `i`.
pub open spec fn emplacements_relus(
    anciens: Seq<Option<Seq<char>>>,
    relus: Seq<Option<Seq<u8>>>,
) -> Seq<Option<Seq<char>>> {
    Seq::new(
        anciens.len(),
        |j: int|
            if j < relus.len() && message_relu(relus[j]) is Some {
                message_relu(relus[j])
            } else {
                anciens[j]
            },
    )
}

proof fn lemme_nb_relus_nul(s: Seq<Option<Seq<u8>>>)
    requires
        nb_relus(s) == 0,
    ensures
        forall|j: int| 0 <= j < s.len() ==> message_relu(#[trigger] s[j]) is None,
    decreases s.len(),
{
    if s.len() > 0 {
        lemme_nb_relus_nul(s.drop_last());
        assert forall|j: int| 0 <= j < s.len() implies message_relu(#[trigger] s[j]) is None by {
            if j < s.len() - 1 {
                assert(s[j] == s.drop_last()[j]);
            }
        }
    }
}

proof fn lemme_nb_relus_borne(s: Seq<Option<Seq<u8>>>)
    ensures
        nb_relus(s) <= s.len(),
    decreases s.len(),
{
    if s.len() > 0 {
        lemme_nb_relus_borne(s.drop_last());
    }
}

impl JournalNoyau {
    /// Journal vide.
    pub fn new() -> (r: Self)
        ensures
            journal_valide(r@),
            r@.taille == 0,
            r@.debut == 0,
            r@.emplacements == Seq::new(CAPACITE_MAX as nat, |i: int| None::<Seq<char>>),
    {
        let mut messages: Vec<Option<String>> = Vec::new();
        let mut i: usize = 0;
        while i < CAPACITE_MAX
            invariant
                i <= CAPACITE_MAX,
                messages@.len() == i,
                forall|k: int| 0 <= k < i ==> messages@[k] is None,
            decreases CAPACITE_MAX - i,
        {
            messages.push(None);
            i = i + 1;
        }
        let r = JournalNoyau { messages, debut: 0, taille: 0 };
        assert(r@.emplacements =~= Seq::new(CAPACITE_MAX as nat, |i: int| None::<Seq<char>>));
        r
    }

    /// Range un message à la suite des autres ; le journal plein oublie son plus ancien message.
    /// Rend l'emplacement utilisé et la nouvelle taille.
    pub fn inserer_en_memoire(&mut self, message: String) -> (r: (usize, usize))
        requires
            journal_valide(old(self)@),
        ensures
            journal_valide(final(self)@),
            r.0 == (old(self)@.debut + old(self)@.taille) % (CAPACITE_MAX as nat),
            r.1 == final(self)@.taille,
            final(self)@ == insertion_v(old(self)@, message@),
            final(self)@.emplacements == old(self)@.emplacements.update(r.0 as int, Some(message@)),
            old(self)@.taille < CAPACITE_MAX ==> final(self)@.taille == old(self)@.taille + 1
                && final(self)@.debut == old(self)@.debut,
            old(self)@.taille == CAPACITE_MAX ==> final(self)@.taille == CAPACITE_MAX
                && final(self)@.debut == (old(self)@.debut + 1) % (CAPACITE_MAX as nat),
            fenetre(final(self)@) == if old(self)@.taille < CAPACITE_MAX {
                fenetre(old(self)@).push(Some(message@))
            } else {
                fenetre(old(self)@).drop_first().push(Some(message@))
            },
    {
        let ghost ancien = self@;
        let ghost m = message@;
        let index = (self.debut + self.taille) % CAPACITE_MAX;
        self.messages.set(index, Some(message));
        if self.taille < CAPACITE_MAX {
            self.taille = self.taille + 1;
        } else {
            self.debut = (self.debut + 1) % CAPACITE_MAX;
        }
        proof {
            assert(self@.emplacements =~= ancien.emplacements.update(index as int, Some(m)));
            lemme_fenetre_insertion(ancien, m);
        }
        (index, self.taille)
    }

    /// Messages présents, du plus ancien au plus récent.
    pub fn lire_tous(&self) -> (r: Vec<String>)
        requires
            journal_valide(self@),
        ensures
            vue_chaines(r@) == presents(fenetre(self@)),
    {
        let mut sortie: Vec<String> = Vec::new();
        let mut i: usize = 0;
        while i < self.taille
            invariant
                self.messages@.len() == CAPACITE_MAX,
                self.debut < CAPACITE_MAX,
                self.taille <= CAPACITE_MAX,
                i <= self.taille,
                vue_chaines(sortie@) == presents(fenetre(self@).take(i as int)),
            decreases self.taille - i,
        {
            let index = (self.debut + i) % CAPACITE_MAX;
            let ghost w = fenetre(self@);
            proof {
                assert(w.take(i + 1).drop_last() =~= w.take(i as int));
                assert(w.take(i + 1).last() == vue_emplacement(self.messages@[index as int]));
            }
            match &self.messages[index] {
                Some(msg) => {
                    sortie.push(msg.clone());
                },
                None => {},
            }
            proof {
                assert(vue_chaines(sortie@) =~= presents(w.take(i + 1)));
            }
            i = i + 1;
        }
        proof {
            assert(fenetre(self@).take(self.taille as int) =~= fenetre(self@));
        }
        sortie
    }

    /// Relit les messages persistés : `secteurs` sont les secteurs lus selon le plan de lecture
    /// (`None` pour un secteur illisible). Le `i`-ème secteur lisible va à l'emplacement `i` ;
    /// s'il y en a au moins un, le journal commence à l'emplacement 0 et en compte autant.
    /// Rend le nombre de messages restaurés.
    pub fn charger_depuis_disque(&mut self, secteurs: &Vec<Option<Vec<u8>>>) -> (r: usize)
        requires
            journal_valide(old(self)@),
            secteurs@.len() <= CAPACITE_MAX,
        ensures
            journal_valide(final(self)@),
            r == nb_relus(vue_secteurs(secteurs@)),
            r == 0 ==> final(self)@ == old(self)@,
            r > 0 ==> final(self)@.debut == 0 && final(self)@.taille == r
                && final(self)@.emplacements == emplacements_relus(
                old(self)@.emplacements,
                vue_secteurs(secteurs@),
            ),
    {
        let ghost ancien = self@;
        let ghost relus = vue_secteurs(secteurs@);
        let mut charges: usize = 0;
        let mut i: usize = 0;
        while i < secteurs.len()
            invariant
                secteurs@.len() <= CAPACITE_MAX,
                relus == vue_secteurs(secteurs@),
                i <= secteurs@.len(),
                self.messages@.len() == CAPACITE_MAX,
                self.debut == ancien.debut,
                self.taille == ancien.taille,
                charges == nb_relus(relus.take(i as int)),
                charges <= i,
                forall|j: int|
                    0 <= j < CAPACITE_MAX ==> #[trigger] vue_emplacement(self.messages@[j]) == if j < i
                        && message_relu(relus[j]) is Some {
                        message_relu(relus[j])
                    } else {
                        ancien.emplacements[j]
                    },
            decreases secteurs@.len() - i,
        {
            let lu = lire_secteur_message(&secteurs[i]);
            proof {
                assert(relus[i as int] == match secteurs@[i as int] {
                    Some(v) => Some(v@),
                    None => None::<Seq<u8>>,
                });
                assert(relus.take(i + 1).drop_last() =~= relus.take(i as int));
            }
            match lu {
                Some(s) => {
                    self.messages.set(i, Some(s));
                    charges = charges + 1;
                },
                None => {},
            }
            i = i + 1;
        }
        proof {
            assert(relus.take(secteurs@.len() as int) =~= relus);
        }
        if charges > 0 {
            self.debut = 0;
            self.taille = charges;
            proof {
                assert(self@.emplacements =~= emplacements_relus(ancien.emplacements, relus));
            }
        } else {
            proof {
                lemme_nb_relus_nul(relus);
                assert(self@.emplacements =~= ancien.emplacements);
            }
        }
        charges
    }
}

/// Message d'un secteur relu, s'il est lisible.
fn lire_secteur_message(o: &Option<Vec<u8>>) -> (r: Option<String>)
    ensures
        vue_emplacement(r) == message_relu(match o {
            Some(v) => Some(v@),
            None => None::<Seq<u8>>,
        }),
{
    match o {
        None => None,
        Some(sect) => {
            if sect.len() < 2 {
                return None;
            }
            let n = crate::octets::lire_le16(sect[0], sect[1]) as usize;
            if n == 0 || n > 508 || 2 + n > sect.len() {
                return None;
            }
            let corps = crate::octets::extraire(sect.as_slice(), 2, 2 + n);
            texte_utf8(corps.as_slice())
        },
    }
}

/// Secteurs de /var à relire, d'après le superbloc du journal : aucun si le superbloc n'est pas
/// reconnu ou annonce un compte nul, trop grand, ou une tête hors du tampon.
pub fn plan_de_lecture(superbloc: &[u8]) -> (r: Vec<u64>)
    ensures
        r@ == plan_de_lecture_v(superbloc@),
{
    let mut r: Vec<u64> = Vec::new();
    if superbloc.len() < 20 {
        return r;
    }
    if !signature_journal(superbloc) {
        return r;
    }
    let compte = crate::octets::lire_le32(superbloc[12], superbloc[13], superbloc[14], superbloc[15]) as usize;
    let tete = crate::octets::lire_le32(superbloc[16], superbloc[17], superbloc[18], superbloc[19]) as usize;
    if compte == 0 || compte > CAPACITE_MAX || tete >= CAPACITE_MAX {
        return r;
    }
    let depart = (tete + CAPACITE_MAX - compte) % CAPACITE_MAX;
    let mut i: usize = 0;
    while i < compte
        invariant
            i <= compte <= CAPACITE_MAX,
            depart < CAPACITE_MAX,
            superbloc_journal_lu(superbloc@) == Some((compte as nat, tete as nat)),
            depart == (tete + CAPACITE_MAX - compte) % (CAPACITE_MAX as int),
            r@ == Seq::new(i as nat, |k: int| (1 + (depart + k) % (CAPACITE_MAX as int)) as u64),
        decreases compte - i,
    {
        r.push((1 + (depart + i) % CAPACITE_MAX) as u64);
        i = i + 1;
        assert(r@ =~= Seq::new(i as nat, |k: int| (1 + (depart + k) % (CAPACITE_MAX as int)) as u64));
    }
    r
}

fn signature_journal(sb: &[u8]) -> (r: bool)
    requires
        sb@.len() >= 12,
    ensures
        r == (sb@.take(12) == magic_journal()),
{
    let attendu: [u8; 12] = [81u8, 66u8, 88u8, 95u8, 74u8, 82u8, 78u8, 76u8, 95u8, 86u8, 49u8, 0u8];
    let mut i: usize = 0;
    while i < 12
        invariant
            i <= 12,
            sb@.len() >= 12,
            attendu@ == magic_journal(),
            sb@.take(i as int) == magic_journal().take(i as int),
        decreases 12 - i,
    {
        if sb[i] != attendu[i] {
            proof {
                assert(sb@.take(12)[i as int] != magic_journal()[i as int]);
            }
            return false;
        }
        i = i + 1;
        assert(sb@.take(i as int) =~= magic_journal().take(i as int));
    }
    assert(sb@.take(12) =~= sb@.take(12 as int));
    assert(magic_journal().take(12) =~= magic_journal());
    true
}

fn pousser_signature(v: &mut Vec<u8>)
    ensures
        final(v)@ == old(v)@ + magic_journal(),
{
    let attendu: [u8; 12] = [81u8, 66u8, 88u8, 95u8, 74u8, 82u8, 78u8, 76u8, 95u8, 86u8, 49u8, 0u8];
    assert(attendu@ == magic_journal());
    crate::octets::etendre(v, &attendu);
}

/// Écritures qui persistent un message rangé à l'emplacement `index` d'un journal de
/// `taille_totale` messages : à faire dans l'ordre, en s'arrêtant à la première qui échoue.
pub fn persister_sur_disque(index: usize, message: &str, taille_totale: usize) -> (r: Vec<(u64, Vec<u8>)>)
    requires
        index < CAPACITE_MAX,
    ensures
        r@.len() == 2,
        forall|k: int|
            0 <= k < 2 ==> (#[trigger] r@[k]).0 == persistance_v(index as nat, message.spec_bytes(), taille_totale as nat)[k].0
                && r@[k].1@ == persistance_v(index as nat, message.spec_bytes(), taille_totale as nat)[k].1,
{
    let octets = message.as_bytes();
    let n: usize = if octets.len() < 508 { octets.len() } else { 508 };
    let mut secteur: Vec<u8> = Vec::new();
    crate::octets::pousser_le16(&mut secteur, n as u16);
    let corps = crate::octets::extraire(octets, 0, n);
    crate::octets::etendre(&mut secteur, corps.as_slice());
    let bourrage = crate::octets::zeros(510 - n);
    crate::octets::etendre(&mut secteur, bourrage.as_slice());
    proof {
        assert(octets@.subrange(0, n as int) =~= octets@.take(n as int));
        assert(secteur@ =~= secteur_message_v(message.spec_bytes()));
    }
    let mut sb: Vec<u8> = Vec::new();
    pousser_signature(&mut sb);
    let compte: usize = if taille_totale < CAPACITE_MAX { taille_totale } else { CAPACITE_MAX };
    crate::octets::pousser_le32(&mut sb, compte as u32);
    crate::octets::pousser_le32(&mut sb, ((index + 1) % CAPACITE_MAX) as u32);
    let reste = crate::octets::zeros(492);
    crate::octets::etendre(&mut sb, reste.as_slice());
    let mut r: Vec<(u64, Vec<u8>)> = Vec::new();
    r.push((1 + index as u64, secteur));
    r.push((0u64, sb));
    r
}

/// Ligne datée `[hh:mm:ss] message`.
pub fn formater_ligne(h: u8, m: u8, s: u8, message: &str) -> (r: String)
    ensures
        r@ == ligne_v(h, m, s, message@),
{
    let mut l = String::new();
    crate::texte::pousser_car(&mut l, '[');
    crate::texte::pousser_deux_chiffres(&mut l, h as u64);
    crate::texte::pousser_car(&mut l, ':');
    crate::texte::pousser_deux_chiffres(&mut l, m as u64);
    crate::texte::pousser_car(&mut l, ':');
    crate::texte::pousser_deux_chiffres(&mut l, s as u64);
    crate::texte::pousser_car(&mut l, ']');
    crate::texte::pousser_car(&mut l, ' ');
    crate::texte::pousser_texte(&mut l, message);
    assert(l@ =~= ligne_v(h, m, s, message@));
    l
}

/// Consigne un message daté de l'heure `(h, m, s)` : il entre dans le journal, et les écritures
/// qui le persistent sur /var sont rendues (à faire dans l'ordre, en s'arrêtant au premier échec).
pub fn enregistrer(journal: &mut JournalNoyau, heure: (u8, u8, u8), message: &str) -> (r: Vec<(u64, Vec<u8>)>)
    requires
        journal_valide(old(journal)@),
    ensures
        journal_valide(final(journal)@),
        final(journal)@ == insertion_v(old(journal)@, ligne_v(heure.0, heure.1, heure.2, message@)),
        fenetre(final(journal)@) == if old(journal)@.taille < CAPACITE_MAX {
            fenetre(old(journal)@).push(Some(ligne_v(heure.0, heure.1, heure.2, message@)))
        } else {
            fenetre(old(journal)@).drop_first().push(Some(ligne_v(heure.0, heure.1, heure.2, message@)))
        },
        r@.len() == 2,
        forall|k: int|
            0 <= k < 2 ==> (#[trigger] r@[k]).0 == ecritures_enregistrement(
                old(journal)@,
                final(journal)@,
                ligne_v(heure.0, heure.1, heure.2, message@),
            )[k].0 && r@[k].1@ == ecritures_enregistrement(
                old(journal)@,
                final(journal)@,
                ligne_v(heure.0, heure.1, heure.2, message@),
            )[k].1,
{
    let (h, m, s) = heure;
    let ligne = formater_ligne(h, m, s, message);
    let (index, taille) = journal.inserer_en_memoire(ligne.clone());
    persister_sur_disque(index, ligne.as_str(), taille)
}

/// Journal après l'insertion du message `m` : il occupe l'emplacement qui suit le dernier
/// message ; le journal plein avance son début et garde sa taille, sinon sa taille croît de un.
pub open spec fn insertion_v(j: VueJournal, m: Seq<char>) -> VueJournal {
    VueJournal {
        emplacements: j.emplacements.update(((j.debut + j.taille) % (CAPACITE_MAX as nat)) as int, Some(m)),
        debut: if j.taille < CAPACITE_MAX { j.debut } else { (j.debut + 1) % (CAPACITE_MAX as nat) },
        taille: if j.taille < CAPACITE_MAX { j.taille + 1 } else { j.taille },
    }
}

/// Effet d'une insertion sur la fenêtre des emplacements visibles.
proof fn lemme_fenetre_insertion(ancien: VueJournal, m: Seq<char>)
    requires
        journal_valide(ancien),
    ensures
        journal_valide(insertion_v(ancien, m)),
        fenetre(insertion_v(ancien, m)) == if ancien.taille < CAPACITE_MAX {
            fenetre(ancien).push(Some(m))
        } else {
            fenetre(ancien).drop_first().push(Some(m))
        },
{
    let nouveau = insertion_v(ancien, m);
    let attendu = if ancien.taille < CAPACITE_MAX {
        fenetre(ancien).push(Some(m))
    } else {
        fenetre(ancien).drop_first().push(Some(m))
    };
    assert forall|i: int| 0 <= i < fenetre(nouveau).len() implies fenetre(nouveau)[i] == attendu[i] by {
        if ancien.taille < CAPACITE_MAX {
            if i < ancien.taille {
                assert((ancien.debut + i) % 64 != (ancien.debut + ancien.taille) % 64);
            }
        } else {
            if i < 63 {
                assert((((ancien.debut + 1) % 64) + i) % 64 == (ancien.debut + (i + 1)) % 64);
                assert((ancien.debut + (i + 1)) % 64 != (ancien.debut + 64) % 64);
            } else {
                assert((((ancien.debut + 1) % 64) + i) % 64 == (ancien.debut + 64) % 64);
            }
        }
    }
    assert(fenetre(nouveau) =~= attendu);
}

/// Journal après l'insertion, dans l'ordre, de chacun des messages `ms`.
pub open spec fn inserer_tous(j: VueJournal, ms: Seq<Seq<char>>) -> VueJournal
    decreases ms.len(),
{
    if ms.len() == 0 {
        j
    } else {
        insertion_v(inserer_tous(j, ms.drop_last()), ms.last())
    }
}

/// Emplacements qui portent, dans l'ordre, chacun des messages `ms`.
pub open spec fn portes(ms: Seq<Seq<char>>) -> Seq<Option<Seq<char>>> {
    Seq::new(ms.len(), |i: int| Some(ms[i]))
}

proof fn lemme_presents_portes(ms: Seq<Seq<char>>)
    ensures
        presents(portes(ms)) == ms,
    decreases ms.len(),
{
    if ms.len() > 0 {
        assert(portes(ms).drop_last() =~= portes(ms.drop_last()));
        lemme_presents_portes(ms.drop_last());
        assert(ms.drop_last().push(ms.last()) =~= ms);
    }
}

/// Nombre des premiers messages que le journal a oubliés après `n` insertions depuis le vide.
pub open spec fn oublies(n: nat) -> nat {
    if n > CAPACITE_MAX { (n - CAPACITE_MAX) as nat } else { 0 }
}

/// `n` messages consignés dans un journal vide : le journal rend les `min(n, CAPACITE_MAX)`
/// derniers, du plus ancien au plus récent.
pub proof fn loi_journal_n_insertions(ms: Seq<Seq<char>>)
    ensures
        journal_valide(inserer_tous(journal_vide(), ms)),
        fenetre(inserer_tous(journal_vide(), ms)) == portes(ms.skip(oublies(ms.len()) as int)),
        presents(fenetre(inserer_tous(journal_vide(), ms))) == ms.skip(oublies(ms.len()) as int),
    decreases ms.len(),
{
    if ms.len() == 0 {
        assert(fenetre(journal_vide()) =~= portes(ms.skip(0)));
    } else {
        let p = ms.drop_last();
        let m = ms.last();
        loi_journal_n_insertions(p);
        let j = inserer_tous(journal_vide(), p);
        lemme_fenetre_insertion(j, m);
        let kp = oublies(p.len()) as int;
        let k = oublies(ms.len()) as int;
        assert(fenetre(j).len() == p.len() - kp);
        if j.taille < CAPACITE_MAX {
            assert(kp == 0 && k == 0);
            assert(portes(p.skip(kp)).push(Some(m)) =~= portes(ms.skip(k)));
        } else {
            assert(k == kp + 1);
            assert(portes(p.skip(kp)).drop_first().push(Some(m)) =~= portes(ms.skip(k)));
        }
    }
    lemme_presents_portes(ms.skip(oublies(ms.len()) as int));
}

/// Journal vide : aucun message, le premier emplacement en tête.
pub open spec fn journal_vide() -> VueJournal {
    VueJournal { emplacements: Seq::new(CAPACITE_MAX as nat, |i: int| None::<Seq<char>>), debut: 0, taille: 0 }
}

/// Écritures qui persistent la ligne `ligne` consignée dans le journal `avant`, devenu `apres` :
/// son secteur, à l'emplacement qui suit le dernier message, puis le superbloc.
pub open spec fn ecritures_enregistrement(avant: VueJournal, apres: VueJournal, ligne: Seq<char>) -> Seq<(u64, Seq<u8>)> {
    persistance_v(
        (avant.debut + avant.taille) % (CAPACITE_MAX as nat),
        vstd::utf8::encode_utf8(ligne),
        apres.taille,
    )
}

/// Relit le journal depuis les secteurs lus selon le plan de lecture ; rend le nombre de messages restaurés.
pub fn charger_depuis_disque(journal: &mut JournalNoyau, secteurs: &Vec<Option<Vec<u8>>>) -> (r: usize)
    requires
        journal_valide(old(journal)@),
        secteurs@.len() <= CAPACITE_MAX,
    ensures
        journal_valide(final(journal)@),
        r == nb_relus(vue_secteurs(secteurs@)),
        r == 0 ==> final(journal)@ == old(journal)@,
        r > 0 ==> final(journal)@.debut == 0 && final(journal)@.taille == r
            && final(journal)@.emplacements == emplacements_relus(
            old(journal)@.emplacements,
            vue_secteurs(secteurs@),
        ),
{
    journal.charger_depuis_disque(secteurs)
}

/// Tant que chaque emplacement visible porte un message, le journal rend exactement les
/// `CAPACITE_MAX` derniers messages consignés, dans l'ordre : consigner un message l'ajoute à la
/// fin et, le journal plein, retire le plus ancien.
pub proof fn loi_journal_glissant(avant: Seq<Option<Seq<char>>>, m: Seq<char>)
    requires
        avant.len() <= CAPACITE_MAX,
    ensures
        avant.len() < CAPACITE_MAX ==> presents(avant.push(Some(m))) == presents(avant).push(m),
        avant.len() == CAPACITE_MAX && avant[0] is Some ==> presents(avant.drop_first().push(Some(m)))
            == presents(avant).drop_first().push(m),
{
    assert(avant.push(Some(m)).drop_last() =~= avant);
    if avant.len() == CAPACITE_MAX && avant[0] is Some {
        let w = avant.drop_first().push(Some(m));
        assert(w.drop_last() =~= avant.drop_first());
        lemme_presents_premier(avant);
    }
}

/// Retirer un premier emplacement occupé retire le premier message.
proof fn lemme_presents_premier(w: Seq<Option<Seq<char>>>)
    requires
        w.len() > 0,
        w[0] is Some,
    ensures
        presents(w).len() > 0,
        presents(w.drop_first()) == presents(w).drop_first(),
        presents(w)[0] == w[0]->0,
    decreases w.len(),
{
    if w.len() == 1 {
        assert(w.drop_last() =~= Seq::<Option<Seq<char>>>::empty());
        assert(w.drop_first() =~= Seq::<Option<Seq<char>>>::empty());
        assert(presents(w) =~= seq![w[0]->0]);
    } else {
        lemme_presents_premier(w.drop_last());
        assert(w.drop_first().drop_last() =~= w.drop_last().drop_first());
        assert(w.drop_first().last() == w.last());
        lemme_presents_longueur(w.drop_last());
    }
}

proof fn lemme_presents_longueur(w: Seq<Option<Seq<char>>>)
    ensures
        presents(w).len() <= w.len(),
    decreases w.len(),
{
    if w.len() > 0 {
        lemme_presents_longueur(w.drop_last());
    }
}

/// Un message d'au plus 508 octets, non vide et en UTF-8 valide, se relit tel qu'il a été écrit.
pub proof fn loi_relecture_message(octets: Seq<u8>)
    requires
        0 < octets.len() <= 508,
        vstd::utf8::valid_utf8(octets),
    ensures
        message_relu(Some(secteur_message_v(octets))) == Some(vstd::utf8::decode_utf8(octets)),
{
    let sect = secteur_message_v(octets);
    crate::octets::lemme_le16(octets.len() as u16);
    assert(sect.subrange(2, (2 + octets.len()) as int) =~= octets);
}

/// Le superbloc écrit se relit : le plan de lecture désigne, du plus ancien au plus récent,
/// les `compte` emplacements qui précèdent la tête.
pub proof fn loi_relecture_superbloc(compte: u32, tete: u32)
    requires
        0 < compte <= CAPACITE_MAX,
        tete < CAPACITE_MAX,
    ensures
        superbloc_journal_lu(superbloc_journal_v(compte, tete)) == Some((compte as nat, tete as nat)),
        plan_de_lecture_v(superbloc_journal_v(compte, tete)).len() == compte,
        forall|i: int|
            0 <= i < compte ==> #[trigger] plan_de_lecture_v(superbloc_journal_v(compte, tete))[i] == 1
                + (tete + CAPACITE_MAX - compte + i) % (CAPACITE_MAX as int),
{
    let sb = superbloc_journal_v(compte, tete);
    crate::octets::lemme_le32(compte);
    crate::octets::lemme_le32(tete);
    assert(sb.take(12) =~= magic_journal());
    assert(sb[12] == le32(compte)[0] && sb[13] == le32(compte)[1] && sb[14] == le32(compte)[2]
        && sb[15] == le32(compte)[3]);
    assert(sb[16] == le32(tete)[0] && sb[17] == le32(tete)[1] && sb[18] == le32(tete)[2]
        && sb[19] == le32(tete)[3]);
    assert forall|i: int| 0 <= i < compte implies #[trigger] plan_de_lecture_v(sb)[i] == 1 + (tete
        + CAPACITE_MAX - compte + i) % (CAPACITE_MAX as int) by {
        let d = (tete + CAPACITE_MAX - compte) % (CAPACITE_MAX as int);
        assert((d + i) % 64 == (tete + 64 - compte + i) % 64);
    }
}

/// Vide le journal : aucun message.
pub fn purger(journal: &mut JournalNoyau)
    ensures
        journal_valide(final(journal)@),
        final(journal)@.taille == 0,
        final(journal)@.debut == 0,
        final(journal)@.emplacements == Seq::new(CAPACITE_MAX as nat, |i: int| None::<Seq<char>>),
{
    *journal = JournalNoyau::new();
}

} // verus!
