use vstd::prelude::*;
use vstd::string::StringSliceAdditionalSpecFns;
pub use crate::sha::{sha256_v, sha256};
use std::string::String;
use crate::texte::{pousser_car, pousser_texte, vers_chaine};

verus! {

/// Paliers de privilège, du plus faible au plus fort.
#[derive(Debug, Clone, Copy, PartialEq, Eq, PartialOrd, Ord, Structural)]
pub enum NiveauPrivilege {
    Operateur,
    Administrateur,
    Architecte,
}

/// Rang d'un palier : 0, 1, 2.
pub open spec fn rang(n: NiveauPrivilege) -> nat {
    match n {
        NiveauPrivilege::Operateur => 0,
        NiveauPrivilege::Administrateur => 1,
        NiveauPrivilege::Architecte => 2,
    }
}

fn rang_x(n: NiveauPrivilege) -> (r: u8)
    ensures
        r == rang(n),
{
    match n {
        NiveauPrivilege::Operateur => 0,
        NiveauPrivilege::Administrateur => 1,
        NiveauPrivilege::Architecte => 2,
    }
}

/// Session : palier courant et empreintes des clés Administrateur et Architecte.
pub struct Session {
    niveau: NiveauPrivilege,
    hash_admin: Option<[u8; 32]>,
    hash_archi: Option<[u8; 32]>,
}

/// Modèle d'une session.
pub struct VueSession {
    pub niveau: NiveauPrivilege,
    pub hash_admin: Option<Seq<u8>>,
    pub hash_archi: Option<Seq<u8>>,
}

pub open spec fn vue_hash(h: Option<[u8; 32]>) -> Option<Seq<u8>> {
    match h {
        Some(a) => Some(a@),
        None => None,
    }
}

impl View for Session {
    type V = VueSession;

    closed spec fn view(&self) -> VueSession {
        VueSession {
            niveau: self.niveau,
            hash_admin: vue_hash(self.hash_admin),
            hash_archi: vue_hash(self.hash_archi),
        }
    }
}

/// Octets d'un mot de passe (UTF-8).
pub open spec fn octets(mdp: &str) -> Seq<u8> {
    mdp.spec_bytes()
}

/// Symbole d'invite de chaque palier.
pub open spec fn symbole_v(n: NiveauPrivilege) -> char {
    match n {
        NiveauPrivilege::Operateur => '>',
        NiveauPrivilege::Administrateur => '#',
        NiveauPrivilege::Architecte => '!',
    }
}

/// Issue d'une tentative d'élévation vers `cible` avec ce mot de passe.
pub open spec fn elevation_v(s: VueSession, cible: NiveauPrivilege, mdp: Seq<u8>) -> Result<(), &'static str> {
    match cible {
        NiveauPrivilege::Operateur => Ok(()),
        NiveauPrivilege::Administrateur => match s.hash_admin {
            None => Err("Clé Administrateur non initialisée (l'Architecte doit exécuter 'initadm')."),
            Some(h) => if sha256_v(mdp) == h {
                Ok(())
            } else {
                Err("Mot de passe incorrect.")
            },
        },
        NiveauPrivilege::Architecte => match s.hash_archi {
            None => Err("Clé Architecte non configurée. Tapez 'initarch' pour l'initialiser."),
            Some(h) => if sha256_v(mdp) == h {
                Ok(())
            } else {
                Err("Mot de passe incorrect.")
            },
        },
    }
}

/// Nom d'un palier tel que le journal d'audit l'écrit.
pub open spec fn nom_niveau(n: NiveauPrivilege) -> Seq<char> {
    match n {
        NiveauPrivilege::Operateur => "Operateur"@,
        NiveauPrivilege::Administrateur => "Administrateur"@,
        NiveauPrivilege::Architecte => "Architecte"@,
    }
}

/// Vue d'une entrée d'audit éventuelle.
pub open spec fn vue_audit(a: Option<String>) -> Option<Seq<char>> {
    match a {
        Some(t) => Some(t@),
        None => None,
    }
}

/// Entrée d'audit du scellement de la clé Architecte : seulement s'il a réussi.
pub open spec fn audit_scellement_archi(r: Result<(), &'static str>) -> Option<Seq<char>> {
    if r is Ok {
        Some("[SEC] Clé de sécurité Architecte scellée avec succès"@)
    } else {
        None
    }
}

/// Scellement de la clé Architecte : refusé sous le palier Administrateur, refusé si la clé est
/// déjà scellée, refusé pour un mot de passe de moins de 4 octets ; sinon la clé devient
/// l'empreinte du mot de passe. Rend le résultat et la session d'après.
pub open spec fn scellement_archi_v(s: VueSession, mdp: Seq<u8>) -> (Result<(), &'static str>, VueSession) {
    if rang(s.niveau) < 1 {
        (Err("EPERM : le palier Administrateur (#) est requis pour sceller la clé Architecte."), s)
    } else if s.hash_archi is Some {
        (Err("Clé Architecte déjà scellée. Commande désactivée."), s)
    } else if mdp.len() < 4 {
        (Err("Mot de passe trop court (4 caractères minimum)."), s)
    } else {
        (Ok(()), VueSession { hash_archi: Some(sha256_v(mdp)), ..s })
    }
}

/// Scellement de la clé Administrateur : depuis tout palier tant qu'aucune clé n'est scellée,
/// ensuite réservé à l'Architecte ; refusé pour un mot de passe de moins de 4 octets ; sinon la
/// clé devient l'empreinte du mot de passe. Rend le résultat et la session d'après.
pub open spec fn scellement_admin_v(s: VueSession, mdp: Seq<u8>) -> (Result<(), &'static str>, VueSession) {
    if s.hash_admin is Some && s.niveau != NiveauPrivilege::Architecte {
        (Err("EPERM : clé Administrateur déjà scellée ; seul l'Architecte (!) peut la redéfinir."), s)
    } else if mdp.len() < 4 {
        (Err("Mot de passe trop court (4 caractères minimum)."), s)
    } else {
        (Ok(()), VueSession { hash_admin: Some(sha256_v(mdp)), ..s })
    }
}

/// Entrée d'audit du scellement de la clé Administrateur : seulement s'il a réussi.
pub open spec fn audit_scellement_admin(r: Result<(), &'static str>) -> Option<Seq<char>> {
    if r is Ok {
        Some("[SEC] Clé de sécurité Administrateur scellée"@)
    } else {
        None
    }
}

/// Entrée d'audit d'une tentative d'élévation du palier `ancien` vers `cible` : l'élévation
/// accordée, ou l'échec d'authentification sur un mot de passe incorrect ; rien pour un retour à
/// l'Opérateur ni pour une clé absente.
pub open spec fn audit_elevation(ancien: NiveauPrivilege, cible: NiveauPrivilege, r: Result<(), &'static str>) -> Option<Seq<char>> {
    if cible == NiveauPrivilege::Operateur {
        None
    } else {
        match r {
            Ok(_) => Some(
                "[AUTH] Élévation accordée : "@ + nom_niveau(ancien) + " -> "@ + nom_niveau(cible) + " ('"@ + seq![
                    symbole_v(cible),
                ] + "')"@,
            ),
            Err(e) => if e == "Mot de passe incorrect." {
                Some("[AUTH] Échec d'authentification pour "@ + nom_niveau(cible))
            } else {
                None
            },
        }
    }
}

/// Entrée d'audit d'une rétrogradation : seulement si le palier a changé.
pub open spec fn audit_retrogradation(r: bool) -> Option<Seq<char>> {
    if r {
        Some("[AUTH] Rétrogradation au niveau Opérateur ('>')"@)
    } else {
        None
    }
}

fn nom_niveau_x(n: NiveauPrivilege) -> (r: &'static str)
    ensures
        r@ == nom_niveau(n),
{
    match n {
        NiveauPrivilege::Operateur => "Operateur",
        NiveauPrivilege::Administrateur => "Administrateur",
        NiveauPrivilege::Architecte => "Architecte",
    }
}

/// Comparaison en temps constant de deux empreintes.
fn comparaison_temps_constant(a: &[u8; 32], b: &[u8; 32]) -> (r: bool)
    ensures
        r == (a@ == b@),
{
    let mut diff: u8 = 0;
    let mut i: usize = 0;
    proof {
        assert(a@.take(0) =~= b@.take(0));
    }
    while i < 32
        invariant
            i <= 32,
            a@.len() == 32,
            b@.len() == 32,
            (diff == 0) == (a@.take(i as int) == b@.take(i as int)),
        decreases 32 - i,
    {
        let x = a[i];
        let y = b[i];
        let d2 = diff | (x ^ y);
        proof {
            assert((d2 == 0) == (diff == 0 && x == y)) by (bit_vector)
                requires
                    d2 == diff | (x ^ y),
            ;
            assert(a@.take(i + 1) =~= a@.take(i as int).push(x));
            assert(b@.take(i + 1) =~= b@.take(i as int).push(y));
            if a@.take(i + 1) == b@.take(i + 1) {
                assert(a@.take(i + 1)[i as int] == b@.take(i + 1)[i as int]);
                assert(a@.take(i as int) =~= a@.take(i + 1).take(i as int));
                assert(b@.take(i as int) =~= b@.take(i + 1).take(i as int));
            }
        }
        diff = d2;
        i = i + 1;
    }
    proof {
        assert(a@.take(32) =~= a@);
        assert(b@.take(32) =~= b@);
    }
    diff == 0
}

impl Session {
    /// Session neuve : Opérateur, aucune clé scellée.
    pub fn new() -> (r: Self)
        ensures
            r@.niveau == NiveauPrivilege::Operateur,
            r@.hash_admin is None,
            r@.hash_archi is None,
    {
        Session { niveau: NiveauPrivilege::Operateur, hash_admin: None, hash_archi: None }
    }

    pub fn niveau(&self) -> (r: NiveauPrivilege)
        ensures
            r == self@.niveau,
    {
        self.niveau
    }

    /// Le palier courant atteint au moins `requis`.
    pub fn a_privilege(&self, requis: NiveauPrivilege) -> (r: bool)
        ensures
            r == (rang(self@.niveau) >= rang(requis)),
    {
        rang_x(self.niveau) >= rang_x(requis)
    }

    /// Symbole d'invite : '>', '#' ou '!'.
    pub fn symbole_prompt(&self) -> (r: char)
        ensures
            r == symbole_v(self@.niveau),
    {
        match self.niveau {
            NiveauPrivilege::Operateur => '>',
            NiveauPrivilege::Administrateur => '#',
            NiveauPrivilege::Architecte => '!',
        }
    }

    pub fn est_archi_initialise(&self) -> (r: bool)
        ensures
            r == self@.hash_archi is Some,
    {
        self.hash_archi.is_some()
    }

    pub fn est_admin_initialise(&self) -> (r: bool)
        ensures
            r == self@.hash_admin is Some,
    {
        self.hash_admin.is_some()
    }

    /// Scelle la clé Architecte : palier Administrateur au moins, une seule fois, mot de passe de
    /// 4 octets au moins ; rend aussi l'entrée d'audit à consigner.
    pub fn sceller_cle_architecte(&mut self, mdp: &str) -> (r: (Result<(), &'static str>, Option<String>))
        ensures
            final(self)@ == scellement_archi_v(old(self)@, octets(mdp)).1,
            r.0 == scellement_archi_v(old(self)@, octets(mdp)).0,
            vue_audit(r.1) == audit_scellement_archi(r.0),
    {
        if rang_x(self.niveau) < 1 {
            return (Err("EPERM : le palier Administrateur (#) est requis pour sceller la clé Architecte."), None);
        }
        if self.hash_archi.is_some() {
            return (Err("Clé Architecte déjà scellée. Commande désactivée."), None);
        }
        let octets_mdp = mdp.as_bytes();
        if octets_mdp.len() < 4 {
            return (Err("Mot de passe trop court (4 caractères minimum)."), None);
        }
        self.hash_archi = Some(sha256(octets_mdp));
        (Ok(()), Some(vers_chaine("[SEC] Clé de sécurité Architecte scellée avec succès")))
    }

    /// Définit la clé Administrateur : à froid depuis tout palier tant qu'aucune clé n'est scellée,
    /// puis seulement sous l'Architecte ; mot de passe de 4 octets au moins. Rend aussi l'entrée
    /// d'audit à consigner.
    pub fn sceller_cle_administrateur(&mut self, mdp: &str) -> (r: (Result<(), &'static str>, Option<String>))
        ensures
            final(self)@ == scellement_admin_v(old(self)@, octets(mdp)).1,
            r.0 == scellement_admin_v(old(self)@, octets(mdp)).0,
            vue_audit(r.1) == audit_scellement_admin(r.0),
    {
        if self.hash_admin.is_some() && rang_x(self.niveau) != 2 {
            return (Err("EPERM : clé Administrateur déjà scellée ; seul l'Architecte (!) peut la redéfinir."), None);
        }
        let octets_mdp = mdp.as_bytes();
        if octets_mdp.len() < 4 {
            return (Err("Mot de passe trop court (4 caractères minimum)."), None);
        }
        self.hash_admin = Some(sha256(octets_mdp));
        (Ok(()), Some(vers_chaine("[SEC] Clé de sécurité Administrateur scellée")))
    }

    /// Élève la session vers `cible` si le mot de passe correspond à la clé scellée
    /// (l'Opérateur s'obtient sans mot de passe) ; rend aussi l'entrée d'audit à consigner.
    pub fn tenter_elevation(&mut self, cible: NiveauPrivilege, mot_de_passe: &str) -> (r: (
        Result<(), &'static str>,
        Option<String>,
    ))
        ensures
            r.0 == elevation_v(old(self)@, cible, octets(mot_de_passe)),
            final(self)@.hash_admin == old(self)@.hash_admin,
            final(self)@.hash_archi == old(self)@.hash_archi,
            r.0 is Ok ==> final(self)@.niveau == cible,
            r.0 is Err ==> final(self)@.niveau == old(self)@.niveau,
            vue_audit(r.1) == audit_elevation(old(self)@.niveau, cible, r.0),
    {
        let hash_attendu: [u8; 32] = match cible {
            NiveauPrivilege::Operateur => {
                self.niveau = NiveauPrivilege::Operateur;
                return (Ok(()), None);
            },
            NiveauPrivilege::Administrateur => match self.hash_admin {
                Some(h) => h,
                None => {
                    return (Err("Clé Administrateur non initialisée (l'Architecte doit exécuter 'initadm')."), None);
                },
            },
            NiveauPrivilege::Architecte => match self.hash_archi {
                Some(h) => h,
                None => {
                    return (Err("Clé Architecte non configurée. Tapez 'initarch' pour l'initialiser."), None);
                },
            },
        };
        let hash_saisi = sha256(mot_de_passe.as_bytes());
        if comparaison_temps_constant(&hash_saisi, &hash_attendu) {
            let ancien = self.niveau;
            self.niveau = cible;
            let mut a = vers_chaine("[AUTH] Élévation accordée : ");
            pousser_texte(&mut a, nom_niveau_x(ancien));
            pousser_texte(&mut a, " -> ");
            pousser_texte(&mut a, nom_niveau_x(cible));
            pousser_texte(&mut a, " ('");
            pousser_car(&mut a, self.symbole_prompt());
            pousser_texte(&mut a, "')");
            (Ok(()), Some(a))
        } else {
            let mut a = vers_chaine("[AUTH] Échec d'authentification pour ");
            pousser_texte(&mut a, nom_niveau_x(cible));
            (Err("Mot de passe incorrect."), Some(a))
        }
    }

    /// Revient au palier Opérateur ; vrai si le palier a changé. Rend aussi l'entrée d'audit à
    /// consigner.
    pub fn retrograder(&mut self) -> (r: (bool, Option<String>))
        ensures
            r.0 == (old(self)@.niveau != NiveauPrivilege::Operateur),
            final(self)@.niveau == NiveauPrivilege::Operateur,
            final(self)@.hash_admin == old(self)@.hash_admin,
            final(self)@.hash_archi == old(self)@.hash_archi,
            vue_audit(r.1) == audit_retrogradation(r.0),
    {
        if rang_x(self.niveau) != 0 {
            self.niveau = NiveauPrivilege::Operateur;
            (true, Some(vers_chaine("[AUTH] Rétrogradation au niveau Opérateur ('>')")))
        } else {
            (false, None)
        }
    }
}

/// Vrai si la session atteint le palier `requis`.
pub fn verifier_privilege(session: &Session, requis: NiveauPrivilege) -> (r: bool)
    ensures
        r == (rang(session@.niveau) >= rang(requis)),
{
    session.a_privilege(requis)
}

pub fn symbole_prompt(session: &Session) -> (r: char)
    ensures
        r == symbole_v(session@.niveau),
{
    session.symbole_prompt()
}

pub fn est_archi_initialise(session: &Session) -> (r: bool)
    ensures
        r == session@.hash_archi is Some,
{
    session.est_archi_initialise()
}

pub fn est_admin_initialise(session: &Session) -> (r: bool)
    ensures
        r == session@.hash_admin is Some,
{
    session.est_admin_initialise()
}

pub fn retrograder(session: &mut Session) -> (r: (bool, Option<String>))
    ensures
        r.0 == (old(session)@.niveau != NiveauPrivilege::Operateur),
        final(session)@.niveau == NiveauPrivilege::Operateur,
        final(session)@.hash_admin == old(session)@.hash_admin,
        final(session)@.hash_archi == old(session)@.hash_archi,
        vue_audit(r.1) == audit_retrogradation(r.0),
{
    session.retrograder()
}

pub fn sceller_cle_architecte(session: &mut Session, mdp: &str) -> (r: (Result<(), &'static str>, Option<String>))
    ensures
        final(session)@ == scellement_archi_v(old(session)@, octets(mdp)).1,
        r.0 == scellement_archi_v(old(session)@, octets(mdp)).0,
        vue_audit(r.1) == audit_scellement_archi(r.0),
{
    session.sceller_cle_architecte(mdp)
}

pub fn sceller_cle_administrateur(session: &mut Session, mdp: &str) -> (r: (Result<(), &'static str>, Option<String>))
    ensures
        final(session)@ == scellement_admin_v(old(session)@, octets(mdp)).1,
        r.0 == scellement_admin_v(old(session)@, octets(mdp)).0,
        vue_audit(r.1) == audit_scellement_admin(r.0),
{
    session.sceller_cle_administrateur(mdp)
}

/// Efface un tampon : chaque octet vaut zéro après l'appel.
pub fn zeroiser(tampon: &mut Vec<u8>)
    ensures
        final(tampon)@.len() == old(tampon)@.len(),
        forall|i: int| 0 <= i < final(tampon)@.len() ==> final(tampon)@[i] == 0,
{
    let n = tampon.len();
    let mut i: usize = 0;
    while i < n
        invariant
            i <= n,
            tampon@.len() == n,
            forall|j: int| 0 <= j < i ==> tampon@[j] == 0,
        decreases n - i,
    {
        tampon.set(i, 0);
        i = i + 1;
    }
}

pub fn tenter_elevation(session: &mut Session, cible: NiveauPrivilege, mdp: &str) -> (r: (
    Result<(), &'static str>,
    Option<String>,
))
    ensures
        r.0 == elevation_v(old(session)@, cible, octets(mdp)),
        final(session)@.hash_admin == old(session)@.hash_admin,
        final(session)@.hash_archi == old(session)@.hash_archi,
        r.0 is Ok ==> final(session)@.niveau == cible,
        r.0 is Err ==> final(session)@.niveau == old(session)@.niveau,
        vue_audit(r.1) == audit_elevation(old(session)@.niveau, cible, r.0),
{
    session.tenter_elevation(cible, mdp)
}

/// Une clé Architecte tout juste scellée ouvre le palier Architecte avec le même mot de passe.
pub proof fn loi_sceller_puis_elever(s: VueSession, mdp: Seq<u8>)
    requires
        s.hash_archi == Some(sha256_v(mdp)),
    ensures
        elevation_v(s, NiveauPrivilege::Architecte, mdp) is Ok,
{
}

/// Provisionnement à froid : depuis une session neuve, l'Opérateur scelle la clé Administrateur,
/// s'élève avec elle, puis scelle la clé Architecte, qui ouvre ensuite le palier Architecte ; sous
/// le palier Administrateur, la clé Architecte reste refusée.
pub proof fn loi_provisionnement(s: VueSession, adm: Seq<u8>, arc: Seq<u8>)
    requires
        s.niveau == NiveauPrivilege::Operateur,
        s.hash_admin is None,
        s.hash_archi is None,
        adm.len() >= 4,
        arc.len() >= 4,
    ensures
        scellement_archi_v(s, arc).0 is Err,
        scellement_archi_v(s, arc).1 == s,
        scellement_admin_v(s, adm).0 is Ok,
        elevation_v(scellement_admin_v(s, adm).1, NiveauPrivilege::Administrateur, adm) is Ok,
        ({
            let s2 = VueSession { niveau: NiveauPrivilege::Administrateur, ..scellement_admin_v(s, adm).1 };
            &&& scellement_archi_v(s2, arc).0 is Ok
            &&& elevation_v(scellement_archi_v(s2, arc).1, NiveauPrivilege::Architecte, arc) is Ok
        }),
{
}

/// L'élévation réussit exactement quand l'empreinte du mot de passe est celle de la clé.
pub proof fn loi_elevation_exacte(s: VueSession, cible: NiveauPrivilege, mdp: Seq<u8>)
    requires
        cible != NiveauPrivilege::Operateur,
    ensures
        elevation_v(s, cible, mdp) is Ok <==> (match cible {
            NiveauPrivilege::Administrateur => s.hash_admin == Some(sha256_v(mdp)),
            _ => s.hash_archi == Some(sha256_v(mdp)),
        }),
{
}

/// Les paliers sont emboîtés : qui a un palier a aussi tous les paliers inférieurs.
pub proof fn loi_privileges_emboites(courant: NiveauPrivilege, requis: NiveauPrivilege, moindre: NiveauPrivilege)
    requires
        rang(courant) >= rang(requis),
        rang(moindre) <= rang(requis),
    ensures
        rang(courant) >= rang(moindre),
        rang(courant) >= rang(NiveauPrivilege::Operateur),
{
}

} // verus!
