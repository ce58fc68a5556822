use vstd::prelude::*;
use std::string::String;
use std::vec::Vec;
use crate::texte::{analyser_u8, analyser_u8_v, caracteres, couper, egal, morceaux, vue_mots};

verus! {

/// Adresse IPv4 "A.B.C.D" : exactement quatre octets décimaux séparés par des points.
pub open spec fn ip_v(s: Seq<char>) -> Option<Seq<u8>> {
    let m = morceaux(s, '.');
    if m.len() != 4 {
        None
    } else if analyser_u8_v(m[0]) is None || analyser_u8_v(m[1]) is None || analyser_u8_v(m[2]) is None
        || analyser_u8_v(m[3]) is None {
        None
    } else {
        Some(
            seq![
                analyser_u8_v(m[0])->0,
                analyser_u8_v(m[1])->0,
                analyser_u8_v(m[2])->0,
                analyser_u8_v(m[3])->0,
            ],
        )
    }
}

/// Lit les `n` octets décimaux séparés par des points d'un texte ; rien si le nombre de morceaux
/// diffère ou si un morceau n'est pas un octet.
fn octets_pointes(s: &str, n: usize) -> (r: Option<Vec<u8>>)
    ensures
        ({
            let m = morceaux(s@, '.');
            match r {
                None => m.len() != n || exists|i: int| 0 <= i < n && #[trigger] analyser_u8_v(m[i]) is None,
                Some(v) => m.len() == n && v@.len() == n && forall|i: int|
                    0 <= i < n ==> #[trigger] analyser_u8_v(m[i]) == Some(v@[i]),
            }
        }),
{
    let c = caracteres(s);
    let parties = couper(&c, '.');
    if parties.len() != n {
        return None;
    }
    let ghost m = morceaux(s@, '.');
    let mut v: Vec<u8> = Vec::new();
    let mut i: usize = 0;
    while i < n
        invariant
            vue_mots(parties@) == m,
            m == morceaux(s@, '.'),
            parties@.len() == n,
            i <= n,
            v@.len() == i,
            forall|k: int| 0 <= k < i ==> #[trigger] analyser_u8_v(m[k]) == Some(v@[k]),
        decreases n - i,
    {
        proof {
            assert(vue_mots(parties@)[i as int] == parties@[i as int]@);
        }
        match analyser_u8(parties[i].as_str()) {
            Some(o) => {
                v.push(o);
            },
            None => {
                return None;
            },
        }
        i = i + 1;
    }
    Some(v)
}

/// Lit une adresse IPv4 "A.B.C.D".
pub fn parser_ip(ip_str: &str) -> (r: Option<[u8; 4]>)
    ensures
        match ip_v(ip_str@) {
            Some(ip) => r matches Some(a) && a@ == ip,
            None => r is None,
        },
{
    match octets_pointes(ip_str, 4) {
        Some(v) => {
            let a = [v[0], v[1], v[2], v[3]];
            proof {
                let m = morceaux(ip_str@, '.');
                assert(analyser_u8_v(m[0]) == Some(v@[0]));
                assert(analyser_u8_v(m[1]) == Some(v@[1]));
                assert(analyser_u8_v(m[2]) == Some(v@[2]));
                assert(analyser_u8_v(m[3]) == Some(v@[3]));
                assert(a@ =~= ip_v(ip_str@)->0);
            }
            Some(a)
        },
        None => None,
    }
}

/// Préfixe de sous-réseau "A.B.C".
pub open spec fn prefixe_v(s: Seq<char>) -> Option<Seq<u8>> {
    let m = morceaux(s, '.');
    if m.len() != 3 {
        None
    } else if analyser_u8_v(m[0]) is None || analyser_u8_v(m[1]) is None || analyser_u8_v(m[2]) is None {
        None
    } else {
        Some(seq![analyser_u8_v(m[0])->0, analyser_u8_v(m[1])->0, analyser_u8_v(m[2])->0])
    }
}

/// Lecture d'un préfixe de balayage.
pub enum Prefixe {
    /// Le texte n'a pas trois morceaux séparés par des points.
    Invalide,
    /// Un morceau n'est pas un octet décimal.
    Illisible,
    /// Les trois premiers octets des adresses à sonder.
    Valide([u8; 3]),
}

/// Lit un préfixe "A.B.C" : les hôtes A.B.C.1 à A.B.C.15 seront sondés.
pub fn parser_prefixe(prefixe: &str) -> (r: Prefixe)
    ensures
        r is Invalide <==> morceaux(prefixe@, '.').len() != 3,
        r is Illisible <==> morceaux(prefixe@, '.').len() == 3 && prefixe_v(prefixe@) is None,
        r matches Prefixe::Valide(a) ==> prefixe_v(prefixe@) == Some(a@),
{
    let c = caracteres(prefixe);
    let parties = couper(&c, '.');
    if parties.len() != 3 {
        return Prefixe::Invalide;
    }
    match octets_pointes(prefixe, 3) {
        Some(v) => {
            let a = [v[0], v[1], v[2]];
            proof {
                let m = morceaux(prefixe@, '.');
                assert(analyser_u8_v(m[0]) == Some(v@[0]));
                assert(analyser_u8_v(m[1]) == Some(v@[1]));
                assert(analyser_u8_v(m[2]) == Some(v@[2]));
                assert(a@ =~= prefixe_v(prefixe@)->0);
            }
            Prefixe::Valide(a)
        },
        None => {
            proof {
                let m = morceaux(prefixe@, '.');
                let i = choose|i: int| 0 <= i < 3 && #[trigger] analyser_u8_v(m[i]) is None;
                assert(analyser_u8_v(m[i]) is None);
            }
            Prefixe::Illisible
        },
    }
}

/// Trame ARP de requête (60 octets) : diffusion Ethernet depuis `mac_src`, demande de l'adresse
/// matérielle de `ip_dst` au nom de `ip_src`, complétée de zéros.
pub open spec fn requete_arp_v(mac_src: Seq<u8>, ip_src: Seq<u8>, ip_dst: Seq<u8>) -> Seq<u8> {
    seq![0xFFu8, 0xFF, 0xFF, 0xFF, 0xFF, 0xFF] + mac_src + seq![0x08u8, 0x06] + seq![0x00u8, 0x01] + seq![
        0x08u8,
        0x00,
    ] + seq![6u8, 4u8] + seq![0x00u8, 0x01] + mac_src + ip_src + seq![0u8, 0, 0, 0, 0, 0] + ip_dst
        + Seq::new(18, |i: int| 0u8)
}

/// Forge une requête ARP.
pub fn forger_requete_arp(mac_src: [u8; 6], ip_src: [u8; 4], ip_dst: [u8; 4]) -> (r: Vec<u8>)
    ensures
        r@ == requete_arp_v(mac_src@, ip_src@, ip_dst@),
{
    let mut trame: Vec<u8> = Vec::new();
    let mut i: usize = 0;
    while i < 6
        invariant
            i <= 6,
            trame@ == Seq::new(i as nat, |k: int| 0xFFu8),
        decreases 6 - i,
    {
        trame.push(0xFF);
        i = i + 1;
        assert(trame@ =~= Seq::new(i as nat, |k: int| 0xFFu8));
    }
    crate::octets::etendre(&mut trame, &mac_src);
    trame.push(0x08);
    trame.push(0x06);
    trame.push(0x00);
    trame.push(0x01);
    trame.push(0x08);
    trame.push(0x00);
    trame.push(6);
    trame.push(4);
    trame.push(0x00);
    trame.push(0x01);
    crate::octets::etendre(&mut trame, &mac_src);
    crate::octets::etendre(&mut trame, &ip_src);
    let zeros = crate::octets::zeros(6);
    crate::octets::etendre(&mut trame, zeros.as_slice());
    crate::octets::etendre(&mut trame, &ip_dst);
    let ghost avant = trame@;
    while trame.len() < 60
        invariant
            avant.len() == 42,
            42 <= trame@.len() <= 60,
            trame@ == avant + Seq::new((trame@.len() - 42) as nat, |k: int| 0u8),
        decreases 60 - trame@.len(),
    {
        trame.push(0x00);
        assert(trame@ =~= avant + Seq::new((trame@.len() - 42) as nat, |k: int| 0u8));
    }
    assert(trame@ =~= requete_arp_v(mac_src@, ip_src@, ip_dst@));
    trame
}

/// Réponse ARP reconnue dans une trame reçue : trame d'au moins 42 octets de type ARP, opération
/// « réponse », émise par `ip_cible` ; rend l'adresse IP et l'adresse matérielle de l'émetteur.
pub open spec fn reponse_arp_v(d: Seq<u8>, ip_cible: Seq<u8>) -> Option<(Seq<u8>, Seq<u8>)> {
    if d.len() >= 42 && d[12] == 0x08 && d[13] == 0x06 && d[20] as nat * 256 + d[21] as nat == 2
        && d.subrange(28, 32) == ip_cible {
        Some((d.subrange(28, 32), d.subrange(22, 28)))
    } else {
        None
    }
}

/// Examine une trame reçue en attendant la réponse ARP de `ip_cible`.
pub fn analyser_reponse_arp(donnees: &[u8], ip_cible: [u8; 4]) -> (r: Option<([u8; 4], [u8; 6])>)
    ensures
        match reponse_arp_v(donnees@, ip_cible@) {
            Some((ip, mac)) => r matches Some((a, b)) && a@ == ip && b@ == mac,
            None => r is None,
        },
{
    if donnees.len() >= 42 && donnees[12] == 0x08 && donnees[13] == 0x06 {
        let op = ((donnees[20] as u16) << 8u16) | (donnees[21] as u16);
        let hi = donnees[20];
        let lo = donnees[21];
        assert(op == hi as nat * 256 + lo as nat) by (bit_vector)
            requires
                op == ((hi as u16) << 8u16) | (lo as u16),
        ;
        if op == 2 {
            let ip_emetteur = [donnees[28], donnees[29], donnees[30], donnees[31]];
            if ip_emetteur[0] == ip_cible[0] && ip_emetteur[1] == ip_cible[1] && ip_emetteur[2] == ip_cible[2]
                && ip_emetteur[3] == ip_cible[3] {
                let mac = [donnees[22], donnees[23], donnees[24], donnees[25], donnees[26], donnees[27]];
                assert(ip_emetteur@ =~= donnees@.subrange(28, 32));
                assert(ip_emetteur@ =~= ip_cible@);
                assert(mac@ =~= donnees@.subrange(22, 28));
                return Some((ip_emetteur, mac));
            } else {
                proof {
                    if donnees@.subrange(28, 32) == ip_cible@ {
                        assert(donnees@.subrange(28, 32)[0] == ip_cible@[0]);
                        assert(donnees@.subrange(28, 32)[1] == ip_cible@[1]);
                        assert(donnees@.subrange(28, 32)[2] == ip_cible@[2]);
                        assert(donnees@.subrange(28, 32)[3] == ip_cible@[3]);
                    }
                }
            }
        }
    }
    None
}

/// Ce que demande la commande `probe`.
pub enum ActionProbe {
    /// L'interface réseau n'a pas d'adresse matérielle.
    InterfaceAbsente,
    /// Aucun argument : afficher l'aide.
    Usage,
    /// `scan` sans préfixe : afficher l'aide du balayage.
    UsageScan,
    /// Balayer le sous-réseau donné.
    Balayer(String),
    /// Sonder l'hôte donné.
    Sonder(String),
}

pub enum ActionProbeV {
    InterfaceAbsente,
    Usage,
    UsageScan,
    Balayer(Seq<char>),
    Sonder(Seq<char>),
}

pub open spec fn vue_action_probe(a: ActionProbe) -> ActionProbeV {
    match a {
        ActionProbe::InterfaceAbsente => ActionProbeV::InterfaceAbsente,
        ActionProbe::Usage => ActionProbeV::Usage,
        ActionProbe::UsageScan => ActionProbeV::UsageScan,
        ActionProbe::Balayer(p) => ActionProbeV::Balayer(p@),
        ActionProbe::Sonder(p) => ActionProbeV::Sonder(p@),
    }
}

/// Choix de la commande `probe` d'après l'adresse matérielle de l'interface et les arguments.
pub open spec fn probe_v(mac: Seq<u8>, args: Seq<Seq<char>>) -> ActionProbeV {
    if mac == seq![0u8, 0, 0, 0, 0, 0] {
        ActionProbeV::InterfaceAbsente
    } else if args.len() == 0 {
        ActionProbeV::Usage
    } else if args[0] == "scan"@ {
        if args.len() < 2 {
            ActionProbeV::UsageScan
        } else {
            ActionProbeV::Balayer(args[1])
        }
    } else {
        ActionProbeV::Sonder(args[0])
    }
}

/// Commande `probe <ip>` ou `probe scan <prefixe>`.
pub fn executer(args: &Vec<String>, mac_source: [u8; 6]) -> (r: ActionProbe)
    ensures
        vue_action_probe(r) == probe_v(mac_source@, vue_mots(args@)),
{
    if mac_source[0] == 0 && mac_source[1] == 0 && mac_source[2] == 0 && mac_source[3] == 0
        && mac_source[4] == 0 && mac_source[5] == 0 {
        assert(mac_source@ =~= seq![0u8, 0, 0, 0, 0, 0]);
        return ActionProbe::InterfaceAbsente;
    }
    proof {
        if mac_source@ == seq![0u8, 0, 0, 0, 0, 0] {
            assert(mac_source@[0] == 0 && mac_source@[1] == 0 && mac_source@[2] == 0);
            assert(mac_source@[3] == 0 && mac_source@[4] == 0 && mac_source@[5] == 0);
        }
    }
    if args.len() == 0 {
        return ActionProbe::Usage;
    }
    proof {
        assert(vue_mots(args@)[0] == args@[0]@);
    }
    if egal(args[0].as_str(), "scan") {
        if args.len() < 2 {
            return ActionProbe::UsageScan;
        }
        proof {
            assert(vue_mots(args@)[1] == args@[1]@);
        }
        ActionProbe::Balayer(crate::texte::vers_chaine(args[1].as_str()))
    } else {
        ActionProbe::Sonder(crate::texte::vers_chaine(args[0].as_str()))
    }
}

} // verus!
