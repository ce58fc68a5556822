use vstd::prelude::*;
use std::string::String;
use std::vec::Vec;
use crate::texte::{egal, pousser_texte, texte_utf8, vers_chaine, vue_mots};

verus! {

/// Secteur du disque réservé au test.
pub const LBA_TEST: u64 = 100;

/// Message écrit puis relu par le test.
pub open spec fn message_dsk() -> Seq<char> {
    "QBX CENTURION SECURE STORAGE PERSISTENCE LAYER OK"@
}

/// Secteur écrit par le test : le message, complété par des zéros jusqu'à 512 octets.
pub open spec fn tampon_test_v() -> Seq<u8> {
    vstd::utf8::encode_utf8(message_dsk()) + Seq::new(463, |i: int| 0u8)
}

/// Le message tient en 49 octets ASCII.
pub proof fn lemme_message_dsk()
    ensures
        vstd::utf8::encode_utf8(message_dsk()).len() == 49,
{
    reveal_strlit("QBX CENTURION SECURE STORAGE PERSISTENCE LAYER OK");
    assert(vstd::utf8::is_ascii_chars(message_dsk()));
    vstd::utf8::is_ascii_chars_encode_utf8(message_dsk());
}

/// Secteur à écrire sur `LBA_TEST`.
pub fn tampon_test() -> (r: Vec<u8>)
    ensures
        r@ == tampon_test_v(),
        r@.len() == 512,
{
    let message = "QBX CENTURION SECURE STORAGE PERSISTENCE LAYER OK";
    proof {
        lemme_message_dsk();
    }
    let octets = message.as_bytes();
    let mut r: Vec<u8> = Vec::new();
    crate::octets::etendre(&mut r, octets);
    let zeros = crate::octets::zeros(463);
    crate::octets::etendre(&mut r, zeros.as_slice());
    assert(r@ =~= tampon_test_v());
    r
}

/// Texte relu : les 49 premiers octets décodés, ou "<invalide>" s'ils ne sont pas de l'UTF-8.
pub open spec fn texte_relu(b: Seq<u8>) -> Seq<char> {
    if vstd::utf8::valid_utf8(b.take(49)) {
        vstd::utf8::decode_utf8(b.take(49))
    } else {
        "<invalide>"@
    }
}

/// Lignes affichées par `dsk` d'après le résultat de l'écriture du secteur de test et celui de sa
/// relecture (faite seulement si l'écriture a réussi).
pub open spec fn dsk_v(ecriture: Result<(), &'static str>, lecture: Result<Seq<u8>, &'static str>) -> Seq<Seq<char>> {
    let titre = "--- Test d'intégrité E/S Disque SATA (LBA 100) ---"@;
    match ecriture {
        Err(e) => seq![titre, "[DSK] Écriture sur LBA 100... ÉCHEC ("@ + e@ + ")"@],
        Ok(_) => seq![titre, "[DSK] Écriture sur LBA 100... SUCCÈS"@] + match lecture {
            Err(e) => seq!["[DSK] Relecture LBA 100... ÉCHEC ("@ + e@ + ")"@],
            Ok(b) => seq![
                "[DSK] Relecture LBA 100... SUCCÈS"@,
                "      Données relues : \""@ + texte_relu(b) + "\""@,
                if texte_relu(b) == message_dsk() {
                    "[DSK] Persistance physique vérifiée à 100%."@
                } else {
                    "[DSK] Erreur : les données lues ne correspondent pas."@
                },
            ],
        } + seq!["--------------------------------------------------"@],
    }
}

/// Vue d'un résultat de lecture.
pub open spec fn vue_lecture(lecture: Result<&[u8], &'static str>) -> Result<Seq<u8>, &'static str> {
    match lecture {
        Ok(b) => Ok(b@),
        Err(e) => Err(e),
    }
}

/// Commande `dsk` : bilan du test d'écriture puis de relecture du secteur `LBA_TEST`.
pub fn executer(ecriture: Result<(), &'static str>, lecture: Result<&[u8], &'static str>) -> (r: Vec<String>)
    requires
        ecriture is Ok ==> (lecture matches Ok(b) ==> b@.len() == 512),
    ensures
        vue_mots(r@) == dsk_v(ecriture, vue_lecture(lecture)),
{
    let mut r: Vec<String> = Vec::new();
    r.push(vers_chaine("--- Test d'intégrité E/S Disque SATA (LBA 100) ---"));
    match ecriture {
        Err(e) => {
            let mut l = vers_chaine("[DSK] Écriture sur LBA 100... ÉCHEC (");
            pousser_texte(&mut l, e);
            pousser_texte(&mut l, ")");
            r.push(l);
            assert(vue_mots(r@) =~= dsk_v(ecriture, vue_lecture(lecture)));
            return r;
        },
        Ok(()) => {
            r.push(vers_chaine("[DSK] Écriture sur LBA 100... SUCCÈS"));
        },
    }
    let ghost entete = vue_mots(r@);
    let mut suite: Vec<String> = Vec::new();
    match lecture {
        Err(e) => {
            let mut l = vers_chaine("[DSK] Relecture LBA 100... ÉCHEC (");
            pousser_texte(&mut l, e);
            pousser_texte(&mut l, ")");
            suite.push(l);
        },
        Ok(b) => {
            suite.push(vers_chaine("[DSK] Relecture LBA 100... SUCCÈS"));
            let debut = crate::octets::extraire(b, 0, 49);
            assert(b@.subrange(0, 49) =~= b@.take(49));
            let lu = match texte_utf8(debut.as_slice()) {
                Some(s) => s,
                None => vers_chaine("<invalide>"),
            };
            assert(lu@ == texte_relu(b@));
            let mut l = vers_chaine("      Données relues : \"");
            pousser_texte(&mut l, lu.as_str());
            pousser_texte(&mut l, "\"");
            suite.push(l);
            if egal(lu.as_str(), "QBX CENTURION SECURE STORAGE PERSISTENCE LAYER OK") {
                suite.push(vers_chaine("[DSK] Persistance physique vérifiée à 100%."));
            } else {
                suite.push(vers_chaine("[DSK] Erreur : les données lues ne correspondent pas."));
            }
        },
    }
    suite.push(vers_chaine("--------------------------------------------------"));
    let mut i: usize = 0;
    while i < suite.len()
        invariant
            i <= suite@.len(),
            vue_mots(r@) == entete + vue_mots(suite@).take(i as int),
        decreases suite@.len() - i,
    {
        let l = vers_chaine(suite[i].as_str());
        let ghost avant = r@;
        r.push(l);
        i = i + 1;
        assert(vue_mots(r@) =~= vue_mots(avant).push(l@));
        assert(vue_mots(suite@).take(i as int) =~= vue_mots(suite@).take(i - 1).push(suite@[i - 1]@));
    }
    assert(vue_mots(suite@).take(i as int) =~= vue_mots(suite@));
    assert(vue_mots(r@) =~= dsk_v(ecriture, vue_lecture(lecture)));
    r
}

/// Un disque qui rend à la relecture le secteur écrit fait conclure le test à la persistance
/// vérifiée.
pub proof fn loi_relecture_fidele()
    ensures
        texte_relu(tampon_test_v()) == message_dsk(),
        dsk_v(Ok(()), Ok(tampon_test_v())) == seq![
            "--- Test d'intégrité E/S Disque SATA (LBA 100) ---"@,
            "[DSK] Écriture sur LBA 100... SUCCÈS"@,
            "[DSK] Relecture LBA 100... SUCCÈS"@,
            "      Données relues : \""@ + message_dsk() + "\""@,
            "[DSK] Persistance physique vérifiée à 100%."@,
            "--------------------------------------------------"@,
        ],
{
    lemme_message_dsk();
    let e = vstd::utf8::encode_utf8(message_dsk());
    assert(tampon_test_v().take(49) =~= e);
    vstd::utf8::encode_utf8_valid_utf8(message_dsk());
    vstd::utf8::encode_utf8_decode_utf8(message_dsk());
    assert(dsk_v(Ok(()), Ok(tampon_test_v())) =~= seq![
        "--- Test d'intégrité E/S Disque SATA (LBA 100) ---"@,
        "[DSK] Écriture sur LBA 100... SUCCÈS"@,
        "[DSK] Relecture LBA 100... SUCCÈS"@,
        "      Données relues : \""@ + message_dsk() + "\""@,
        "[DSK] Persistance physique vérifiée à 100%."@,
        "--------------------------------------------------"@,
    ]);
}

} // verus!
