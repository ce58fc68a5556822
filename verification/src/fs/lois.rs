use vstd::prelude::*;
use crate::fs::node::{
    a_enfant, acces, bien_forme, enfant, enfants_bien_formes, inserer_enfant, lemme_enfants_bien_formes, trie,
    lemme_inserer_enfant, lemme_retirer_enfant, retirer_enfant, Horodatage, NoeudV,
};
use crate::fs::arbre::{lemme_acces_bien_forme, lemme_acces_parent, lemme_acces_remplacer};
use crate::fs::{
    appliquer, avec_entrees, copier_v, decoder_flux, deplacer_v, dossier_a, encoder_entree, encoder_flux,
    lire_v, resoudre, EntreeV, VueFs,
};
use crate::fs::path::{decouper, element_utile, garder_utiles, nettoyer, point, point_point};
use crate::octets::{le16, le32, val16, val32, lemme_le16, lemme_le32};

verus! {

/// Le dossier dont on vient de remplacer les entrées se relit avec ces entrées.
proof fn lemme_dossier_apres(v: VueFs, enf2: Seq<(Seq<char>, NoeudV)>)
    requires
        bien_forme(v.racine),
        dossier_a(v.racine, v.cwd) is Some,
    ensures
        dossier_a(avec_entrees(v.racine, v.cwd, enf2), v.cwd) == Some(
            (enf2, dossier_a(v.racine, v.cwd).unwrap().1),
        ),
{
    lemme_acces_remplacer(
        v.racine,
        v.cwd,
        NoeudV::Dossier(enf2, dossier_a(v.racine, v.cwd).unwrap().1),
    );
}

/// Lire un fichier juste écrit rend ce qui a été écrit ; les autres noms lisent comme avant.
pub proof fn loi_lire_apres_ecrire(v: VueFs, nom: Seq<char>, donnees: Seq<u8>, h: Horodatage, autre: Seq<char>)
    requires
        bien_forme(v.racine),
        dossier_a(v.racine, v.cwd) is Some,
    ensures
        lire_v(
            VueFs {
                racine: avec_entrees(
                    v.racine,
                    v.cwd,
                    inserer_enfant(dossier_a(v.racine, v.cwd).unwrap().0, nom, NoeudV::Fichier(donnees, h)),
                ),
                cwd: v.cwd,
            },
            nom,
        ) == Some(donnees),
        autre != nom ==> lire_v(
            VueFs {
                racine: avec_entrees(
                    v.racine,
                    v.cwd,
                    inserer_enfant(dossier_a(v.racine, v.cwd).unwrap().0, nom, NoeudV::Fichier(donnees, h)),
                ),
                cwd: v.cwd,
            },
            autre,
        ) == lire_v(v, autre),
{
    let enf = dossier_a(v.racine, v.cwd).unwrap().0;
    lemme_acces_bien_forme(v.racine, v.cwd);
    lemme_inserer_enfant(enf, nom, NoeudV::Fichier(donnees, h));
    lemme_dossier_apres(v, inserer_enfant(enf, nom, NoeudV::Fichier(donnees, h)));
}

/// Un fichier supprimé ne se lit plus ; les autres noms lisent comme avant.
pub proof fn loi_lire_apres_supprimer(v: VueFs, nom: Seq<char>, autre: Seq<char>)
    requires
        bien_forme(v.racine),
        dossier_a(v.racine, v.cwd) is Some,
    ensures
        lire_v(
            VueFs {
                racine: avec_entrees(v.racine, v.cwd, retirer_enfant(dossier_a(v.racine, v.cwd).unwrap().0, nom)),
                cwd: v.cwd,
            },
            nom,
        ) is None,
        autre != nom ==> lire_v(
            VueFs {
                racine: avec_entrees(v.racine, v.cwd, retirer_enfant(dossier_a(v.racine, v.cwd).unwrap().0, nom)),
                cwd: v.cwd,
            },
            autre,
        ) == lire_v(v, autre),
{
    let enf = dossier_a(v.racine, v.cwd).unwrap().0;
    lemme_acces_bien_forme(v.racine, v.cwd);
    lemme_retirer_enfant(enf, nom);
    lemme_dossier_apres(v, retirer_enfant(enf, nom));
}

/// Après un renommage, le nouveau nom se lit comme l'ancien se lisait, et l'ancien ne se lit plus.
pub proof fn loi_lire_apres_renommer(v: VueFs, ancien: Seq<char>, nouveau: Seq<char>)
    requires
        bien_forme(v.racine),
        dossier_a(v.racine, v.cwd) is Some,
        a_enfant(dossier_a(v.racine, v.cwd).unwrap().0, ancien),
        ancien != nouveau,
    ensures
        ({
            let enf = dossier_a(v.racine, v.cwd).unwrap().0;
            let apres = VueFs {
                racine: avec_entrees(
                    v.racine,
                    v.cwd,
                    inserer_enfant(retirer_enfant(enf, ancien), nouveau, enfant(enf, ancien).unwrap()),
                ),
                cwd: v.cwd,
            };
            &&& lire_v(apres, nouveau) == lire_v(v, ancien)
            &&& lire_v(apres, ancien) is None
        }),
{
    let enf = dossier_a(v.racine, v.cwd).unwrap().0;
    lemme_acces_bien_forme(v.racine, v.cwd);
    lemme_retirer_enfant(enf, ancien);
    let r = retirer_enfant(enf, ancien);
    lemme_inserer_enfant(r, nouveau, enfant(enf, ancien).unwrap());
    lemme_dossier_apres(v, inserer_enfant(r, nouveau, enfant(enf, ancien).unwrap()));
}

/// Après une copie réussie, la destination contient exactement ce que contenait la source.
pub proof fn loi_copie_identique(v: VueFs, source: Seq<char>, cible: Seq<char>, recursif: bool)
    requires
        bien_forme(v.racine),
        copier_v(v, source, cible, recursif).1 is Ok,
    ensures
        ({
            let cs = resoudre(v.cwd, source);
            let cd = crate::fs::arrivee(v.racine, resoudre(v.cwd, cible), cs.last());
            acces(copier_v(v, source, cible, recursif).0, cd) == acces(v.racine, cs)
        }),
{
    let r = v.racine;
    let cs = resoudre(v.cwd, source);
    let cd = crate::fs::arrivee(r, resoudre(v.cwd, cible), cs.last());
    let x = acces(r, cs).unwrap();
    let pd = cd.drop_last();
    let (enf, hd) = dossier_a(r, pd).unwrap();
    lemme_acces_bien_forme(r, pd);
    lemme_inserer_enfant(enf, cd.last(), x);
    let nouv = NoeudV::Dossier(inserer_enfant(enf, cd.last(), x), hd);
    lemme_acces_remplacer(r, pd, nouv);
    lemme_acces_parent(avec_entrees(r, pd, inserer_enfant(enf, cd.last(), x)), cd);
}

/// Après un déplacement réussi, la destination contient exactement ce que contenait la source.
pub proof fn loi_deplacement_identique(v: VueFs, source: Seq<char>, cible: Seq<char>)
    requires
        bien_forme(v.racine),
        deplacer_v(v, source, cible).1 is Ok,
    ensures
        ({
            let cs = resoudre(v.cwd, source);
            let cd = crate::fs::arrivee(v.racine, resoudre(v.cwd, cible), cs.last());
            acces(deplacer_v(v, source, cible).0, cd) == acces(v.racine, cs)
        }),
{
    let r = v.racine;
    let cs = resoudre(v.cwd, source);
    let cd = crate::fs::arrivee(r, resoudre(v.cwd, cible), cs.last());
    let x = acces(r, cs).unwrap();
    let ps = cs.drop_last();
    let pd = cd.drop_last();
    let (enf, hs) = dossier_a(r, ps).unwrap();
    lemme_acces_bien_forme(r, ps);
    lemme_retirer_enfant(enf, cs.last());
    lemme_enfants_bien_formes(enf);
    lemme_acces_parent(r, cs);
    let sans = NoeudV::Dossier(retirer_enfant(enf, cs.last()), hs);
    assert(bien_forme(sans)) by {
        crate::fs::lois::lemme_retirer_bien_forme(enf, cs.last());
    }
    crate::fs::arbre::lemme_remplacer_bien_forme(r, ps, sans);
    let r1 = avec_entrees(r, ps, retirer_enfant(enf, cs.last()));
    let (enf2, hd) = dossier_a(r1, pd).unwrap();
    lemme_acces_bien_forme(r1, pd);
    lemme_inserer_enfant(enf2, cd.last(), x);
    let nouv = NoeudV::Dossier(inserer_enfant(enf2, cd.last(), x), hd);
    lemme_acces_remplacer(r1, pd, nouv);
    lemme_acces_parent(avec_entrees(r1, pd, inserer_enfant(enf2, cd.last(), x)), cd);
}

/// Retirer une entrée d'un dossier bien formé le laisse bien formé.
pub proof fn lemme_retirer_bien_forme(enf: Seq<(Seq<char>, NoeudV)>, nom: Seq<char>)
    requires
        trie(enf),
        enfants_bien_formes(enf),
    ensures
        trie(retirer_enfant(enf, nom)),
        enfants_bien_formes(retirer_enfant(enf, nom)),
{
    lemme_enfants_bien_formes(enf);
    lemme_retirer_enfant(enf, nom);
    let t = retirer_enfant(enf, nom);
    if a_enfant(enf, nom) {
        let i = crate::fs::node::indice(enf, nom);
        assert forall|j: int| 0 <= j < t.len() implies bien_forme(#[trigger] t[j].1) by {
            if j < i {
                assert(t[j] == enf[j]);
            } else {
                assert(t[j] == enf[j + 1]);
            }
        }
    }
    lemme_enfants_bien_formes(t);
}


/// Nom d'un seul élément : non vide, sans '/', ni '.' ni '..'.
pub open spec fn nom_simple(nom: Seq<char>) -> bool {
    &&& nom.len() != 0
    &&& forall|i: int| 0 <= i < nom.len() ==> nom[i] != '/'
    &&& nom != point()
    &&& nom != point_point()
}

proof fn lemme_decouper_sans_barre(s: Seq<char>)
    requires
        forall|i: int| 0 <= i < s.len() ==> s[i] != '/',
    ensures
        decouper(s) == seq![s],
    decreases s.len(),
{
    if s.len() > 0 {
        lemme_decouper_sans_barre(s.drop_last());
        assert(s.drop_last().push(s.last()) =~= s);
        assert(s.last() != '/');
        let d = decouper(s.drop_last());
        assert(d.len() == 1);
        assert(d.last() == s.drop_last());
        assert(decouper(s) == d.update(0, s.drop_last().push(s.last())));
        assert(d.update(0, s.drop_last().push(s.last())) =~= seq![s.drop_last().push(s.last())]);
        assert(s.drop_last().push(s.last()) == s);
        assert(decouper(s) =~= seq![s]);
    } else {
        assert(s =~= Seq::<char>::empty());
        assert(decouper(s) =~= seq![s]);
    }
}

/// Un nom simple désigne l'entrée de ce nom dans le répertoire courant.
pub proof fn lemme_resoudre_nom_simple(cwd: Seq<Seq<char>>, nom: Seq<char>)
    requires
        nom_simple(nom),
    ensures
        resoudre(cwd, nom) == cwd.push(nom),
{
    lemme_decouper_sans_barre(nom);
    assert(element_utile(nom));
    let d = seq![nom];
    assert(d.drop_last() =~= Seq::<Seq<char>>::empty());
    assert(garder_utiles(d.drop_last()) == Seq::<Seq<char>>::empty());
    assert(garder_utiles(d) =~= seq![nom]);
    let e = nettoyer(nom);
    assert(e =~= seq![nom]);
    assert(e.drop_last() =~= Seq::<Seq<char>>::empty());
    assert(appliquer(cwd, e.drop_last()) == cwd);
    assert(e.last() == nom);
    assert(appliquer(cwd, e) == cwd.push(nom));
}

/// Après la création d'un sous-répertoire, s'y rendre par son nom réussit : il est vide.
pub proof fn loi_creer_puis_changer(v: VueFs, nom: Seq<char>, h: Horodatage)
    requires
        bien_forme(v.racine),
        dossier_a(v.racine, v.cwd) is Some,
        !a_enfant(dossier_a(v.racine, v.cwd).unwrap().0, nom),
        nom_simple(nom),
    ensures
        dossier_a(
            avec_entrees(
                v.racine,
                v.cwd,
                inserer_enfant(dossier_a(v.racine, v.cwd).unwrap().0, nom, NoeudV::Dossier(Seq::empty(), h)),
            ),
            resoudre(v.cwd, nom),
        ) == Some((Seq::<(Seq<char>, NoeudV)>::empty(), h)),
{
    let enf = dossier_a(v.racine, v.cwd).unwrap().0;
    let d = NoeudV::Dossier(Seq::empty(), h);
    lemme_acces_bien_forme(v.racine, v.cwd);
    lemme_inserer_enfant(enf, nom, d);
    lemme_dossier_apres(v, inserer_enfant(enf, nom, d));
    lemme_resoudre_nom_simple(v.cwd, nom);
    let apres = avec_entrees(v.racine, v.cwd, inserer_enfant(enf, nom, d));
    let p = v.cwd.push(nom);
    assert(p.drop_last() =~= v.cwd);
    lemme_acces_parent(apres, p);
}

// ---------------------------------------------------------------------------
// Flux : relire ce qui a été écrit
// ---------------------------------------------------------------------------

/// Entrée que le format du flux sait représenter.
pub open spec fn encodable(e: EntreeV) -> bool {
    &&& vstd::utf8::encode_utf8(e.0).len() <= 0xFFFF
    &&& e.1 ==> e.2.len() == 0
    &&& !e.1 ==> e.2.len() <= 0xFFFF_FFFF
}

proof fn lemme_encoder_tete(s: Seq<EntreeV>)
    requires
        s.len() > 0,
    ensures
        encoder_flux(s) == encoder_entree(s[0]) + encoder_flux(s.drop_first()),
    decreases s.len(),
{
    if s.len() == 1 {
        assert(s.drop_last() =~= Seq::<EntreeV>::empty());
        assert(s.drop_first() =~= Seq::<EntreeV>::empty());
        assert(encoder_flux(s.drop_first()) == Seq::<u8>::empty());
        assert(encoder_entree(s[0]) + Seq::<u8>::empty() =~= encoder_entree(s[0]));
    } else {
        lemme_encoder_tete(s.drop_last());
        assert(s.drop_last().drop_first() =~= s.drop_first().drop_last());
        assert(s.drop_first().last() == s.last());
        assert(s.drop_last()[0] == s[0]);
        assert(encoder_flux(s.drop_first()) == encoder_flux(s.drop_first().drop_last()) + encoder_entree(
            s.drop_first().last(),
        ));
        assert(encoder_flux(s) =~= encoder_entree(s[0]) + encoder_flux(s.drop_first()));
    }
}

proof fn lemme_decoder_une(e: EntreeV, reste: Seq<u8>)
    requires
        encodable(e),
    ensures
        decoder_flux(encoder_entree(e) + reste) == seq![e] + decoder_flux(reste),
{
    let chemin = vstd::utf8::encode_utf8(e.0);
    let l = chemin.len() as u16;
    let f = encoder_entree(e) + reste;
    let tete = seq![if e.1 { 1u8 } else { 0u8 }, e.3.heure, e.3.minute, e.3.seconde] + le16(l);
    lemme_le16(l);
    assert(f[4] == le16(l)[0]);
    assert(f[5] == le16(l)[1]);
    assert(l as nat == chemin.len());
    vstd::utf8::encode_utf8_valid_utf8(e.0);
    vstd::utf8::encode_utf8_decode_utf8(e.0);
    let suite = if e.1 {
        Seq::<u8>::empty()
    } else {
        le32(e.2.len() as u32) + e.2
    };
    assert(f =~= tete + chemin + suite + reste);
    assert(f.skip(6) =~= chemin + suite + reste);
    assert(f.skip(6).take(chemin.len() as int) =~= chemin);
    assert(f.skip(6).skip(chemin.len() as int) =~= suite + reste);
    let h = Horodatage { heure: f[1], minute: f[2], seconde: f[3] };
    assert(h == e.3);
    if e.1 {
        assert(suite + reste =~= reste);
        assert(e.2 =~= Seq::<u8>::empty());
    } else {
        let r2 = suite + reste;
        lemme_le32(e.2.len() as u32);
        assert(r2[0] == le32(e.2.len() as u32)[0]);
        assert(r2[1] == le32(e.2.len() as u32)[1]);
        assert(r2[2] == le32(e.2.len() as u32)[2]);
        assert(r2[3] == le32(e.2.len() as u32)[3]);
        assert(r2.skip(4) =~= e.2 + reste);
        assert(r2.skip(4).take(e.2.len() as int) =~= e.2);
        assert(r2.skip(4).skip(e.2.len() as int) =~= reste);
    }
}

/// Relire un flux écrit rend les entrées écrites, tant que chacune tient dans le format.
pub proof fn loi_flux_aller_retour(s: Seq<EntreeV>)
    requires
        forall|i: int| 0 <= i < s.len() ==> encodable(#[trigger] s[i]),
    ensures
        decoder_flux(encoder_flux(s)) == s,
    decreases s.len(),
{
    if s.len() == 0 {
        assert(decoder_flux(Seq::<u8>::empty()) =~= Seq::<EntreeV>::empty());
    } else {
        lemme_encoder_tete(s);
        assert forall|i: int| 0 <= i < s.drop_first().len() implies encodable(#[trigger] s.drop_first()[i]) by {
            assert(s.drop_first()[i] == s[i + 1]);
        }
        loi_flux_aller_retour(s.drop_first());
        assert(encodable(s[0]));
        lemme_decoder_une(s[0], encoder_flux(s.drop_first()));
        assert(seq![s[0]] + s.drop_first() =~= s);
    }
}

} // verus!
