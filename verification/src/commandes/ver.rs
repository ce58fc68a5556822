use vstd::prelude::*;
use std::string::String;
use std::vec::Vec;
use crate::texte::{caracteres, decouper_mots, mots, pousser_car, pousser_texte, rogner, rogner_v, vers_chaine, vue_mots};

verus! {

/// Champs choisis : nom du système, nom de la machine, version, révision, architecture.
pub struct Champs {
    pub s: bool,
    pub n: bool,
    pub r: bool,
    pub v: bool,
    pub m: bool,
}

/// Prise en compte d'une option : `a` choisit tout, `s n r v` un champ, `m` ou `p` l'architecture ;
/// toute autre lettre est refusée.
pub open spec fn option_ver(c: Champs, x: char) -> Result<Champs, char> {
    if x == 'a' {
        Ok(Champs { s: true, n: true, r: true, v: true, m: true })
    } else if x == 's' {
        Ok(Champs { s: true, ..c })
    } else if x == 'n' {
        Ok(Champs { n: true, ..c })
    } else if x == 'r' {
        Ok(Champs { r: true, ..c })
    } else if x == 'v' {
        Ok(Champs { v: true, ..c })
    } else if x == 'm' || x == 'p' {
        Ok(Champs { m: true, ..c })
    } else {
        Err(x)
    }
}

/// Options d'une suite de lettres, arrêtées à la première lettre refusée.
pub open spec fn options_lettres(c: Champs, l: Seq<char>) -> Result<Champs, char>
    decreases l.len(),
{
    if l.len() == 0 {
        Ok(c)
    } else {
        match options_lettres(c, l.drop_last()) {
            Err(x) => Err(x),
            Ok(c2) => option_ver(c2, l.last()),
        }
    }
}

/// Options de tous les mots qui commencent par '-'.
pub open spec fn options_ver(ws: Seq<Seq<char>>) -> Result<Champs, char>
    decreases ws.len(),
{
    if ws.len() == 0 {
        Ok(Champs { s: false, n: false, r: false, v: false, m: false })
    } else {
        match options_ver(ws.drop_last()) {
            Err(x) => Err(x),
            Ok(c) => if ws.last().len() > 0 && ws.last()[0] == '-' {
                options_lettres(c, ws.last().drop_first())
            } else {
                Ok(c)
            },
        }
    }
}

/// Champs choisis, séparés par des espaces.
pub open spec fn ligne_champs(c: Champs) -> Seq<char> {
    let l = Seq::<Seq<char>>::empty();
    let l = if c.s { l.push("QBX"@) } else { l };
    let l = if c.n { l.push("qbx-box"@) } else { l };
    let l = if c.r { l.push("0.1-EXP"@) } else { l };
    let l = if c.v { l.push("Microkernel Bare-Metal"@) } else { l };
    let l = if c.m { l.push("x86_64"@) } else { l };
    joindre_espaces(l)
}

pub open spec fn joindre_espaces(l: Seq<Seq<char>>) -> Seq<char>
    decreases l.len(),
{
    if l.len() == 0 {
        Seq::empty()
    } else if l.len() == 1 {
        l[0]
    } else {
        joindre_espaces(l.drop_last()) + seq![' '] + l.last()
    }
}

/// Lignes affichées par `ver [-asnmrv]`.
pub open spec fn ver_v(args: Seq<char>) -> Seq<Seq<char>> {
    let a = rogner_v(args);
    if a.len() == 0 {
        seq!["QBX 0.1-EXP (x86_64)"@]
    } else {
        match options_ver(mots(a)) {
            Err(x) => seq!["ver: option invalide -- '"@ + seq![x] + "'"@, "usage: ver [-asnmrv]"@],
            Ok(c) => seq![ligne_champs(c)],
        }
    }
}

fn lettres_x(c: Champs, mot: &String) -> (r: Result<Champs, char>)
    requires
        mot@.len() > 0,
    ensures
        r == options_lettres(c, mot@.drop_first()),
{
    let v = caracteres(mot.as_str());
    let mut ch = c;
    let mut i: usize = 1;
    while i < v.len()
        invariant
            v@ == mot@,
            1 <= i <= v@.len(),
            options_lettres(c, mot@.drop_first().take(i - 1)) == Ok::<Champs, char>(ch),
        decreases v@.len() - i,
    {
        proof {
            assert(mot@.drop_first().take(i as int).drop_last() =~= mot@.drop_first().take(i - 1));
            assert(mot@.drop_first().take(i as int).last() == v@[i as int]);
        }
        let x = v[i];
        if x == 'a' {
            ch = Champs { s: true, n: true, r: true, v: true, m: true };
        } else if x == 's' {
            ch = Champs { s: true, ..ch };
        } else if x == 'n' {
            ch = Champs { n: true, ..ch };
        } else if x == 'r' {
            ch = Champs { r: true, ..ch };
        } else if x == 'v' {
            ch = Champs { v: true, ..ch };
        } else if x == 'm' || x == 'p' {
            ch = Champs { m: true, ..ch };
        } else {
            proof {
                lemme_erreur_persiste(c, mot@.drop_first(), i as int);
            }
            return Err(x);
        }
        i = i + 1;
    }
    assert(mot@.drop_first().take(v@.len() - 1) =~= mot@.drop_first());
    Ok(ch)
}

proof fn lemme_erreur_persiste(c: Champs, l: Seq<char>, i: int)
    requires
        1 <= i <= l.len(),
        options_lettres(c, l.take(i)) is Err,
    ensures
        options_lettres(c, l) == options_lettres(c, l.take(i)),
    decreases l.len() - i,
{
    if i < l.len() {
        assert(l.take(i + 1).drop_last() =~= l.take(i));
        lemme_erreur_persiste(c, l, i + 1);
    } else {
        assert(l.take(i) =~= l);
    }
}

proof fn lemme_erreur_persiste_mots(ws: Seq<Seq<char>>, i: int)
    requires
        0 <= i <= ws.len(),
        options_ver(ws.take(i)) is Err,
    ensures
        options_ver(ws) == options_ver(ws.take(i)),
    decreases ws.len() - i,
{
    if i < ws.len() {
        assert(ws.take(i + 1).drop_last() =~= ws.take(i));
        lemme_erreur_persiste_mots(ws, i + 1);
    } else {
        assert(ws.take(i) =~= ws);
    }
}

/// Commande `ver [-asnmrv]` : rend les lignes à afficher.
pub fn executer(arguments: &str) -> (r: Vec<String>)
    ensures
        vue_mots(r@) == ver_v(arguments@),
{
    let args = rogner(arguments);
    let mut lignes: Vec<String> = Vec::new();
    if args.as_str().unicode_len() == 0 {
        lignes.push(vers_chaine("QBX 0.1-EXP (x86_64)"));
        assert(vue_mots(lignes@) =~= ver_v(arguments@));
        return lignes;
    }
    let ws = decouper_mots(args.as_str());
    let ghost vw = mots(args@);
    let mut ch = Champs { s: false, n: false, r: false, v: false, m: false };
    let mut i: usize = 0;
    while i < ws.len()
        invariant
            vue_mots(ws@) == vw,
            i <= ws@.len(),
            options_ver(vw.take(i as int)) == Ok::<Champs, char>(ch),
            lignes@.len() == 0,
            vw == mots(rogner_v(arguments@)),
            rogner_v(arguments@).len() > 0,
        decreases ws@.len() - i,
    {
        proof {
            assert(vw.take(i + 1).drop_last() =~= vw.take(i as int));
            assert(vw.take(i + 1).last() == ws@[i as int]@);
        }
        let mot = &ws[i];
        let t = mot.as_str();
        if t.unicode_len() > 0 && t.get_char(0) == '-' {
            match lettres_x(ch, mot) {
                Ok(c2) => {
                    ch = c2;
                },
                Err(x) => {
                    proof {
                        assert(vw.take(i + 1).last() == mot@);
                        assert(options_ver(vw.take(i + 1)) == Err::<Champs, char>(x));
                        lemme_erreur_persiste_mots(vw, i + 1);
                    }
                    let mut l = vers_chaine("ver: option invalide -- '");
                    pousser_car(&mut l, x);
                    pousser_texte(&mut l, "'");
                    let ghost lv = l@;
                    assert(lv =~= "ver: option invalide -- '"@ + seq![x] + "'"@);
                    lignes.push(l);
                    lignes.push(vers_chaine("usage: ver [-asnmrv]"));
                    assert(vue_mots(lignes@)[0] == lv);
                    assert(vue_mots(lignes@)[1] == "usage: ver [-asnmrv]"@);
                    assert(vue_mots(lignes@) =~= ver_v(arguments@));
                    return lignes;
                },
            }
        }
        i = i + 1;
    }
    proof {
        assert(vw.take(ws@.len() as int) =~= vw);
    }
    let mut champs: Vec<&str> = Vec::new();
    if ch.s {
        champs.push("QBX");
    }
    if ch.n {
        champs.push("qbx-box");
    }
    if ch.r {
        champs.push("0.1-EXP");
    }
    if ch.v {
        champs.push("Microkernel Bare-Metal");
    }
    if ch.m {
        champs.push("x86_64");
    }
    let ghost attendu = {
        let l = Seq::<Seq<char>>::empty();
        let l = if ch.s { l.push("QBX"@) } else { l };
        let l = if ch.n { l.push("qbx-box"@) } else { l };
        let l = if ch.r { l.push("0.1-EXP"@) } else { l };
        let l = if ch.v { l.push("Microkernel Bare-Metal"@) } else { l };
        if ch.m { l.push("x86_64"@) } else { l }
    };
    assert(champs@.map_values(|x: &str| x@) =~= attendu);
    let mut ligne = String::new();
    let mut k: usize = 0;
    while k < champs.len()
        invariant
            k <= champs@.len(),
            champs@.map_values(|x: &str| x@) == attendu,
            ligne@ == joindre_espaces(attendu.take(k as int)),
        decreases champs@.len() - k,
    {
        proof {
            assert(attendu.take(k + 1).drop_last() =~= attendu.take(k as int));
            assert(attendu[k as int] == champs@[k as int]@);
        }
        if k > 0 {
            pousser_car(&mut ligne, ' ');
        }
        pousser_texte(&mut ligne, champs[k]);
        k = k + 1;
        proof {
            if k == 1 {
                assert(attendu.take(1) =~= seq![attendu[0]]);
                assert(ligne@ =~= attendu[0]);
            }
        }
    }
    proof {
        assert(attendu.take(champs@.len() as int) =~= attendu);
    }
    lignes.push(ligne);
    assert(vue_mots(lignes@) =~= ver_v(arguments@));
    lignes
}

} // verus!
