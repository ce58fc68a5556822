use vstd::prelude::*;
use std::string::String;
use std::vec::Vec;
use crate::fs::{FileSystem, VueFs, lire_v};
use crate::shell::{coupure_valide, mot_ou_vide, reste_v, reste_x};
use crate::texte::{
    caracteres, couper, decouper_mots, egal, morceaux, mots, rogner, rogner_v, texte_utf8, vers_chaine,
    vue_mots,
};

verus! {

/// Échec du lancement d'un script.
pub enum ErreurScript {
    /// Aucun nom de script.
    SansNom,
    /// Pas de fichier de ce nom dans le répertoire courant.
    Introuvable(String),
    /// Le fichier n'est pas du texte UTF-8.
    PasUtf8(String),
}

pub enum ErreurScriptV {
    SansNom,
    Introuvable(Seq<char>),
    PasUtf8(Seq<char>),
}

pub open spec fn vue_erreur(e: ErreurScript) -> ErreurScriptV {
    match e {
        ErreurScript::SansNom => ErreurScriptV::SansNom,
        ErreurScript::Introuvable(n) => ErreurScriptV::Introuvable(n@),
        ErreurScript::PasUtf8(n) => ErreurScriptV::PasUtf8(n@),
    }
}

/// Lignes à exécuter, sans blancs autour, en sautant les lignes vides et les commentaires (`#`).
pub open spec fn lignes_utiles(ls: Seq<Seq<char>>) -> Seq<Seq<char>>
    decreases ls.len(),
{
    if ls.len() == 0 {
        Seq::empty()
    } else {
        let r = lignes_utiles(ls.drop_last());
        let l = rogner_v(ls.last());
        if l.len() == 0 || l[0] == '#' {
            r
        } else {
            r.push(l)
        }
    }
}

/// Lignes d'un script, ou l'erreur qui empêche de le lancer.
pub open spec fn script_v(fs: VueFs, args: Seq<char>) -> Result<Seq<Seq<char>>, ErreurScriptV> {
    let nom = rogner_v(args);
    if nom.len() == 0 {
        Err(ErreurScriptV::SansNom)
    } else {
        match lire_v(fs, nom) {
            None => Err(ErreurScriptV::Introuvable(nom)),
            Some(d) => if vstd::utf8::valid_utf8(d) {
                Ok(lignes_utiles(morceaux(vstd::utf8::decode_utf8(d), '\n')))
            } else {
                Err(ErreurScriptV::PasUtf8(nom))
            },
        }
    }
}

/// Lignes à exécuter d'un texte.
fn filtrer_lignes(ls: &Vec<String>) -> (r: Vec<String>)
    ensures
        vue_mots(r@) == lignes_utiles(vue_mots(ls@)),
{
    let mut r: Vec<String> = Vec::new();
    let mut i: usize = 0;
    while i < ls.len()
        invariant
            i <= ls@.len(),
            vue_mots(r@) == lignes_utiles(vue_mots(ls@).take(i as int)),
        decreases ls@.len() - i,
    {
        proof {
            assert(vue_mots(ls@).take(i + 1).drop_last() =~= vue_mots(ls@).take(i as int));
            assert(vue_mots(ls@).take(i + 1).last() == ls@[i as int]@);
        }
        let l = rogner(ls[i].as_str());
        let lc = l.as_str();
        if lc.unicode_len() == 0 || lc.get_char(0) == '#' {
        } else {
            let ghost avant = r@;
            r.push(l);
            proof {
                assert(vue_mots(r@) =~= vue_mots(avant).push(l@));
            }
        }
        i = i + 1;
    }
    proof {
        assert(vue_mots(ls@).take(ls@.len() as int) =~= vue_mots(ls@));
    }
    r
}

/// Lance le script `args` du répertoire courant : rend ses lignes à exécuter, ou l'erreur.
pub fn executer(fs: &FileSystem, args: &str) -> (r: Result<Vec<String>, ErreurScript>)
    ensures
        match (r, script_v(fs@, args@)) {
            (Ok(v), Ok(w)) => vue_mots(v@) == w,
            (Err(e), Err(f)) => vue_erreur(e) == f,
            _ => false,
        },
{
    let nom = rogner(args);
    if nom.as_str().unicode_len() == 0 {
        return Err(ErreurScript::SansNom);
    }
    let contenu = match crate::fs::lire(fs, nom.as_str()) {
        Some(c) => c,
        None => {
            return Err(ErreurScript::Introuvable(nom));
        },
    };
    let texte = match texte_utf8(contenu.as_slice()) {
        Some(t) => t,
        None => {
            return Err(ErreurScript::PasUtf8(nom));
        },
    };
    let v = caracteres(texte.as_str());
    let ls = couper(&v, '\n');
    Ok(filtrer_lignes(&ls))
}

/// Commande de script reconnue.
pub enum CommandeScript {
    Echo(String),
    Ls(String),
    Cat(String),
    Df,
    Dsk,
    NonSupportee(String),
}

pub enum CommandeScriptV {
    Echo(Seq<char>),
    Ls(Seq<char>),
    Cat(Seq<char>),
    Df,
    Dsk,
    NonSupportee(Seq<char>),
}

pub open spec fn vue_commande_script(c: CommandeScript) -> CommandeScriptV {
    match c {
        CommandeScript::Echo(a) => CommandeScriptV::Echo(a@),
        CommandeScript::Ls(a) => CommandeScriptV::Ls(a@),
        CommandeScript::Cat(a) => CommandeScriptV::Cat(a@),
        CommandeScript::Df => CommandeScriptV::Df,
        CommandeScript::Dsk => CommandeScriptV::Dsk,
        CommandeScript::NonSupportee(a) => CommandeScriptV::NonSupportee(a@),
    }
}

/// Commande d'une ligne de script : son premier mot, et pour `echo`, `ls`, `cat` ce qui suit ce mot.
pub open spec fn ligne_script_v(e: Seq<char>) -> Option<CommandeScriptV> {
    let ws = mots(e);
    if ws.len() == 0 {
        None
    } else {
        let c = ws[0];
        Some(
            if c == "echo"@ {
                CommandeScriptV::Echo(reste_v(e, 4))
            } else if c == "ls"@ {
                CommandeScriptV::Ls(reste_v(e, 2))
            } else if c == "cat"@ {
                CommandeScriptV::Cat(reste_v(e, 3))
            } else if c == "df"@ {
                CommandeScriptV::Df
            } else if c == "dsk"@ {
                CommandeScriptV::Dsk
            } else {
                CommandeScriptV::NonSupportee(c)
            },
        )
    }
}

/// Reconnaît la commande d'une ligne de script.
pub fn executer_ligne_script(entree: &str) -> (r: Option<CommandeScript>)
    requires
        mot_ou_vide(mots(entree@), 0) == "echo"@ ==> coupure_valide(entree@, 4),
        mot_ou_vide(mots(entree@), 0) == "ls"@ ==> coupure_valide(entree@, 2),
        mot_ou_vide(mots(entree@), 0) == "cat"@ ==> coupure_valide(entree@, 3),
    ensures
        match (r, ligne_script_v(entree@)) {
            (Some(c), Some(d)) => vue_commande_script(c) == d,
            (None, None) => true,
            _ => false,
        },
{
    let ws = decouper_mots(entree);
    if ws.len() == 0 {
        return None;
    }
    proof {
        assert(vue_mots(ws@)[0] == ws@[0]@);
    }
    let c = ws[0].as_str();
    Some(
        if egal(c, "echo") {
            CommandeScript::Echo(reste_x(entree, 4))
        } else if egal(c, "ls") {
            CommandeScript::Ls(reste_x(entree, 2))
        } else if egal(c, "cat") {
            CommandeScript::Cat(reste_x(entree, 3))
        } else if egal(c, "df") {
            CommandeScript::Df
        } else if egal(c, "dsk") {
            CommandeScript::Dsk
        } else {
            CommandeScript::NonSupportee(vers_chaine(c))
        },
    )
}

} // verus!
