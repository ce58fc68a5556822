use vstd::prelude::*;
use std::string::String;
use crate::texte::{caracteres, pousser_car, rogner, rogner_v};

verus! {

/// Texte affiché par `echo` : l'argument sans blancs autour, sans les guillemets (doubles ou
/// simples) qui l'entourent.
pub open spec fn echo_v(texte: Seq<char>) -> Seq<char> {
    let net = rogner_v(texte);
    if net.len() > 0 && ((net[0] == '"' && net.last() == '"') || (net[0] == '\'' && net.last() == '\'')) {
        if net.len() >= 2 {
            net.subrange(1, net.len() - 1)
        } else {
            Seq::empty()
        }
    } else {
        net
    }
}

/// Commande `echo <texte>` : la ligne à afficher.
pub fn executer(texte: &str) -> (r: String)
    ensures
        r@ == echo_v(texte@),
{
    let net = rogner(texte);
    let v = caracteres(net.as_str());
    let n = v.len();
    if n > 0 && ((v[0] == '"' && v[n - 1] == '"') || (v[0] == '\'' && v[n - 1] == '\'')) {
        let mut r = String::new();
        if n >= 2 {
            let mut i: usize = 1;
            while i < n - 1
                invariant
                    v@ == net@,
                    n == v@.len(),
                    n >= 2,
                    1 <= i <= n - 1,
                    r@ == v@.subrange(1, i as int),
                decreases n - 1 - i,
            {
                pousser_car(&mut r, v[i]);
                i = i + 1;
                assert(r@ =~= v@.subrange(1, i as int));
            }
        } else {
            assert(r@ =~= Seq::<char>::empty());
        }
        r
    } else {
        net
    }
}

} // verus!
