use vstd::prelude::*;

verus! {

/// Registres préservés par l'appelé (convention System V AMD64), sauvegardés à chaque bascule.
#[derive(Debug, Clone, Copy, PartialEq, Eq, Structural)]
pub struct ContexteTache {
    pub r15: usize,
    pub r14: usize,
    pub r13: usize,
    pub r12: usize,
    pub rbx: usize,
    pub rbp: usize,
    pub rsp: usize,
}

impl Default for ContexteTache {
    /// Contexte aux registres nuls.
    fn default() -> (r: Self)
        ensures
            r == (ContexteTache { r15: 0, r14: 0, r13: 0, r12: 0, rbx: 0, rbp: 0, rsp: 0 }),
    {
        ContexteTache { r15: 0, r14: 0, r13: 0, r12: 0, rbx: 0, rbp: 0, rsp: 0 }
    }
}

} // verus!
