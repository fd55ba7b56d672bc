//! Claims carried by an authentication token.  Authentication itself is an
//! external collaborator; only the claims value crosses into this crate.

use vstd::prelude::*;

verus! {

/// The private claims of a token: the roles granted to its bearer.
#[derive(Debug)]
pub struct PrivateClaims {
    pub roles: Vec<String>,
}

impl PrivateClaims {
    /// An owned copy of the roles.
    pub fn roles(&self) -> (r: Vec<String>)
        ensures
            r@ == self.roles@,
    {
        let mut r: Vec<String> = Vec::new();
        let mut i: usize = 0;
        while i < self.roles.len()
            invariant
                0 <= i <= self.roles@.len(),
                r@ == self.roles@.take(i as int),
            decreases self.roles@.len() - i,
        {
            r.push(self.roles[i].clone());
            proof {
                assert(r@ =~= self.roles@.take(i + 1 as int));
            }
            i += 1;
        }
        proof {
            assert(self.roles@.take(self.roles@.len() as int) =~= self.roles@);
        }
        r
    }
}

} // verus!
