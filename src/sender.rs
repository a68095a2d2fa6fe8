use vstd::prelude::*;

verus! {

/// An account address: its twenty bytes.
#[derive(Clone, Copy, Debug)]
pub struct Address {
    pub bytes: [u8; 20],
}

/// Why a transaction was dropped. Every reason is final for that action and
/// none is an error of the executor: the next action is taken as usual.
#[derive(Clone, Copy, PartialEq, Eq, Structural, Debug)]
pub enum Dropped {
    /// The request names no sender.
    MissingSender,
    /// No signer is set up for the sender.
    MissingSigner,
    /// The sender's nonce could not be fetched.
    NonceUnavailable,
    /// The transaction could not be built and signed.
    BuildFailed,
    /// The signed transaction could not be submitted.
    SendFailed,
}

/// The next thing to do with one transaction request.
#[derive(Clone, Copy, PartialEq, Eq, Structural, Debug)]
pub enum TxStep {
    /// Stop here; the action is dropped.
    Drop(Dropped),
    /// Fetch the latest transaction count of the sender, then call `with_nonce`.
    FetchNonce { signer: usize },
    /// Build and sign with this signer and nonce, then call `after_signing`.
    Sign { signer: usize, nonce: u64 },
    /// Submit the raw transaction, to the dedicated endpoint if there is one,
    /// then call `after_submission`.
    Submit { dedicated: bool },
    /// The transaction was submitted.
    Sent,
}

/// Whether two addresses are the same.
pub fn same_address(a: &Address, b: &Address) -> (r: bool)
    ensures
        r == (a.bytes@ == b.bytes@),
{
    let mut i: usize = 0;
    while i < 20
        invariant
            i <= 20,
            a.bytes@.len() == 20,
            b.bytes@.len() == 20,
            forall|j: int| 0 <= j < i ==> a.bytes@[j] == b.bytes@[j],
        decreases 20 - i,
    {
        if a.bytes[i] != b.bytes[i] {
            return false;
        }
        i = i + 1;
    }
    assert(a.bytes@ =~= b.bytes@);
    true
}

/// The signer that serves `a` among `signers`: the last one with that
/// address, since a later signer for an address replaces an earlier one.
pub open spec fn signer_for(signers: Seq<Address>, a: Address) -> Option<int> {
    if exists|i: int| 0 <= i < signers.len() && signers[i].bytes@ == a.bytes@ {
        Some(
            choose|i: int|
                0 <= i < signers.len() && signers[i].bytes@ == a.bytes@ && forall|j: int|
                    i < j < signers.len() ==> signers[j].bytes@ != a.bytes@,
        )
    } else {
        None
    }
}

/// The addresses of the signers an executor was set up with, in order.
pub struct SignerSet {
    pub addresses: Vec<Address>,
}

impl SignerSet {
    /// Finds the signer for `a`; see `signer_for`.
    pub fn find(&self, a: &Address) -> (r: Option<usize>)
        ensures
            match r {
                Some(i) => {
                    &&& i < self.addresses@.len()
                    &&& self.addresses@[i as int].bytes@ == a.bytes@
                    &&& forall|j: int| i < j < self.addresses@.len() ==> self.addresses@[j].bytes@ != a.bytes@
                },
                None => forall|j: int| 0 <= j < self.addresses@.len() ==> self.addresses@[j].bytes@ != a.bytes@,
            },
            r matches Some(i) ==> signer_for(self.addresses@, *a) == Some(i as int),
            r is None ==> signer_for(self.addresses@, *a) is None,
    {
        let mut i: usize = self.addresses.len();
        while i > 0
            invariant
                i <= self.addresses@.len(),
                forall|j: int| i <= j < self.addresses@.len() ==> self.addresses@[j].bytes@ != a.bytes@,
            decreases i,
        {
            i = i - 1;
            if same_address(&self.addresses[i], a) {
                proof {
                    let s = self.addresses@;
                    assert(exists|k: int| 0 <= k < s.len() && s[k].bytes@ == a.bytes@) by {
                        assert(s[i as int].bytes@ == a.bytes@);
                    }
                    let c = choose|k: int|
                        0 <= k < s.len() && s[k].bytes@ == a.bytes@ && forall|j: int|
                            k < j < s.len() ==> s[j].bytes@ != a.bytes@;
                    assert(0 <= c < s.len() && s[c].bytes@ == a.bytes@ && forall|j: int|
                            c < j < s.len() ==> s[j].bytes@ != a.bytes@) by {
                        assert(forall|j: int| (i as int) < j < s.len() ==> s[j].bytes@ != a.bytes@);
                    }
                    if c < i {
                        assert(s[i as int].bytes@ != a.bytes@);
                    }
                    if c > i {
                        assert(s[c].bytes@ != a.bytes@);
                    }
                }
                return Some(i);
            }
        }
        None
    }

    /// The first step for a request from `from` (if it names a sender) that
    /// carries `nonce` (if it sets one).
    pub fn plan(&self, from: Option<Address>, nonce: Option<u64>) -> (r: TxStep)
        ensures
            from is None ==> r == TxStep::Drop(Dropped::MissingSender),
            from matches Some(a) ==> match signer_for(self.addresses@, a) {
                None => r == TxStep::Drop(Dropped::MissingSigner),
                Some(i) => match nonce {
                    None => r == (TxStep::FetchNonce { signer: i as usize }),
                    Some(n) => r == (TxStep::Sign { signer: i as usize, nonce: n }),
                },
            },
    {
        let a = match from {
            Some(a) => a,
            None => {
                return TxStep::Drop(Dropped::MissingSender);
            },
        };
        let signer = match self.find(&a) {
            Some(i) => i,
            None => {
                return TxStep::Drop(Dropped::MissingSigner);
            },
        };
        match nonce {
            Some(n) => TxStep::Sign { signer, nonce: n },
            None => TxStep::FetchNonce { signer },
        }
    }
}

/// After the nonce of `signer`'s account was asked for: sign with it, or
/// drop the action if it could not be had.
pub fn with_nonce(signer: usize, fetched: Option<u64>) -> (r: TxStep)
    ensures
        fetched matches Some(n) ==> r == (TxStep::Sign { signer, nonce: n }),
        fetched is None ==> r == TxStep::Drop(Dropped::NonceUnavailable),
{
    match fetched {
        Some(n) => TxStep::Sign { signer, nonce: n },
        None => TxStep::Drop(Dropped::NonceUnavailable),
    }
}

/// After building and signing: submit, to the dedicated endpoint where the
/// executor has one, or drop the action if signing failed.
pub fn after_signing(signed: bool, has_dedicated: bool) -> (r: TxStep)
    ensures
        signed ==> r == (TxStep::Submit { dedicated: has_dedicated }),
        !signed ==> r == TxStep::Drop(Dropped::BuildFailed),
{
    if signed {
        TxStep::Submit { dedicated: has_dedicated }
    } else {
        TxStep::Drop(Dropped::BuildFailed)
    }
}

/// After submission: sent, or dropped if the endpoint refused it.
pub fn after_submission(accepted: bool) -> (r: TxStep)
    ensures
        accepted ==> r == TxStep::Sent,
        !accepted ==> r == TxStep::Drop(Dropped::SendFailed),
{
    if accepted {
        TxStep::Sent
    } else {
        TxStep::Drop(Dropped::SendFailed)
    }
}

} // verus!
