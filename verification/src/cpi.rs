use vstd::prelude::*;

use crate::seeds::SignerSeeds;

verus! {

/// A call into another program that an instruction asks the runtime to make,
/// with the accounts it touches named by their role in the instruction.
/// `signer` holds the seeds the calling program signs with, where it signs.
#[derive(Clone, Copy, Debug, PartialEq, Eq)]
pub enum Cpi<A> {
    /// Moves lamports between two system accounts.
    SystemTransfer { from: A, to: A, lamports: u64, signer: Option<SignerSeeds> },
    /// Moves tokens of `mint` between two token accounts, checking the mint's decimals.
    TransferChecked {
        from: A,
        mint: A,
        to: A,
        authority: A,
        amount: u64,
        decimals: u8,
        signer: Option<SignerSeeds>,
    },
    /// Mints new tokens of `mint` into a token account.
    MintTo { mint: A, to: A, authority: A, amount: u64, signer: Option<SignerSeeds> },
    /// Closes a token account and sends its lamports to `destination`.
    CloseAccount { account: A, destination: A, authority: A, signer: Option<SignerSeeds> },
    /// Lets `delegate` move up to `amount` tokens out of a token account.
    Approve { to: A, delegate: A, authority: A, amount: u64, signer: Option<SignerSeeds> },
    /// Takes back a delegation from a token account.
    Revoke { source: A, authority: A, signer: Option<SignerSeeds> },
    /// Thaws a token account that its delegate froze, through the metadata program.
    ThawDelegatedAccount {
        delegate: A,
        token_account: A,
        edition: A,
        mint: A,
        token_program: A,
        signer: Option<SignerSeeds>,
    },
}

/// The lamports that a list of calls moves into `account` by system transfers,
/// less those it moves out of it.
pub open spec fn net_lamports<A>(calls: Seq<Cpi<A>>, account: A) -> int
    decreases calls.len(),
{
    if calls.len() == 0 {
        0
    } else {
        let rest = net_lamports(calls.drop_last(), account);
        match calls.last() {
            Cpi::SystemTransfer { from, to, lamports, .. } => {
                let gain: int = if to == account { lamports as int } else { 0 };
                let loss: int = if from == account { lamports as int } else { 0 };
                rest + gain - loss
            },
            _ => rest,
        }
    }
}

/// Lamports moved by a list of calls add up call by call.
pub proof fn lemma_net_lamports_push<A>(calls: Seq<Cpi<A>>, call: Cpi<A>, account: A)
    ensures
        net_lamports(calls.push(call), account) == net_lamports(calls, account) + net_lamports(
            seq![call],
            account,
        ),
{
    reveal_with_fuel(net_lamports, 2);
    assert(calls.push(call).drop_last() =~= calls);
    assert(calls.push(call).last() == call);
    assert(seq![call].drop_last() =~= Seq::<Cpi<A>>::empty());
}

/// A single call moves lamports only where it is a system transfer: `lamports`
/// into its destination and out of its source.
pub proof fn lemma_net_lamports_single<A>(call: Cpi<A>, account: A)
    ensures
        net_lamports(seq![call], account) == (match call {
            Cpi::SystemTransfer { from, to, lamports, .. } => (if to == account {
                lamports as int
            } else {
                0
            }) - (if from == account {
                lamports as int
            } else {
                0
            }),
            _ => 0,
        }),
{
    reveal_with_fuel(net_lamports, 2);
    assert(seq![call].drop_last() =~= Seq::<Cpi<A>>::empty());
}

} // verus!
