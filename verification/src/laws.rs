//! What holds of every ledger and every stream of transactions.

use vstd::prelude::*;
use crate::account::Account;
use crate::ledger::{Ledger, Outcome};
use crate::transaction::{Transaction, TransactionType};

verus! {

/// The empty ledger is well formed.
pub proof fn lemma_empty_is_wf()
    ensures
        Ledger::empty().wf(),
{
}

/// One transaction keeps a balanced ledger balanced, whether it succeeds or
/// fails: in every account the total stays the sum of the available and the
/// held funds.
pub proof fn lemma_apply_keeps_balance(ledger: Ledger, tr: Transaction)
    requires
        ledger.balanced(),
    ensures
        ledger.apply(tr).ledger.balanced(),
{
}

/// A stream of transactions keeps a balanced ledger balanced, wherever it
/// stops.
pub proof fn lemma_run_keeps_balance(ledger: Ledger, stream: Seq<Transaction>)
    requires
        ledger.balanced(),
    ensures
        ledger.run(stream).ledger.balanced(),
    decreases stream.len(),
{
    if stream.len() > 0 {
        let first = ledger.apply(stream[0]);
        if first.result is Ok {
            lemma_run_keeps_balance(first.ledger, stream.drop_first());
        }
    }
}

/// One transaction keeps a well-formed ledger well formed.
pub proof fn lemma_apply_keeps_wf(ledger: Ledger, tr: Transaction)
    requires
        ledger.wf(),
    ensures
        ledger.apply(tr).ledger.wf(),
{
}

/// A stream of transactions keeps a well-formed ledger well formed.
pub proof fn lemma_run_keeps_wf(ledger: Ledger, stream: Seq<Transaction>)
    requires
        ledger.wf(),
    ensures
        ledger.run(stream).ledger.wf(),
    decreases stream.len(),
{
    if stream.len() > 0 {
        let first = ledger.apply(stream[0]);
        if first.result is Ok {
            lemma_run_keeps_wf(first.ledger, stream.drop_first());
        }
    }
}

/// An account is never closed, and a locked account stays locked: one
/// transaction keeps every account that the ledger has, and keeps it locked
/// if it was.
pub proof fn lemma_apply_keeps_accounts(ledger: Ledger, tr: Transaction, client_id: u16)
    requires
        ledger.balanced(),
        ledger.accounts.contains_key(client_id),
    ensures
        ledger.apply(tr).ledger.accounts.contains_key(client_id),
        ledger.accounts[client_id].locked ==> ledger.apply(tr).ledger.accounts[client_id].locked,
{
}

/// A stream of transactions keeps every account that the ledger has, and
/// keeps it locked if it was.
pub proof fn lemma_run_keeps_accounts(ledger: Ledger, stream: Seq<Transaction>, client_id: u16)
    requires
        ledger.balanced(),
        ledger.accounts.contains_key(client_id),
    ensures
        ledger.run(stream).ledger.accounts.contains_key(client_id),
        ledger.accounts[client_id].locked ==> ledger.run(stream).ledger.accounts[client_id].locked,
    decreases stream.len(),
{
    if stream.len() > 0 {
        let first = ledger.apply(stream[0]);
        if first.result is Ok {
            lemma_run_keeps_accounts(first.ledger, stream.drop_first(), client_id);
        }
    }
}

/// After a stream that did not fail, the clients with an account are those
/// that had one before and those that a transaction of the stream names.
pub proof fn lemma_accounts_are_the_clients_named(
    ledger: Ledger,
    stream: Seq<Transaction>,
    client_id: u16,
)
    requires
        ledger.balanced(),
        ledger.run(stream).result is Ok,
    ensures
        ledger.run(stream).ledger.accounts.contains_key(client_id) <==> (
        ledger.accounts.contains_key(client_id) || exists|i: int|
            0 <= i < stream.len() && (#[trigger] stream[i]).client_id == client_id),
    decreases stream.len(),
{
    if stream.len() > 0 {
        let first = ledger.apply(stream[0]);
        let rest = stream.drop_first();
        lemma_accounts_are_the_clients_named(first.ledger, rest, client_id);
        if ledger.run(stream).ledger.accounts.contains_key(client_id) {
            if !first.ledger.accounts.contains_key(client_id) {
                // A transaction of the rest names the client.
                let i = choose|i: int|
                    0 <= i < rest.len() && (#[trigger] rest[i]).client_id == client_id;
                assert(stream[i + 1].client_id == client_id);
            }
        } else {
            assert forall|i: int| 0 <= i < stream.len() implies (#[trigger] stream[i]).client_id
                != client_id by {
                if i > 0 {
                    assert(rest[i - 1] == stream[i]);
                }
            }
        }
    }
}

/// Opening a client's account changes the balances of no client.
pub proof fn lemma_touch_keeps_balances(ledger: Ledger, client_id: u16, other: u16)
    ensures
        ledger.touch(client_id).account_of(other) == ledger.account_of(other),
        ledger.touch(client_id).recorded == ledger.recorded,
        ledger.touch(client_id).disputed == ledger.disputed,
{
}

/// A resolve or a chargeback of a transaction that is not under dispute
/// succeeds and does no more than open the client's account: the balances
/// of every client stay as they were.
pub proof fn lemma_settling_undisputed_changes_nothing(ledger: Ledger, tr: Transaction)
    requires
        tr.kind == TransactionType::Resolve || tr.kind == TransactionType::Chargeback,
        !ledger.disputed.contains(tr.transaction_id),
    ensures
        ledger.apply(tr) == (Outcome { ledger: ledger.touch(tr.client_id), result: Ok(()) }),
        forall|client_id: u16| #[trigger]
            ledger.apply(tr).ledger.account_of(client_id) == ledger.account_of(client_id),
{
}

/// A resolve or a chargeback that succeeded leaves its transaction out of
/// the dispute registry, so a second resolve or chargeback of the same
/// transaction does no more than open its client's account.
pub proof fn lemma_settling_twice_changes_nothing(
    ledger: Ledger,
    first: Transaction,
    second: Transaction,
)
    requires
        ledger.wf(),
        first.kind == TransactionType::Resolve || first.kind == TransactionType::Chargeback,
        second.kind == TransactionType::Resolve || second.kind == TransactionType::Chargeback,
        second.transaction_id == first.transaction_id,
        ledger.apply(first).result is Ok,
    ensures
        !ledger.apply(first).ledger.disputed.contains(first.transaction_id),
        ledger.apply(first).ledger.apply(second) == (Outcome {
            ledger: ledger.apply(first).ledger.touch(second.client_id),
            result: Ok(()),
        }),
        forall|client_id: u16| #[trigger]
            ledger.apply(first).ledger.apply(second).ledger.account_of(client_id)
                == ledger.apply(first).ledger.account_of(client_id),
{
}

/// A dispute and a resolve move funds between available and held: they
/// change the total of no account.
pub proof fn lemma_dispute_and_resolve_keep_totals(ledger: Ledger, tr: Transaction, client_id: u16)
    requires
        ledger.balanced(),
        tr.kind == TransactionType::Dispute || tr.kind == TransactionType::Resolve,
    ensures
        ledger.apply(tr).ledger.account_of(client_id).total == ledger.account_of(client_id).total,
{
}

/// A resolve undoes the dispute before it: after a dispute that succeeded
/// and a resolve by the same client of the same transaction, every account
/// has the balances it had before the dispute.
pub proof fn lemma_resolve_undoes_dispute(
    ledger: Ledger,
    dispute: Transaction,
    resolve: Transaction,
    client_id: u16,
)
    requires
        ledger.wf(),
        dispute.kind == TransactionType::Dispute,
        resolve.kind == TransactionType::Resolve,
        resolve.transaction_id == dispute.transaction_id,
        resolve.client_id == dispute.client_id,
        ledger.apply(dispute).result is Ok,
    ensures
        ledger.apply(dispute).ledger.apply(resolve).result is Ok,
        ledger.apply(dispute).ledger.apply(resolve).ledger.account_of(client_id)
            == ledger.account_of(client_id),
        !ledger.apply(dispute).ledger.apply(resolve).ledger.disputed.contains(
            dispute.transaction_id,
        ),
{
}

/// A dispute, a resolve or a chargeback of a transaction id under which no
/// amount is recorded succeeds and does no more than open the client's
/// account: the balances of every client stay as they were.
pub proof fn lemma_unknown_reference_changes_nothing(ledger: Ledger, tr: Transaction)
    requires
        !tr.kind.is_monetary(),
        !ledger.recorded.contains_key(tr.transaction_id),
    ensures
        ledger.apply(tr) == (Outcome { ledger: ledger.touch(tr.client_id), result: Ok(()) }),
        forall|client_id: u16| #[trigger]
            ledger.apply(tr).ledger.account_of(client_id) == ledger.account_of(client_id),
{
}

/// Running two streams one after the other is running their concatenation.
pub proof fn lemma_run_concat(ledger: Ledger, first: Seq<Transaction>, second: Seq<Transaction>)
    ensures
        ledger.run(first + second) == if ledger.run(first).result is Err {
            ledger.run(first)
        } else {
            ledger.run(first).ledger.run(second)
        },
    decreases first.len(),
{
    if first.len() == 0 {
        assert(first + second =~= second);
    } else {
        assert((first + second).drop_first() =~= first.drop_first() + second);
        let head = ledger.apply(first[0]);
        if head.result is Ok {
            lemma_run_concat(head.ledger, first.drop_first(), second);
        }
    }
}

/// An amount is recorded under `id` after a stream only if it was recorded
/// before, or the stream holds a deposit or withdrawal with that id.
pub proof fn lemma_recorded_ids_come_from_stream(
    ledger: Ledger,
    stream: Seq<Transaction>,
    id: u32,
)
    requires
        ledger.run(stream).ledger.recorded.contains_key(id),
    ensures
        ledger.recorded.contains_key(id) || exists|i: int|
            0 <= i < stream.len() && #[trigger] stream[i].kind.is_monetary()
                && stream[i].transaction_id == id,
    decreases stream.len(),
{
    if stream.len() > 0 {
        let head = ledger.apply(stream[0]);
        if head.result is Ok {
            let rest = stream.drop_first();
            lemma_recorded_ids_come_from_stream(head.ledger, rest, id);
            if head.ledger.recorded.contains_key(id) {
                // Recorded before, or by the first transaction.
                assert(ledger.recorded.contains_key(id) || (stream[0].kind.is_monetary()
                    && stream[0].transaction_id == id));
            } else {
                // Recorded by a transaction of the rest.
                let i = choose|i: int|
                    0 <= i < rest.len() && #[trigger] rest[i].kind.is_monetary()
                        && rest[i].transaction_id == id;
                assert(stream[i + 1] == rest[i]);
            }
        }
    }
}

/// A dispute, resolve or chargeback sees only the deposits and withdrawals
/// that came before it in the stream. Where none of them has the id that it
/// names, it does no more than open its client's account, whatever follows
/// it in the stream: a deposit or withdrawal with that id further on does
/// not count.
pub proof fn lemma_reference_sees_only_earlier(
    earlier: Seq<Transaction>,
    tr: Transaction,
    later: Seq<Transaction>,
)
    requires
        !tr.kind.is_monetary(),
        forall|i: int|
            0 <= i < earlier.len() && #[trigger] earlier[i].kind.is_monetary()
                ==> earlier[i].transaction_id != tr.transaction_id,
    ensures
        Ledger::empty().run(earlier.push(tr) + later) == if Ledger::empty().run(
            earlier,
        ).result is Err {
            Ledger::empty().run(earlier)
        } else {
            Ledger::empty().run(earlier).ledger.touch(tr.client_id).run(later)
        },
{
    let start = Ledger::empty();
    let reached = start.run(earlier);
    assert(earlier.push(tr) + later =~= earlier + (seq![tr] + later));
    lemma_run_concat(start, earlier, seq![tr] + later);
    if reached.result is Ok {
        // No amount is recorded under the id, so `tr` only opens the account.
        if reached.ledger.recorded.contains_key(tr.transaction_id) {
            lemma_recorded_ids_come_from_stream(start, earlier, tr.transaction_id);
        }
        lemma_unknown_reference_changes_nothing(reached.ledger, tr);
        assert((seq![tr] + later).drop_first() =~= later);
    }
}

/// Two listings of one ledger name the same client at every position that
/// both have.
proof fn lemma_listings_agree_at(
    ledger: Ledger,
    first: Seq<Account>,
    second: Seq<Account>,
    at: int,
)
    requires
        ledger.is_listing(first),
        ledger.is_listing(second),
        0 <= at < first.len(),
        at < second.len(),
    ensures
        first[at].client_id == second[at].client_id,
    decreases at,
{
    // Each listing has the client that the other names at `at`, and not
    // before `at`: there the two agree, and the ids ascend.
    let in_first = first[at].client_id;
    let j = choose|j: int| 0 <= j < second.len() && (#[trigger] second[j]).client_id == in_first;
    if j < at {
        lemma_listings_agree_at(ledger, first, second, j);
        assert(first[j].client_id < first[at].client_id);
    }
    let in_second = second[at].client_id;
    let i = choose|i: int| 0 <= i < first.len() && (#[trigger] first[i]).client_id == in_second;
    if i < at {
        lemma_listings_agree_at(ledger, first, second, i);
        assert(second[i].client_id < second[at].client_id);
    }
    // So neither id is below the other.
    assert(second[at].client_id <= second[j].client_id);
    assert(first[at].client_id <= first[i].client_id);
}

/// Of two listings of one ledger the second is not the longer.
proof fn lemma_listing_not_longer(ledger: Ledger, first: Seq<Account>, second: Seq<Account>)
    requires
        ledger.is_listing(first),
        ledger.is_listing(second),
    ensures
        second.len() <= first.len(),
{
    if first.len() < second.len() {
        // The first listing has the client that the second names past its
        // end, at a position where the two agree: the ids would not ascend.
        let beyond = second[first.len() as int];
        let i = choose|i: int|
            0 <= i < first.len() && (#[trigger] first[i]).client_id == beyond.client_id;
        lemma_listings_agree_at(ledger, first, second, i);
        assert(second[i].client_id < beyond.client_id);
    }
}

/// A ledger has one listing: what the engine exports is fixed by the
/// accounts it holds, whatever the order in which they were opened.
pub proof fn lemma_listing_is_unique(ledger: Ledger, first: Seq<Account>, second: Seq<Account>)
    requires
        ledger.is_listing(first),
        ledger.is_listing(second),
    ensures
        first == second,
{
    lemma_listing_not_longer(ledger, first, second);
    lemma_listing_not_longer(ledger, second, first);
    assert forall|at: int| 0 <= at < first.len() implies first[at] == second[at] by {
        lemma_listings_agree_at(ledger, first, second, at);
    }
}

} // verus!
