//! The laws the core obeys, stated over the spec-level transition
//! functions and proved once and for all.

use vstd::prelude::*;
use crate::calculator::{
    is_incoming, is_outgoing, lemma_wallet_after_create, next_balance, spec_smart_calculate,
};
use crate::grammar::{
    amount_match_at, first_match, lemma_amount_end, lemma_first_match, lemma_total_bound,
    select_amount_from, spec_direction, spec_period, spec_total, spec_txn_amount,
    spec_wallet_name, total_tag_before,
};
use crate::handler::{spec_handle, MessageOutcomeV};
use crate::ledger::{
    find_message, find_wallet, lemma_find_message_from, lemma_find_message_is,
    lemma_find_wallet_from, lemma_find_wallet_is, message_key_match, spec_balance_of,
    spec_get_or_create, spec_is_processed, spec_record_message, spec_record_transaction,
    spec_update_balance, wallet_key_match, LedgerView, MAX_ROW_ID,
};
use crate::parser::{spec_is_wallet_message, spec_parse};

verus! {

/// After a successful smart balance step, the wallet is present and holds
/// the update's new balance.
pub proof fn lemma_wallet_after_smart(
    lv: LedgerView,
    chat_id: i64,
    wallet_name: Seq<char>,
    transaction_type: Seq<char>,
    amount: u64,
    total_amount: Option<i64>,
    message_id: Option<i64>,
    now: i64,
)
    requires
        spec_smart_calculate(
            lv,
            chat_id,
            wallet_name,
            transaction_type,
            amount,
            total_amount,
            message_id,
            now,
        ).1 is Ok,
    ensures
        ({
            let step = spec_smart_calculate(
                lv,
                chat_id,
                wallet_name,
                transaction_type,
                amount,
                total_amount,
                message_id,
                now,
            );
            match find_wallet(step.0.wallets, chat_id, wallet_name) {
                Some(i) => step.0.wallets[i].current_balance == step.1->Ok_0.new_balance,
                None => false,
            }
        }),
{
    let step = spec_smart_calculate(
        lv,
        chat_id,
        wallet_name,
        transaction_type,
        amount,
        total_amount,
        message_id,
        now,
    );
    let s1 = spec_get_or_create(lv, chat_id, wallet_name, now).0;
    lemma_wallet_after_create(lv, chat_id, wallet_name, now);
    let i = find_wallet(s1.wallets, chat_id, wallet_name)->Some_0;
    lemma_find_wallet_from(s1.wallets, chat_id, wallet_name, 0);
    let nb = step.1->Ok_0.new_balance;
    let updated = spec_update_balance(s1, chat_id, wallet_name, nb, now);
    assert(updated.wallets[i].current_balance == nb);
    assert(wallet_key_match(updated.wallets[i], chat_id, wallet_name));
    assert(forall|k: int|
        0 <= k < i ==> !wallet_key_match(#[trigger] updated.wallets[k], chat_id, wallet_name));
    lemma_find_wallet_is(updated.wallets, chat_id, wallet_name, 0, i);
    assert(step.0 == updated);
}

/// After the processed-message record is written, the pair is processed.
pub proof fn lemma_processed_after_record(
    lv: LedgerView,
    message_id: i64,
    chat_id: i64,
    wallet_name: Seq<char>,
    has_total: bool,
    original_balance: Option<i64>,
    new_balance: Option<i64>,
    now: i64,
)
    requires
        find_wallet(lv.wallets, chat_id, wallet_name) is Some,
        lv.messages.len() < MAX_ROW_ID,
    ensures
        spec_is_processed(
            spec_record_message(
                lv,
                message_id,
                chat_id,
                wallet_name,
                has_total,
                original_balance,
                new_balance,
                now,
            ).0,
            message_id,
            chat_id,
        ),
{
    let post = spec_record_message(
        lv,
        message_id,
        chat_id,
        wallet_name,
        has_total,
        original_balance,
        new_balance,
        now,
    ).0;
    lemma_find_message_from(lv.messages, message_id, chat_id, 0);
    match find_message(lv.messages, message_id, chat_id) {
        Some(j) => {
            assert(message_key_match(post.messages[j], message_id, chat_id));
            assert(forall|k: int|
                0 <= k < j ==> !message_key_match(#[trigger] post.messages[k], message_id, chat_id));
            lemma_find_message_is(post.messages, message_id, chat_id, 0, j);
        },
        None => {
            let n = lv.messages.len() as int;
            assert(message_key_match(post.messages[n], message_id, chat_id));
            assert(forall|k: int|
                0 <= k < n ==> !message_key_match(#[trigger] post.messages[k], message_id, chat_id));
            lemma_find_message_is(post.messages, message_id, chat_id, 0, n);
        },
    }
}

/// Applying a message marks its (`message_id`, `chat_id`) pair processed.
pub proof fn lemma_applied_is_processed(
    lv: LedgerView,
    message_id: i64,
    chat_id: i64,
    s: Seq<char>,
    now: i64,
)
    requires
        lv.messages.len() < MAX_ROW_ID,
        spec_handle(lv, message_id, chat_id, s, now).1 is Applied || spec_handle(
            lv,
            message_id,
            chat_id,
            s,
            now,
        ).1 is AppliedTotal,
    ensures
        spec_is_processed(spec_handle(lv, message_id, chat_id, s, now).0, message_id, chat_id),
{
    let p = spec_parse(s)->Some_0;
    let total: Option<i64> = if crate::grammar::spec_has_total(s) {
        Some(p.total_amount->Some_0 as i64)
    } else {
        None
    };
    let sm = spec_smart_calculate(
        lv,
        chat_id,
        p.wallet_name,
        p.transaction_type,
        p.amount,
        total,
        Some(message_id),
        now,
    );
    lemma_wallet_after_smart(
        lv,
        chat_id,
        p.wallet_name,
        p.transaction_type,
        p.amount,
        total,
        Some(message_id),
        now,
    );
    let s2 = spec_record_transaction(
        sm.0,
        chat_id,
        p.wallet_name,
        p.transaction_type,
        p.amount,
        p.month,
        p.year,
        Some(message_id),
        now,
    ).0;
    assert(find_wallet(s2.wallets, chat_id, p.wallet_name) is Some);
    assert(s2.messages == lv.messages);
    let u = sm.1->Ok_0;
    lemma_processed_after_record(
        s2,
        message_id,
        chat_id,
        p.wallet_name,
        true,
        Some(u.old_balance),
        Some(u.new_balance),
        now,
    );
}

/// Idempotence: once a message has been applied, submitting the same
/// (`message_id`, `chat_id`) pair again — at any later moment — is
/// rejected at the duplicate check: the state is unchanged, so no new
/// transaction row and no balance move come of it.
pub proof fn lemma_processing_idempotent(
    lv: LedgerView,
    message_id: i64,
    chat_id: i64,
    s: Seq<char>,
    now1: i64,
    now2: i64,
)
    requires
        lv.messages.len() < MAX_ROW_ID,
        spec_handle(lv, message_id, chat_id, s, now1).1 is Applied || spec_handle(
            lv,
            message_id,
            chat_id,
            s,
            now1,
        ).1 is AppliedTotal,
    ensures
        ({
            let s1 = spec_handle(lv, message_id, chat_id, s, now1).0;
            spec_handle(s1, message_id, chat_id, s, now2) == (s1, MessageOutcomeV::Duplicate)
        }),
{
    lemma_applied_is_processed(lv, message_id, chat_id, s, now1);
}

/// Total round-trip: a message stating a total always drives the balance
/// to exactly that total, whatever the prior balance and whatever
/// transaction amount the message also states.
pub proof fn lemma_total_round_trip(
    lv: LedgerView,
    message_id: i64,
    chat_id: i64,
    s: Seq<char>,
    now: i64,
    x: u64,
)
    requires
        spec_is_wallet_message(s),
        !spec_is_processed(lv, message_id, chat_id),
        spec_parse(s) is Some,
        spec_total(s) == Some(x),
        lv.wallets.len() < MAX_ROW_ID,
    ensures
        ({
            let step = spec_handle(lv, message_id, chat_id, s, now);
            let p = spec_parse(s)->Some_0;
            &&& step.1 matches MessageOutcomeV::AppliedTotal { update, .. } && update.new_balance
                == x
            &&& spec_balance_of(step.0, chat_id, p.wallet_name) == Some(x as i64)
        }),
{
    lemma_total_bound(s);
    let p = spec_parse(s)->Some_0;
    let m = |t: Seq<char>, j: int| crate::grammar::total_match_at(t, j);
    assert(crate::grammar::spec_has_total(s));
    let sm = spec_smart_calculate(
        lv,
        chat_id,
        p.wallet_name,
        p.transaction_type,
        p.amount,
        Some(x as i64),
        Some(message_id),
        now,
    );
    lemma_find_wallet_from(lv.wallets, chat_id, p.wallet_name, 0);
    assert(sm.1 is Ok);
    lemma_wallet_after_smart(
        lv,
        chat_id,
        p.wallet_name,
        p.transaction_type,
        p.amount,
        Some(x as i64),
        Some(message_id),
        now,
    );
    let s2 = spec_record_transaction(
        sm.0,
        chat_id,
        p.wallet_name,
        p.transaction_type,
        p.amount,
        p.month,
        p.year,
        Some(message_id),
        now,
    ).0;
    let u = sm.1->Ok_0;
    let s3 = spec_record_message(
        s2,
        message_id,
        chat_id,
        p.wallet_name,
        true,
        Some(u.old_balance),
        Some(u.new_balance),
        now,
    ).0;
    assert(s3.wallets == sm.0.wallets);
}

/// Additive correctness: from balance `b`, an incoming amount `a` yields
/// `b + a` and an outgoing amount `a` yields `b - a`.
pub proof fn lemma_additive_correctness(b: int, a: int, direction: Seq<char>)
    ensures
        is_incoming(direction) ==> next_balance(b, direction, a) == b + a,
        is_outgoing(direction) ==> next_balance(b, direction, a) == b - a,
{
    reveal_strlit("出账");
    reveal_strlit("支出");
    reveal_strlit("入账");
    reveal_strlit("收入");
    assert("入账"@[0] != "出账"@[0] && "入账"@[0] != "支出"@[0]);
    assert("收入"@[0] != "出账"@[0] && "收入"@[0] != "支出"@[0]);
}

/// Total-exclusion, from any scan position: the selected transaction
/// amount never starts after an occurrence of the total tag.
pub proof fn lemma_select_amount_excludes_total(s: Seq<char>, pos: int)
    ensures
        select_amount_from(s, pos) matches Some(p) ==> !total_tag_before(s, p.0),
    decreases s.len() - pos,
{
    let m = |t: Seq<char>, j: int| amount_match_at(t, j);
    if pos >= 0 {
        lemma_first_match(s, pos, m);
        match first_match(s, pos, m) {
            Some(i) => {
                lemma_amount_end(s, i);
                if total_tag_before(s, i) || !crate::grammar::amount_ok(s, i) {
                    lemma_select_amount_excludes_total(s, crate::grammar::amount_end(s, i) + 1);
                }
            },
            None => {},
        }
    }
}

/// Total-exclusion: the transaction amount the extractor selects is never
/// a token that textually follows a total tag appearing earlier in the
/// message.
pub proof fn lemma_total_exclusion(s: Seq<char>)
    ensures
        spec_txn_amount(s) matches Some(p) ==> !total_tag_before(s, p.0),
{
    lemma_select_amount_excludes_total(s, 0);
}

/// Parse totality: the parse yields nothing exactly when the wallet tag,
/// the direction tag, the period pair or a qualifying transaction amount
/// is missing.
pub proof fn lemma_parse_totality(s: Seq<char>)
    ensures
        spec_parse(s) is None <==> (spec_wallet_name(s) is None || spec_direction(s) is None
            || spec_txn_amount(s) is None || spec_period(s) is None),
{
}

} // verus!
