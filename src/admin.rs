//! Administrative operations: setting up and maintaining the relayer set and
//! the process-wide configuration. Each one is reserved to the recorded
//! administrator and changes nothing when it fails.

use vstd::prelude::*;
use crate::error::LedgerError;
use crate::state::{contains_address, distinct_addresses, Address, LedgerConfig, RelayerConfig, MAX_RELAYERS};

verus! {

/// `s` with every occurrence of `a` taken out, order kept.
pub open spec fn without(s: Seq<Address>, a: Address) -> Seq<Address>
    decreases s.len(),
{
    if s.len() == 0 {
        s
    } else if s.last() == a {
        without(s.drop_last(), a)
    } else {
        without(s.drop_last(), a).push(s.last())
    }
}

proof fn lemma_without(s: Seq<Address>, a: Address)
    ensures
        forall|x: Address| #[trigger] without(s, a).contains(x) <==> (s.contains(x) && x != a),
        distinct_addresses(s) ==> distinct_addresses(without(s, a)),
        without(s, a).len() <= s.len(),
    decreases s.len(),
{
    if s.len() > 0 {
        let p = s.drop_last();
        lemma_without(p, a);
        assert forall|x: Address| #[trigger] without(s, a).contains(x) <==> (s.contains(x) && x != a) by {
            if s.contains(x) && x != a {
                let i = choose|i: int| 0 <= i < s.len() && s[i] == x;
                if i < s.len() - 1 {
                    assert(p[i] == x);
                    assert(without(p, a).contains(x));
                    if s.last() != a {
                        let j = choose|j: int| 0 <= j < without(p, a).len() && without(p, a)[j] == x;
                        assert(without(s, a)[j] == x);
                    }
                } else {
                    assert(without(s, a).last() == x);
                }
            }
            if without(s, a).contains(x) {
                let j = choose|j: int| 0 <= j < without(s, a).len() && without(s, a)[j] == x;
                if s.last() == a || j < without(p, a).len() {
                    assert(without(p, a)[j] == x);
                    assert(without(p, a).contains(x));
                    let i = choose|i: int| 0 <= i < p.len() && p[i] == x;
                    assert(s[i] == x);
                } else {
                    assert(s[s.len() - 1] == x);
                }
            }
        }
        if distinct_addresses(s) {
            assert(distinct_addresses(p));
            if s.last() != a {
                assert(!p.contains(s.last())) by {
                    if p.contains(s.last()) {
                        let i = choose|i: int| 0 <= i < p.len() && p[i] == s.last();
                        assert(s[i] == s[s.len() - 1]);
                    }
                }
                assert(!without(p, a).contains(s.last()));
                let w = without(s, a);
                assert forall|i: int, j: int| 0 <= i < j < w.len() implies w[i] != w[j] by {
                    if j == w.len() - 1 {
                        assert(without(p, a)[i] == w[i]);
                        assert(without(p, a).contains(w[i]));
                    }
                }
            }
        }
    }
}

/// A new relayer set. The list must hold between one and `MAX_RELAYERS`
/// distinct relayers (`InvalidAccount`), and the threshold must lie between
/// one and their number (`InsufficientSignatures`).
pub fn initialize_relayers(
    admin: &Address,
    relayers: Vec<Address>,
    required_signatures: u8,
    bump: u8,
    now: i64,
) -> (r: Result<RelayerConfig, LedgerError>)
    ensures
        relayers@.len() == 0 || relayers@.len() > MAX_RELAYERS || !distinct_addresses(relayers@)
            ==> r == Err::<RelayerConfig, LedgerError>(LedgerError::InvalidAccount),
        1 <= relayers@.len() <= MAX_RELAYERS && distinct_addresses(relayers@) ==> {
            if required_signatures == 0 || required_signatures > relayers@.len() {
                r == Err::<RelayerConfig, LedgerError>(LedgerError::InsufficientSignatures)
            } else {
                &&& r is Ok
                &&& r->Ok_0.admin == *admin
                &&& r->Ok_0.authorized_relayers@ == relayers@
                &&& r->Ok_0.required_signatures == required_signatures
                &&& r->Ok_0.bump == bump
                &&& r->Ok_0.last_update_ts == now
                &&& r->Ok_0.wf()
            }
        },
{
    if relayers.len() == 0 || relayers.len() > MAX_RELAYERS {
        return Err(LedgerError::InvalidAccount);
    }
    let mut i: usize = 1;
    while i < relayers.len()
        invariant
            1 <= i <= relayers@.len(),
            distinct_addresses(relayers@.subrange(0, i as int)),
        decreases relayers@.len() - i,
    {
        let mut j: usize = 0;
        while j < i
            invariant
                j <= i < relayers@.len(),
                forall|k: int| 0 <= k < j ==> relayers@[k] != relayers@[i as int],
            decreases i - j,
        {
            if relayers[j].same(&relayers[i]) {
                assert(!distinct_addresses(relayers@)) by {
                    assert(relayers@[j as int] == relayers@[i as int]);
                }
                return Err(LedgerError::InvalidAccount);
            }
            j = j + 1;
        }
        assert(distinct_addresses(relayers@.subrange(0, i + 1))) by {
            let s = relayers@.subrange(0, i + 1);
            assert forall|a: int, b: int| 0 <= a < b < s.len() implies s[a] != s[b] by {
                if b < i {
                    assert(relayers@.subrange(0, i as int)[a] == s[a]);
                    assert(relayers@.subrange(0, i as int)[b] == s[b]);
                }
            }
        }
        i = i + 1;
    }
    assert(relayers@.subrange(0, relayers@.len() as int) =~= relayers@);
    if required_signatures == 0 || required_signatures as usize > relayers.len() {
        return Err(LedgerError::InsufficientSignatures);
    }
    Ok(RelayerConfig {
        admin: *admin,
        authorized_relayers: relayers,
        required_signatures,
        bump,
        last_update_ts: now,
    })
}

/// Adds `relayer` to the set (a relayer already present leaves the set as
/// it is). Fails with `InvalidAdmin` for any caller but the administrator,
/// and with `InvalidAccount` when the set is full.
pub fn add_relayer(config: &mut RelayerConfig, caller: &Address, relayer: &Address, now: i64) -> (r: Result<(), LedgerError>)
    ensures
        *caller != old(config).admin ==> r == Err::<(), LedgerError>(LedgerError::InvalidAdmin),
        *caller == old(config).admin && old(config).authorized_relayers@.len() >= MAX_RELAYERS
            ==> r == Err::<(), LedgerError>(LedgerError::InvalidAccount),
        *caller == old(config).admin && old(config).authorized_relayers@.len() < MAX_RELAYERS ==> {
            &&& r is Ok
            &&& if old(config).authorized_relayers@.contains(*relayer) {
                final(config).authorized_relayers@ == old(config).authorized_relayers@
                    && final(config).last_update_ts == old(config).last_update_ts
            } else {
                final(config).authorized_relayers@ == old(config).authorized_relayers@.push(*relayer)
                    && final(config).last_update_ts == now
            }
        },
        r is Err ==> final(config).authorized_relayers@ == old(config).authorized_relayers@
            && final(config).last_update_ts == old(config).last_update_ts,
        final(config).admin == old(config).admin,
        final(config).required_signatures == old(config).required_signatures,
        final(config).bump == old(config).bump,
        old(config).wf() ==> final(config).wf(),
{
    if !caller.same(&config.admin) {
        return Err(LedgerError::InvalidAdmin);
    }
    if config.authorized_relayers.len() >= MAX_RELAYERS {
        return Err(LedgerError::InvalidAccount);
    }
    if !contains_address(&config.authorized_relayers, relayer) {
        let ghost before = config.authorized_relayers@;
        config.authorized_relayers.push(*relayer);
        config.last_update_ts = now;
        proof {
            if distinct_addresses(before) {
                assert forall|i: int, j: int| 0 <= i < j < config.authorized_relayers@.len() implies
                    config.authorized_relayers@[i] != config.authorized_relayers@[j] by {
                    assert(before[i] == config.authorized_relayers@[i]);
                    if j < before.len() {
                        assert(before[j] == config.authorized_relayers@[j]);
                    } else {
                        assert(before.contains(before[i]));
                    }
                }
            }
        }
    }
    Ok(())
}

/// Removes `relayer` from the set. Fails with `InvalidAdmin` for any caller
/// but the administrator, and with `InsufficientSignatures` when fewer
/// relayers than the threshold would remain.
pub fn remove_relayer(config: &mut RelayerConfig, caller: &Address, relayer: &Address, now: i64) -> (r: Result<(), LedgerError>)
    ensures
        *caller != old(config).admin ==> r == Err::<(), LedgerError>(LedgerError::InvalidAdmin),
        *caller == old(config).admin ==> {
            let rest = without(old(config).authorized_relayers@, *relayer);
            if rest.len() < old(config).required_signatures {
                r == Err::<(), LedgerError>(LedgerError::InsufficientSignatures)
            } else {
                r is Ok && final(config).authorized_relayers@ == rest && final(config).last_update_ts == now
            }
        },
        r is Err ==> final(config).authorized_relayers@ == old(config).authorized_relayers@
            && final(config).last_update_ts == old(config).last_update_ts,
        final(config).admin == old(config).admin,
        final(config).required_signatures == old(config).required_signatures,
        final(config).bump == old(config).bump,
        old(config).wf() ==> final(config).wf(),
{
    if !caller.same(&config.admin) {
        return Err(LedgerError::InvalidAdmin);
    }
    let mut kept: Vec<Address> = Vec::new();
    let mut i: usize = 0;
    while i < config.authorized_relayers.len()
        invariant
            i <= config.authorized_relayers@.len(),
            kept@ == without(config.authorized_relayers@.subrange(0, i as int), *relayer),
        decreases config.authorized_relayers@.len() - i,
    {
        let a = config.authorized_relayers[i];
        proof {
            let s = config.authorized_relayers@.subrange(0, i + 1);
            assert(s.drop_last() =~= config.authorized_relayers@.subrange(0, i as int));
        }
        if !a.same(relayer) {
            kept.push(a);
        }
        i = i + 1;
    }
    assert(config.authorized_relayers@.subrange(0, config.authorized_relayers@.len() as int)
        =~= config.authorized_relayers@);
    proof {
        lemma_without(config.authorized_relayers@, *relayer);
    }
    if kept.len() < config.required_signatures as usize {
        return Err(LedgerError::InsufficientSignatures);
    }
    config.authorized_relayers = kept;
    config.last_update_ts = now;
    Ok(())
}

/// Sets the signature threshold, which must lie between one and the number
/// of relayers (`InsufficientSignatures`). Only the administrator may call
/// it (`InvalidAdmin`).
pub fn update_required_signatures(config: &mut RelayerConfig, caller: &Address, required_signatures: u8, now: i64) -> (r: Result<(), LedgerError>)
    ensures
        *caller != old(config).admin ==> r == Err::<(), LedgerError>(LedgerError::InvalidAdmin),
        *caller == old(config).admin ==> {
            if required_signatures == 0 || required_signatures > old(config).authorized_relayers@.len() {
                r == Err::<(), LedgerError>(LedgerError::InsufficientSignatures)
            } else {
                r is Ok && final(config).required_signatures == required_signatures
                    && final(config).last_update_ts == now
            }
        },
        r is Err ==> final(config).required_signatures == old(config).required_signatures
            && final(config).last_update_ts == old(config).last_update_ts,
        final(config).authorized_relayers@ == old(config).authorized_relayers@,
        final(config).admin == old(config).admin,
        final(config).bump == old(config).bump,
        old(config).wf() ==> final(config).wf(),
{
    if !caller.same(&config.admin) {
        return Err(LedgerError::InvalidAdmin);
    }
    if required_signatures == 0 || required_signatures as usize > config.authorized_relayers.len() {
        return Err(LedgerError::InsufficientSignatures);
    }
    config.required_signatures = required_signatures;
    config.last_update_ts = now;
    Ok(())
}

/// Pauses or resumes the ledger; administrator only (`InvalidAdmin`).
pub fn set_paused(config: &mut LedgerConfig, caller: &Address, paused: bool, now: i64) -> (r: Result<(), LedgerError>)
    ensures
        *caller != old(config).admin ==> r == Err::<(), LedgerError>(LedgerError::InvalidAdmin)
            && *final(config) == *old(config),
        *caller == old(config).admin ==> r == Ok::<(), LedgerError>(())
            && *final(config) == (LedgerConfig { is_paused: paused, last_update_ts: now, ..*old(config) }),
{
    if !caller.same(&config.admin) {
        return Err(LedgerError::InvalidAdmin);
    }
    config.is_paused = paused;
    config.last_update_ts = now;
    Ok(())
}

/// Hands administration to `new_admin`; administrator only (`InvalidAdmin`).
pub fn update_admin(config: &mut LedgerConfig, caller: &Address, new_admin: &Address, now: i64) -> (r: Result<(), LedgerError>)
    ensures
        *caller != old(config).admin ==> r == Err::<(), LedgerError>(LedgerError::InvalidAdmin)
            && *final(config) == *old(config),
        *caller == old(config).admin ==> r == Ok::<(), LedgerError>(())
            && *final(config) == (LedgerConfig { admin: *new_admin, last_update_ts: now, ..*old(config) }),
{
    if !caller.same(&config.admin) {
        return Err(LedgerError::InvalidAdmin);
    }
    config.admin = *new_admin;
    config.last_update_ts = now;
    Ok(())
}

/// Points the ledger at another custody service; administrator only
/// (`InvalidAdmin`).
pub fn update_vault_program(config: &mut LedgerConfig, caller: &Address, new_vault_program: &Address, now: i64) -> (r: Result<(), LedgerError>)
    ensures
        *caller != old(config).admin ==> r == Err::<(), LedgerError>(LedgerError::InvalidAdmin)
            && *final(config) == *old(config),
        *caller == old(config).admin ==> r == Ok::<(), LedgerError>(())
            && *final(config) == (LedgerConfig { vault_program: *new_vault_program, last_update_ts: now, ..*old(config) }),
{
    if !caller.same(&config.admin) {
        return Err(LedgerError::InvalidAdmin);
    }
    config.vault_program = *new_vault_program;
    config.last_update_ts = now;
    Ok(())
}

/// Points the ledger at another reserve service; administrator only
/// (`InvalidAdmin`).
pub fn update_fund_program(config: &mut LedgerConfig, caller: &Address, new_fund_program: &Address, now: i64) -> (r: Result<(), LedgerError>)
    ensures
        *caller != old(config).admin ==> r == Err::<(), LedgerError>(LedgerError::InvalidAdmin)
            && *final(config) == *old(config),
        *caller == old(config).admin ==> r == Ok::<(), LedgerError>(())
            && *final(config) == (LedgerConfig { fund_program: *new_fund_program, last_update_ts: now, ..*old(config) }),
{
    if !caller.same(&config.admin) {
        return Err(LedgerError::InvalidAdmin);
    }
    config.fund_program = *new_fund_program;
    config.last_update_ts = now;
    Ok(())
}

} // verus!
