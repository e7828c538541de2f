use vstd::prelude::*;
use vstd::string::*;

use crate::error::ContractError;
use crate::factory_msg::{ExecuteMsg, GetVaultRecordResponse, QueryMsg, VaultData};

verus! {

/// One registered vault. Never mutated and never deleted once it is
/// appended; `vault_id` is the decimal numeral of its position, counted
/// from one.
#[derive(Debug)]
pub struct Vault {
    pub name: String,
    pub symbol: String,
    pub vault_id: String,
    pub vault_address: String,
    pub vault_owner: String,
}

/// Mathematical value of a [`Vault`].
#[verifier::ext_equal]
pub ghost struct VaultV {
    pub name: Seq<char>,
    pub symbol: Seq<char>,
    pub vault_id: Seq<char>,
    pub vault_address: Seq<char>,
    pub vault_owner: Seq<char>,
}

impl View for Vault {
    type V = VaultV;

    open spec fn view(&self) -> VaultV {
        VaultV {
            name: self.name@,
            symbol: self.symbol@,
            vault_id: self.vault_id@,
            vault_address: self.vault_address@,
            vault_owner: self.vault_owner@,
        }
    }
}

/// Mathematical value of a record list.
pub open spec fn deep(records: Seq<Vault>) -> Seq<VaultV> {
    records.map_values(|v: Vault| v@)
}

/// The character of the decimal digit `d`.
pub open spec fn digit_char(d: int) -> char {
    if d == 0 { '0' }
    else if d == 1 { '1' }
    else if d == 2 { '2' }
    else if d == 3 { '3' }
    else if d == 4 { '4' }
    else if d == 5 { '5' }
    else if d == 6 { '6' }
    else if d == 7 { '7' }
    else if d == 8 { '8' }
    else { '9' }
}

/// The decimal numeral of `n`, most significant digit first.
pub open spec fn decimal_seq(n: nat) -> Seq<char>
    decreases n,
{
    if n < 10 {
        seq![digit_char(n as int)]
    } else {
        decimal_seq(n / 10).push(digit_char((n % 10) as int))
    }
}

/// A record with the given name, symbol or address already exists.
pub open spec fn has_conflict(records: Seq<VaultV>, name: Seq<char>, symbol: Seq<char>,
    vault_address: Seq<char>) -> bool {
    exists|i: int| 0 <= i < records.len() && (#[trigger] records[i].name == name
        || records[i].symbol == symbol || records[i].vault_address == vault_address)
}

/// What registering does: a conflicting record fails and changes nothing;
/// otherwise the record is appended under the next sequence number, and that
/// number's numeral is returned.
pub open spec fn register_spec(pre: Seq<VaultV>, post: Seq<VaultV>, sender: Seq<char>,
    name: Seq<char>, symbol: Seq<char>, vault_address: Seq<char>,
    r: Result<String, ContractError>) -> bool {
    if has_conflict(pre, name, symbol, vault_address) {
        r == Err::<String, ContractError>(ContractError::DuplicateVault) && post == pre
    } else {
        r matches Ok(id) && id@ == decimal_seq((pre.len() + 1) as nat)
            && (post == pre.push(VaultV {
                name,
                symbol,
                vault_id: id@,
                vault_address,
                vault_owner: sender,
            }))
    }
}

/// Names, symbols and addresses are pairwise distinct across the registry.
pub open spec fn registry_unique(records: Seq<VaultV>) -> bool {
    forall|i: int, j: int| #![trigger records[i], records[j]]
        0 <= i < j < records.len() ==> (records[i].name != records[j].name
            && records[i].symbol != records[j].symbol
            && records[i].vault_address != records[j].vault_address)
}

/// Each record carries the numeral of its position, counted from one: the
/// identifiers run "1", "2", "3", ... in registration order.
pub open spec fn registry_ids_sequential(records: Seq<VaultV>) -> bool {
    forall|i: int| 0 <= i < records.len()
        ==> #[trigger] records[i].vault_id == decimal_seq((i + 1) as nat)
}

/// Registering keeps the registry's invariant: when a registration is
/// accepted on a registry with pairwise-distinct records and sequential
/// identifiers, the grown registry has them too.
pub proof fn lemma_register_preserves_invariant(pre: Seq<VaultV>, post: Seq<VaultV>,
    sender: Seq<char>, name: Seq<char>, symbol: Seq<char>, vault_address: Seq<char>,
    r: Result<String, ContractError>)
    requires
        registry_unique(pre),
        registry_ids_sequential(pre),
        register_spec(pre, post, sender, name, symbol, vault_address, r),
        r is Ok,
    ensures
        registry_unique(post),
        registry_ids_sequential(post),
{
    assert(!has_conflict(pre, name, symbol, vault_address));
    assert forall|i: int, j: int| #![trigger post[i], post[j]]
        0 <= i < j < post.len() implies (post[i].name != post[j].name
            && post[i].symbol != post[j].symbol
            && post[i].vault_address != post[j].vault_address) by {
        if j < pre.len() {
            assert(post[i] == pre[i] && post[j] == pre[j]);
        } else {
            assert(post[i] == pre[i]);
            assert(!(pre[i].name == name || pre[i].symbol == symbol
                || pre[i].vault_address == vault_address));
        }
    }
    assert forall|i: int| 0 <= i < post.len()
        implies #[trigger] post[i].vault_id == decimal_seq((i + 1) as nat) by {
        if i < pre.len() {
            assert(post[i] == pre[i]);
        }
    }
}

/// A byte-for-byte copy of a record.
fn clone_record(v: &Vault) -> (r: Vault)
    ensures
        r@ == v@,
{
    Vault {
        name: v.name.clone(),
        symbol: v.symbol.clone(),
        vault_id: v.vault_id.clone(),
        vault_address: v.vault_address.clone(),
        vault_owner: v.vault_owner.clone(),
    }
}

/// One decimal digit as text.
fn digit_str(d: u64) -> (s: &'static str)
    requires
        d < 10,
    ensures
        s@ == seq![digit_char(d as int)],
{
    if d == 0 {
        let s = "0";
        proof { reveal_strlit("0"); assert(s@ =~= seq!['0']); }
        s
    } else if d == 1 {
        let s = "1";
        proof { reveal_strlit("1"); assert(s@ =~= seq!['1']); }
        s
    } else if d == 2 {
        let s = "2";
        proof { reveal_strlit("2"); assert(s@ =~= seq!['2']); }
        s
    } else if d == 3 {
        let s = "3";
        proof { reveal_strlit("3"); assert(s@ =~= seq!['3']); }
        s
    } else if d == 4 {
        let s = "4";
        proof { reveal_strlit("4"); assert(s@ =~= seq!['4']); }
        s
    } else if d == 5 {
        let s = "5";
        proof { reveal_strlit("5"); assert(s@ =~= seq!['5']); }
        s
    } else if d == 6 {
        let s = "6";
        proof { reveal_strlit("6"); assert(s@ =~= seq!['6']); }
        s
    } else if d == 7 {
        let s = "7";
        proof { reveal_strlit("7"); assert(s@ =~= seq!['7']); }
        s
    } else if d == 8 {
        let s = "8";
        proof { reveal_strlit("8"); assert(s@ =~= seq!['8']); }
        s
    } else {
        let s = "9";
        proof { reveal_strlit("9"); assert(s@ =~= seq!['9']); }
        s
    }
}

/// The decimal numeral of `n` as text.
pub fn u64_to_decimal(n: u64) -> (s: String)
    ensures
        s@ == decimal_seq(n as nat),
    decreases n,
{
    if n < 10 {
        digit_str(n).to_owned()
    } else {
        let mut s = u64_to_decimal(n / 10);
        s.append(digit_str(n % 10));
        proof {
            assert(s@ =~= decimal_seq((n / 10) as nat).push(digit_char((n % 10) as int)));
        }
        s
    }
}

/// Register a vault: scan the records for a name, symbol or address clash,
/// and append the new record under the next sequence number.
pub fn execute_register(records: &mut Vec<Vault>, sender: String, vault_data: VaultData)
    -> (r: Result<String, ContractError>)
    requires
        old(records)@.len() < u64::MAX,
    ensures
        register_spec(deep(old(records)@), deep(final(records)@), sender@, vault_data.name@,
            vault_data.symbol@, vault_data.vault_address@, r),
{
    let n = records.len();
    let mut i: usize = 0;
    while i < n
        invariant
            i <= n,
            n == records@.len(),
            records@ == old(records)@,
            old(records)@.len() < u64::MAX,
            forall|j: int| 0 <= j < i ==> !(#[trigger] deep(records@)[j].name == vault_data.name@
                || deep(records@)[j].symbol == vault_data.symbol@
                || deep(records@)[j].vault_address == vault_data.vault_address@),
        decreases n - i,
    {
        let rec = &records[i];
        if rec.name == vault_data.name || rec.symbol == vault_data.symbol
            || rec.vault_address == vault_data.vault_address {
            proof {
                // The clashing record witnesses the conflict.
                assert(deep(records@)[i as int].name == records@[i as int]@.name);
            }
            return Err(ContractError::DuplicateVault);
        }
        i += 1;
    }
    let id = u64_to_decimal((n as u64) + 1);
    let vault = Vault {
        name: vault_data.name,
        symbol: vault_data.symbol,
        vault_id: id.clone(),
        vault_address: vault_data.vault_address,
        vault_owner: sender,
    };
    records.push(vault);
    proof {
        assert(deep(records@) =~= deep(old(records)@).push(VaultV {
            name: vault_data.name@,
            symbol: vault_data.symbol@,
            vault_id: id@,
            vault_address: vault_data.vault_address@,
            vault_owner: sender@,
        }));
    }
    Ok(id)
}

/// Run an execution message of the factory.
pub fn execute(records: &mut Vec<Vault>, sender: String, msg: ExecuteMsg)
    -> (r: Result<String, ContractError>)
    requires
        old(records)@.len() < u64::MAX,
    ensures
        (match msg {
            ExecuteMsg::RegisterVault(vault_data) => register_spec(deep(old(records)@),
                deep(final(records)@), sender@, vault_data.name@, vault_data.symbol@,
                vault_data.vault_address@, r),
        }),
{
    match msg {
        ExecuteMsg::RegisterVault(vault_data) => execute_register(records, sender, vault_data),
    }
}

/// Answer a query of the factory.
pub fn query(records: &Vec<Vault>, msg: QueryMsg) -> (r: GetVaultRecordResponse)
    ensures
        (match msg {
            QueryMsg::GetVaults {  } => deep(r.vault_array@) == deep(records@),
        }),
{
    match msg {
        QueryMsg::GetVaults {} => get_vault_array(records),
    }
}

/// Every registered vault, verbatim and in registration order. An absent
/// list reads as empty, never as an error.
pub fn get_vault_array(records: &Vec<Vault>) -> (r: GetVaultRecordResponse)
    ensures
        deep(r.vault_array@) == deep(records@),
{
    let n = records.len();
    let mut out: Vec<Vault> = Vec::new();
    let mut i: usize = 0;
    while i < n
        invariant
            i <= n,
            n == records@.len(),
            out@.len() == i,
            forall|j: int| 0 <= j < i ==> #[trigger] out@[j]@ == records@[j]@,
        decreases n - i,
    {
        out.push(clone_record(&records[i]));
        i += 1;
    }
    proof {
        assert(deep(out@) =~= deep(records@));
    }
    GetVaultRecordResponse { vault_array: out }
}

} // verus!
