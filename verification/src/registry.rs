//! The access registry contract: the vault notifies it of every document
//! access it grants, and it keeps the last such grant in its instance storage.

use vstd::prelude::*;

verus! {

/// The access registry contract.
pub struct MockAccessRegistry;

/// A storage write: the value `(document_id, requester)` to be stored under
/// the instance storage key `key`.
pub struct GrantEntry<A> {
    pub key: &'static str,
    pub document_id: u64,
    pub requester: A,
}

/// The instance storage key under which the registry keeps the last grant.
pub open spec fn grant_key() -> Seq<char> {
    seq!['l', 'a', 's', 't', '_', 'g', 'r', 'a', 'n', 't']
}

/// A character that a Soroban `Symbol` admits: `a-z`, `A-Z`, `0-9` or `_`.
pub open spec fn is_symbol_char(c: char) -> bool {
    ||| ('a' as u32) <= (c as u32) <= ('z' as u32)
    ||| ('A' as u32) <= (c as u32) <= ('Z' as u32)
    ||| ('0' as u32) <= (c as u32) <= ('9' as u32)
    ||| c == '_'
}

/// A text that a Soroban `Symbol` can hold: at most 32 characters, each of
/// them a symbol character.
pub open spec fn is_symbol_text(s: Seq<char>) -> bool {
    &&& s.len() <= 32
    &&& forall|i: int| 0 <= i < s.len() ==> #[trigger] is_symbol_char(s[i])
}

/// The write that recording a grant of `document_id` to `requester` makes:
/// the pair under the key `last_grant`.
pub open spec fn grant_write<A>(document_id: u64, requester: A) -> (Seq<char>, u64, A) {
    (grant_key(), document_id, requester)
}

impl<A> GrantEntry<A> {
    /// The entry as the key's text and the stored pair.
    pub open spec fn model(self) -> (Seq<char>, u64, A) {
        (self.key@, self.document_id, self.requester)
    }
}

impl MockAccessRegistry {
    /// Records that access to `document_id` was granted to `requester`: the
    /// entry to write is the pair `(document_id, requester)` under the key
    /// `last_grant`, which replaces whatever grant was recorded before. The
    /// key is a valid Soroban symbol, so turning it into a `Symbol` cannot
    /// fail.
    pub fn record_grant<A>(document_id: u64, requester: A) -> (entry: GrantEntry<A>)
        ensures
            entry.model() == grant_write(document_id, requester),
            is_symbol_text(entry.key@),
    {
        let key: &'static str = "last_grant";
        proof {
            reveal_strlit("last_grant");
            assert(key@ =~= grant_key());
        }
        GrantEntry { key, document_id, requester }
    }
}

/// The registry's instance storage, seen as a map from key text to the
/// stored grant pair.
pub type GrantStore<A> = Map<Seq<char>, (u64, A)>;

/// The storage after a write: the pair is put under the write's key,
/// replacing whatever was stored under that key before.
pub open spec fn apply_write<A>(store: GrantStore<A>, write: (Seq<char>, u64, A)) -> GrantStore<A> {
    store.insert(write.0, (write.1, write.2))
}

/// Every grant is written under one and the same key, which is a valid
/// Soroban symbol.
pub proof fn lemma_grants_share_one_slot<A>(
    first_document: u64,
    first_requester: A,
    second_document: u64,
    second_requester: A,
)
    ensures
        grant_write(first_document, first_requester).0 == grant_write(
            second_document,
            second_requester,
        ).0,
        is_symbol_text(grant_write(second_document, second_requester).0),
{
}

/// After recording a grant, the storage holds that grant under `last_grant`,
/// and every other key keeps what it held.
pub proof fn lemma_recorded_grant_reads_back<A>(store: GrantStore<A>, document_id: u64, requester: A)
    ensures
        apply_write(store, grant_write(document_id, requester)).contains_key(grant_key()),
        apply_write(store, grant_write(document_id, requester))[grant_key()] == (
            document_id,
            requester,
        ),
        forall|k: Seq<char>|
            k != grant_key() ==> (#[trigger] apply_write(
                store,
                grant_write(document_id, requester),
            ).contains_key(k) == store.contains_key(k) && (store.contains_key(k) ==> apply_write(
                store,
                grant_write(document_id, requester),
            )[k] == store[k])),
{
}

/// A later grant overwrites an earlier one: recording `(d1, r1)` and then
/// `(d2, r2)` leaves the storage exactly as recording `(d2, r2)` alone, so
/// the registry keeps only the last grant it was notified of.
pub proof fn lemma_later_grant_overwrites<A>(
    store: GrantStore<A>,
    first_document: u64,
    first_requester: A,
    second_document: u64,
    second_requester: A,
)
    ensures
        apply_write(
            apply_write(store, grant_write(first_document, first_requester)),
            grant_write(second_document, second_requester),
        ) == apply_write(store, grant_write(second_document, second_requester)),
{
    assert(apply_write(
        apply_write(store, grant_write(first_document, first_requester)),
        grant_write(second_document, second_requester),
    ) =~= apply_write(store, grant_write(second_document, second_requester)));
}

/// Recording the same grant twice leaves the storage as recording it once.
pub proof fn lemma_repeated_grant_is_idempotent<A>(
    store: GrantStore<A>,
    document_id: u64,
    requester: A,
)
    ensures
        apply_write(
            apply_write(store, grant_write(document_id, requester)),
            grant_write(document_id, requester),
        ) == apply_write(store, grant_write(document_id, requester)),
{
    lemma_later_grant_overwrites(store, document_id, requester, document_id, requester);
}

} // verus!
