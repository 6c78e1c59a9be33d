//! The concurrent maps that the endpoint keeps, and what is believed of them.
//!
//! The maps are [`dashmap::DashMap`]. Verus sees nothing inside one, so what a
//! map holds has a name here, and each method that the library calls has a
//! wrapper that says what it does to the contents. The order in which a map is
//! walked is left open.

use crate::sip::message::{SipMessage, SipMessageView};
use crate::transport::connection::{SipConnection, SipConnectionView};
use dashmap::DashMap;
use vstd::prelude::*;

verus! {

/// The map type of the `dashmap` crate.
#[verifier::external_type_specification]
#[verifier::external_body]
#[verifier::reject_recursive_types(K)]
#[verifier::reject_recursive_types(V)]
#[verifier::reject_recursive_types(S)]
pub struct ExDashMap<K, V, S>(dashmap::DashMap<K, V, S>);

/// The Call-ID and the two tags of a dialog.
pub type DialogKey = (String, String, String);

pub type DialogKeyView = (Seq<char>, Seq<char>, Seq<char>);

/// The Call-ID and the two tags of a dialog, and the CSeq number of an INVITE.
pub type InviteKey = (String, String, String, u32);

pub type InviteKeyView = (Seq<char>, Seq<char>, Seq<char>, u32);

/// An address as plain values: see [`crate::transport::transport_layer::key_of`].
pub type AddrKey = (u8, u8, String, u128, u32);

pub type AddrKeyView = (u8, u8, Seq<char>, u128, u32);

/// What a map from names to numbers holds.
pub uninterp spec fn numbers_in(m: DashMap<String, u64>) -> Map<Seq<char>, u64>;

/// What a map from names to messages holds.
pub uninterp spec fn messages_in(m: DashMap<String, Option<SipMessage>>) -> Map<
    Seq<char>,
    Option<SipMessageView>,
>;

/// What a map from dialogs to transactions holds.
pub uninterp spec fn waiting_in(m: DashMap<DialogKey, String>) -> Map<DialogKeyView, Seq<char>>;

/// What a map from INVITEs to transactions holds.
pub uninterp spec fn invites_in(m: DashMap<InviteKey, String>) -> Map<InviteKeyView, Seq<char>>;

/// What a map from addresses to connections holds.
pub uninterp spec fn connections_in(m: DashMap<AddrKey, SipConnection>) -> Map<
    AddrKeyView,
    SipConnectionView,
>;

/// `m` without the entries whose value is `v`.
pub open spec fn without_value<K>(m: Map<K, Seq<char>>, v: Seq<char>) -> Map<K, Seq<char>> {
    m.remove_keys(Set::new(|k: K| m.contains_key(k) && m[k] == v))
}

pub open spec fn holds_nothing<K, V>(m: Map<K, V>) -> bool {
    m == Map::<K, V>::empty()
}

/// `dashmap::DashMap::new`: the map holds nothing.
#[verifier::external_body]
pub(crate) fn numbers_new() -> (m: DashMap<String, u64>)
    ensures
        holds_nothing(numbers_in(m)),
{
    DashMap::new()
}

/// `dashmap::DashMap::insert`: the entry is there afterwards, in the place of
/// one under the same key, and no other entry changes.
#[verifier::external_body]
pub(crate) fn numbers_insert(m: &mut DashMap<String, u64>, key: String, value: u64)
    ensures
        numbers_in(*final(m)) == numbers_in(*old(m)).insert(key@, value),
{
    m.insert(key, value);
}

/// `dashmap::DashMap::remove`: the entry is gone and its value is returned; no
/// other entry changes.
#[verifier::external_body]
pub(crate) fn numbers_remove(m: &mut DashMap<String, u64>, key: &String) -> (r: Option<u64>)
    ensures
        numbers_in(*final(m)) == numbers_in(*old(m)).remove(key@),
        r == (if numbers_in(*old(m)).contains_key(key@) {
            Some(numbers_in(*old(m))[key@])
        } else {
            None
        }),
{
    m.remove(key).map(|e| e.1)
}

/// `dashmap::DashMap::get`: the value under a key.
#[verifier::external_body]
pub(crate) fn numbers_get(m: &DashMap<String, u64>, key: &String) -> (r: Option<u64>)
    ensures
        r == (if numbers_in(*m).contains_key(key@) {
            Some(numbers_in(*m)[key@])
        } else {
            None
        }),
{
    m.get(key).map(|e| *e.value())
}

/// `dashmap::DashMap::iter`: every key once, in an order that is left open.
#[verifier::external_body]
pub(crate) fn numbers_keys(m: &DashMap<String, u64>) -> (r: Vec<String>)
    ensures
        r.deep_view().no_duplicates(),
        r.deep_view().to_set() == numbers_in(*m).dom(),
{
    m.iter().map(|e| e.key().clone()).collect()
}

/// `dashmap::DashMap::len`: the number of entries.
#[verifier::external_body]
pub(crate) fn numbers_len(m: &DashMap<String, u64>) -> (n: usize)
    ensures
        n == numbers_in(*m).len(),
{
    m.len()
}

/// `dashmap::DashMap::new`: the map holds nothing.
#[verifier::external_body]
pub(crate) fn messages_new() -> (m: DashMap<String, Option<SipMessage>>)
    ensures
        holds_nothing(messages_in(m)),
{
    DashMap::new()
}

/// `dashmap::DashMap::insert`: the entry is there afterwards, in the place of
/// one under the same key, and no other entry changes.
#[verifier::external_body]
pub(crate) fn messages_insert(
    m: &mut DashMap<String, Option<SipMessage>>,
    key: String,
    value: Option<SipMessage>,
)
    ensures
        messages_in(*final(m)) == messages_in(*old(m)).insert(key@, value.deep_view()),
{
    m.insert(key, value);
}

/// `dashmap::DashMap::remove`: the entry is gone and no other entry changes.
#[verifier::external_body]
pub(crate) fn messages_remove(m: &mut DashMap<String, Option<SipMessage>>, key: &String)
    ensures
        messages_in(*final(m)) == messages_in(*old(m)).remove(key@),
{
    m.remove(key);
}

/// `dashmap::DashMap::get`: a copy of the value under a key.
#[verifier::external_body]
pub(crate) fn messages_get(m: &DashMap<String, Option<SipMessage>>, key: &String) -> (r: Option<
    Option<SipMessage>,
>)
    ensures
        r.deep_view() == (if messages_in(*m).contains_key(key@) {
            Some(messages_in(*m)[key@])
        } else {
            None
        }),
{
    m.get(key).map(|e| e.value().clone())
}

/// `dashmap::DashMap::len`: the number of entries.
#[verifier::external_body]
pub(crate) fn messages_len(m: &DashMap<String, Option<SipMessage>>) -> (n: usize)
    ensures
        n == messages_in(*m).len(),
{
    m.len()
}

/// `dashmap::DashMap::new`: the map holds nothing.
#[verifier::external_body]
pub(crate) fn waiting_new() -> (m: DashMap<DialogKey, String>)
    ensures
        holds_nothing(waiting_in(m)),
{
    DashMap::new()
}

/// `dashmap::DashMap::insert`: the entry is there afterwards, in the place of
/// one under the same key, and no other entry changes.
#[verifier::external_body]
pub(crate) fn waiting_insert(m: &mut DashMap<DialogKey, String>, key: DialogKey, value: String)
    ensures
        waiting_in(*final(m)) == waiting_in(*old(m)).insert(key.deep_view(), value@),
{
    m.insert(key, value);
}

/// `dashmap::DashMap::remove`: the entry is gone and no other entry changes.
#[verifier::external_body]
pub(crate) fn waiting_remove(m: &mut DashMap<DialogKey, String>, key: &DialogKey)
    ensures
        waiting_in(*final(m)) == waiting_in(*old(m)).remove(key.deep_view()),
{
    m.remove(key);
}

/// Whether two names are the same.
pub(crate) fn is_same(a: &String, b: &String) -> (r: bool)
    ensures
        r == (a@ == b@),
{
    *a == *b
}

/// Whether two names differ.
pub(crate) fn is_other(a: &String, b: &String) -> (r: bool)
    ensures
        r == (a@ != b@),
{
    *a != *b
}

/// `dashmap::DashMap::remove_if`: the entry under `key` is gone if its value is
/// `value`, and no other entry changes.
#[verifier::external_body]
pub(crate) fn waiting_remove_if(
    m: &mut DashMap<DialogKey, String>,
    key: &DialogKey,
    value: &String,
)
    ensures
        waiting_in(*final(m)) == (if waiting_in(*old(m)).contains_key(key.deep_view())
            && waiting_in(*old(m))[key.deep_view()] == value@ {
            waiting_in(*old(m)).remove(key.deep_view())
        } else {
            waiting_in(*old(m))
        }),
{
    m.remove_if(key, |_, v| is_same(v, value));
}

/// `dashmap::DashMap::retain`: the entries whose value is `value` are gone, and
/// no other entry changes.
#[verifier::external_body]
pub(crate) fn waiting_drop_value(m: &mut DashMap<DialogKey, String>, value: &String)
    ensures
        waiting_in(*final(m)) == without_value(waiting_in(*old(m)), value@),
{
    m.retain(|_, v| is_other(v, value));
}

/// `dashmap::DashMap::len`: the number of entries.
#[verifier::external_body]
pub(crate) fn waiting_len(m: &DashMap<DialogKey, String>) -> (n: usize)
    ensures
        n == waiting_in(*m).len(),
{
    m.len()
}

/// `dashmap::DashMap::new`: the map holds nothing.
#[verifier::external_body]
pub(crate) fn invites_new() -> (m: DashMap<InviteKey, String>)
    ensures
        holds_nothing(invites_in(m)),
{
    DashMap::new()
}

/// `dashmap::DashMap::insert`: the entry is there afterwards, in the place of
/// one under the same key, and no other entry changes.
#[verifier::external_body]
pub(crate) fn invites_insert(m: &mut DashMap<InviteKey, String>, key: InviteKey, value: String)
    ensures
        invites_in(*final(m)) == invites_in(*old(m)).insert(key.deep_view(), value@),
{
    m.insert(key, value);
}

/// `dashmap::DashMap::get`: a copy of the value under a key.
#[verifier::external_body]
pub(crate) fn invites_get(m: &DashMap<InviteKey, String>, key: &InviteKey) -> (r: Option<String>)
    ensures
        r.deep_view() == (if invites_in(*m).contains_key(key.deep_view()) {
            Some(invites_in(*m)[key.deep_view()])
        } else {
            None
        }),
{
    m.get(key).map(|e| e.value().clone())
}

/// `dashmap::DashMap::retain`: the entries whose value is `value` are gone, and
/// no other entry changes.
#[verifier::external_body]
pub(crate) fn invites_drop_value(m: &mut DashMap<InviteKey, String>, value: &String)
    ensures
        invites_in(*final(m)) == without_value(invites_in(*old(m)), value@),
{
    m.retain(|_, v| is_other(v, value));
}

/// `dashmap::DashMap::new`: the map holds nothing.
#[verifier::external_body]
pub(crate) fn connections_new() -> (m: DashMap<AddrKey, SipConnection>)
    ensures
        holds_nothing(connections_in(m)),
{
    DashMap::new()
}

/// `dashmap::DashMap::insert`: the entry is there afterwards, in the place of
/// one under the same key, and no other entry changes.
#[verifier::external_body]
pub(crate) fn connections_insert(
    m: &mut DashMap<AddrKey, SipConnection>,
    key: AddrKey,
    value: SipConnection,
)
    ensures
        connections_in(*final(m)) == connections_in(*old(m)).insert(key.deep_view(), value@),
{
    m.insert(key, value);
}

/// `dashmap::DashMap::remove`: the entry is gone and no other entry changes.
#[verifier::external_body]
pub(crate) fn connections_remove(m: &mut DashMap<AddrKey, SipConnection>, key: &AddrKey)
    ensures
        connections_in(*final(m)) == connections_in(*old(m)).remove(key.deep_view()),
{
    m.remove(key);
}

/// `dashmap::DashMap::remove_if`: the entry under `key` is gone if it is the
/// same stream as `connection`, and no other entry changes.
#[verifier::external_body]
pub(crate) fn connections_remove_if(
    m: &mut DashMap<AddrKey, SipConnection>,
    key: &AddrKey,
    connection: &SipConnection,
)
    ensures
        connections_in(*final(m)) == (if connections_in(*old(m)).contains_key(key.deep_view())
            && connections_in(*old(m))[key.deep_view()].is_same_stream(connection@) {
            connections_in(*old(m)).remove(key.deep_view())
        } else {
            connections_in(*old(m))
        }),
{
    m.remove_if(key, |_, cached| cached.is_same_stream(connection));
}

/// `dashmap::DashMap::get`: a copy of the value under a key.
#[verifier::external_body]
pub(crate) fn connections_get(m: &DashMap<AddrKey, SipConnection>, key: &AddrKey) -> (r: Option<
    SipConnection,
>)
    ensures
        r.deep_view() == (if connections_in(*m).contains_key(key.deep_view()) {
            Some(connections_in(*m)[key.deep_view()])
        } else {
            None
        }),
{
    m.get(key).map(|e| e.value().clone())
}

/// `dashmap::DashMap::iter`: the value of every entry, in an order that is left
/// open.
#[verifier::external_body]
pub(crate) fn connections_list(m: &DashMap<AddrKey, SipConnection>) -> (r: Vec<SipConnection>)
    ensures
        r.len() == connections_in(*m).len(),
        r.deep_view().to_set() == connections_in(*m).values(),
{
    m.iter().map(|e| e.value().clone()).collect()
}

/// Exactly the entries with another value stay, as they are.
pub proof fn law_other_values_stay<K>(m: Map<K, Seq<char>>, v: Seq<char>, k: K)
    ensures
        without_value(m, v).contains_key(k) <==> m.contains_key(k) && m[k] != v,
        m.contains_key(k) && m[k] != v ==> without_value(m, v)[k] == m[k],
{
}

}
