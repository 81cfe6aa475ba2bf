//! Typed reads from a parsed configuration file.
//!
//! The file is parsed outside this crate into a `config::Config`, a store of
//! values under keys. Nothing here looks inside a store: each read is handed
//! to the store itself, and what it answers is given a name, so that the
//! contracts of the functions that decide on the answers can speak of it.
//! The contracts in this module are believed, not proved.

// Both are imported under another name: this crate has a `Config` and a
// `ConfigError` of its own.
use ::config::Config as Store;
use ::config::ConfigError as StoreError;
use vstd::prelude::*;

verus! {

/// `config::Config`, the store that the `config` crate fills from a parsed file.
#[verifier::external_type_specification]
#[verifier::external_body]
pub struct ExStore(Store);

/// What reading one key as one type gave.
#[derive(Debug, Clone, PartialEq, Eq)]
pub enum Lookup<T> {
    /// The store holds nothing under the key.
    Absent,
    /// The store holds a value under the key, and it reads as this.
    Found(T),
    /// The store holds a value under the key that cannot be read as the type asked for.
    Unfit,
}

/// Whether a character may stand in a name of a key: a lower-case letter, a
/// digit or an underscore.
pub open spec fn is_name_char(c: char) -> bool {
    ('a' <= c && c <= 'z') || ('0' <= c && c <= '9') || c == '_'
}

/// Whether a key is a path of names joined by single dots, such as
/// `player.scale`. Such a key holds no subscript, and the store can always
/// parse it.
pub open spec fn is_plain_key(key: Seq<char>) -> bool {
    &&& key.len() > 0
    &&& key[0] != '.'
    &&& key[key.len() - 1] != '.'
    &&& forall|i: int| 0 <= i < key.len() ==> is_name_char(#[trigger] key[i]) || key[i] == '.'
    &&& forall|i: int|
        0 <= i < key.len() - 1 ==> !(#[trigger] key[i] == '.' && key[i + 1] == '.')
}

/// A text read, with the text as a sequence of characters.
pub open spec fn text_view(read: Lookup<String>) -> Lookup<Seq<char>> {
    match read {
        Lookup::Absent => Lookup::Absent,
        Lookup::Found(text) => Lookup::Found(text@),
        Lookup::Unfit => Lookup::Unfit,
    }
}

/// What `Config::get_str` answers for this store and key.
pub uninterp spec fn text_at(store: Store, key: Seq<char>) -> Lookup<Seq<char>>;

/// What `Config::get_int` answers for this store and key.
pub uninterp spec fn int_at(store: Store, key: Seq<char>) -> Lookup<i64>;

/// What `Config::get_bool` answers for this store and key.
pub uninterp spec fn flag_at(store: Store, key: Seq<char>) -> Lookup<bool>;

/// What `Config::get_float` answers for this store and key, as a binary64 bit pattern.
pub uninterp spec fn real_at(store: Store, key: Seq<char>) -> Lookup<u64>;

/// Whether `Config::get_table` finds a table under this key of this store.
pub uninterp spec fn table_at(store: Store, key: Seq<char>) -> Lookup<()>;

/// Calls `Config::get_str`, which reads the value under `key` as a text.
///
/// The contract claims only that the answer depends on the store and the key
/// alone: it is `text_at` of the two. `Absent` stands for the store's
/// `NotFound` error, `Unfit` for any other error. Asked with a plain key, the
/// store has no other error than that the value is of the wrong type. A key
/// with a subscript is left out: the store panics on a negative subscript
/// that reaches before the start of a sequence.
#[verifier::external_body]
pub(crate) fn read_text(store: &Store, key: &str) -> (read: Lookup<String>)
    requires
        is_plain_key(key@),
    ensures
        text_view(read) == text_at(*store, key@),
{
    match store.get_str(key) {
        Ok(text) => Lookup::Found(text),
        Err(StoreError::NotFound(_)) => Lookup::Absent,
        Err(_) => Lookup::Unfit,
    }
}

/// Calls `Config::get_int`, which reads the value under `key` as a 64-bit integer.
///
/// The contract claims only that the answer depends on the store and the key
/// alone: it is `int_at` of the two. `Absent` stands for the store's
/// `NotFound` error, `Unfit` for any other error. The key is plain, for the
/// reasons given at `read_text`.
#[verifier::external_body]
pub(crate) fn read_int(store: &Store, key: &str) -> (read: Lookup<i64>)
    requires
        is_plain_key(key@),
    ensures
        read == int_at(*store, key@),
{
    match store.get_int(key) {
        Ok(number) => Lookup::Found(number),
        Err(StoreError::NotFound(_)) => Lookup::Absent,
        Err(_) => Lookup::Unfit,
    }
}

/// Calls `Config::get_bool`, which reads the value under `key` as a boolean.
///
/// The contract claims only that the answer depends on the store and the key
/// alone: it is `flag_at` of the two. `Absent` stands for the store's
/// `NotFound` error, `Unfit` for any other error. The key is plain, for the
/// reasons given at `read_text`.
#[verifier::external_body]
pub(crate) fn read_flag(store: &Store, key: &str) -> (read: Lookup<bool>)
    requires
        is_plain_key(key@),
    ensures
        read == flag_at(*store, key@),
{
    match store.get_bool(key) {
        Ok(flag) => Lookup::Found(flag),
        Err(StoreError::NotFound(_)) => Lookup::Absent,
        Err(_) => Lookup::Unfit,
    }
}

/// Calls `Config::get_float`, which reads the value under `key` as a real
/// number, and hands the number on as its bit pattern.
///
/// The contract claims only that the answer depends on the store and the key
/// alone: it is `real_at` of the two. `Absent` stands for the store's
/// `NotFound` error, `Unfit` for any other error. The key is plain, for the
/// reasons given at `read_text`.
#[verifier::external_body]
pub(crate) fn read_real(store: &Store, key: &str) -> (read: Lookup<u64>)
    requires
        is_plain_key(key@),
    ensures
        read == real_at(*store, key@),
{
    match store.get_float(key) {
        Ok(number) => Lookup::Found(number.to_bits()),
        Err(StoreError::NotFound(_)) => Lookup::Absent,
        Err(_) => Lookup::Unfit,
    }
}

/// Calls `Config::get_table`, which reads the value under `key` as a table of
/// further keys, and drops the table: only whether there is one is handed on.
///
/// The contract claims only that the answer depends on the store and the key
/// alone: it is `table_at` of the two. `Absent` stands for the store's
/// `NotFound` error, `Unfit` for any other error. The key is plain, for the
/// reasons given at `read_text`.
#[verifier::external_body]
pub(crate) fn read_table(store: &Store, key: &str) -> (read: Lookup<()>)
    requires
        is_plain_key(key@),
    ensures
        read == table_at(*store, key@),
{
    match store.get_table(key) {
        Ok(_) => Lookup::Found(()),
        Err(StoreError::NotFound(_)) => Lookup::Absent,
        Err(_) => Lookup::Unfit,
    }
}

} // verus!
