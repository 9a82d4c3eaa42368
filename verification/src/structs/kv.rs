//! Keys of the key-value store: each user and each guild has a namespace,
//! and every key is stored under its namespace's prefix.

use vstd::prelude::*;
use vstd::string::*;

use crate::error::Error;
use crate::text::{decimal, lemma_decimal_digits, lemma_decimal_injective, u64_to_decimal};

verus! {

/// The binding of the key-value store.
pub open spec fn kv_binding() -> Seq<char> {
    "ggsbotkv"@
}

/// The name of the key-value store binding.
pub fn kv_binding_name() -> (res: &'static str)
    ensures
        res@ == kv_binding(),
{
    "ggsbotkv"
}

/// The stored key of `key` in the namespace `prefix`: `prefix:key`.
pub fn format_key(prefix: &str, key: &str) -> (res: String)
    ensures
        res@ == prefix@ + ":"@ + key@,
{
    let mut s = prefix.to_owned();
    s.append(":");
    s.append(key);
    s
}

/// The prefix that a listing in the namespace `prefix` asks for: the
/// namespace, `:` and the listing's own prefix (none meaning empty).
pub fn list_prefix(prefix: &str, sub_prefix: Option<String>) -> (res: String)
    ensures
        res@ == prefix@ + ":"@ + match sub_prefix {
            Some(p) => p@,
            None => Seq::<char>::empty(),
        },
{
    let mut s = prefix.to_owned();
    s.append(":");
    match sub_prefix {
        Some(p) => s.append(p.as_str()),
        None => {},
    }
    s
}

/// The namespace of the author of an interaction: `users:<id>`.
pub fn user_kv_prefix(author_id: Option<u64>) -> (res: Result<String, Error>)
    ensures
        match author_id {
            Some(id) => res matches Ok(p) && p@ == "users:"@ + decimal(id as nat),
            None => res matches Err(Error::Generic(m)) && m@ == "Missing author id"@,
        },
{
    match author_id {
        Some(id) => {
            let mut s = "users:".to_owned();
            s.append(u64_to_decimal(id).as_str());
            Ok(s)
        },
        None => Err(Error::Generic("Missing author id".to_owned())),
    }
}

/// The namespace of the guild of an interaction: `guilds:<id>`.
pub fn guild_kv_prefix(guild_id: Option<u64>) -> (res: Result<String, Error>)
    ensures
        match guild_id {
            Some(id) => res matches Ok(p) && p@ == "guilds:"@ + decimal(id as nat),
            None => res matches Err(Error::InteractionFailed(m)) && m@ == "Missing guild_id"@,
        },
{
    match guild_id {
        Some(id) => {
            let mut s = "guilds:".to_owned();
            s.append(u64_to_decimal(id).as_str());
            Ok(s)
        },
        None => Err(Error::InteractionFailed("Missing guild_id".to_owned())),
    }
}

/// The key of an extension's configuration in a guild's namespace.
pub fn extension_config_key(extension: &str) -> (res: String)
    ensures
        res@ == "extensions:"@ + extension@ + ":config"@,
{
    let mut s = "extensions:".to_owned();
    s.append(extension);
    s.append(":config");
    s
}

/// The keys of two different users, or of two different guilds, never
/// meet: a namespace `<kind>:<id>` followed by `:` and a key determines the
/// id and the key.
pub proof fn lemma_namespaces_disjoint(kind: Seq<char>, a: u64, b: u64, k1: Seq<char>, k2: Seq<char>)
    requires
        kind + decimal(a as nat) + ":"@ + k1 == kind + decimal(b as nat) + ":"@ + k2,
    ensures
        a == b,
        k1 == k2,
{
    reveal_strlit(":");
    let da = decimal(a as nat);
    let db = decimal(b as nat);
    let s1 = kind + da + ":"@ + k1;
    let s2 = kind + db + ":"@ + k2;
    lemma_decimal_digits(a as nat);
    lemma_decimal_digits(b as nat);
    let n: int = kind.len() as int;
    let la: int = da.len() as int;
    let lb: int = db.len() as int;
    if la < lb {
        assert(s1[n + la] == ':');
        assert(s2[n + la] == db[la]);
        assert(false);
    } else if lb < la {
        assert(s2[n + lb] == ':');
        assert(s1[n + lb] == da[lb]);
        assert(false);
    }
    assert(s1.subrange(n, n + la) =~= da);
    assert(s2.subrange(n, n + lb) =~= db);
    lemma_decimal_injective(a as nat, b as nat);
    assert(s1.skip(n + la + 1) =~= k1);
    assert(s2.skip(n + lb + 1) =~= k2);
}

} // verus!
