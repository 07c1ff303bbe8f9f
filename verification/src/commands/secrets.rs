//! API key entries as they are shown to the user interface: never the key
//! itself, only a masked form of it.

use crate::commands::env_file::{has_key, lookup, text_of, with_entry, without, EnvVars, Pairs};
use crate::commands::CommandError;
use crate::ipc::spawn::texts_of;
use crate::text::{
    has_prefix, join2, join3, lowercased, split_at_first, split_once, strip_prefix, text_eq,
    to_lowercase, to_uppercase, uppercased,
};
use vstd::prelude::*;
use vstd::string::StringExecFns;
use vstd::utf8::{decode_utf8, encode_utf8, encode_utf8_decode_utf8, is_char_boundary};

verus! {

/// An API key entry as the user interface sees it.
#[derive(Debug, Clone)]
pub struct ApiKeyEntry {
    /// Unique identifier.
    pub id: String,
    /// Service the key belongs to.
    pub service: String,
    /// User-friendly name.
    pub name: String,
    /// Masked form of the key.
    pub key_masked: String,
    /// Whether this key is the active one of its service.
    pub is_active: bool,
    /// Time at which the key was created.
    pub created_at: String,
}

/// An API key entry as a plain value.
pub struct ApiKeyEntryView {
    pub id: Seq<char>,
    pub service: Seq<char>,
    pub name: Seq<char>,
    pub key_masked: Seq<char>,
    pub is_active: bool,
    pub created_at: Seq<char>,
}

impl View for ApiKeyEntry {
    type V = ApiKeyEntryView;

    open spec fn view(&self) -> ApiKeyEntryView {
        ApiKeyEntryView {
            id: self.id@,
            service: self.service@,
            name: self.name@,
            key_masked: self.key_masked@,
            is_active: self.is_active,
            created_at: self.created_at@,
        }
    }
}

/// An API key with the key itself; it never leaves the backend.
#[derive(Debug, Clone)]
pub struct ApiKeyInternal {
    /// Unique identifier.
    pub id: String,
    /// Service the key belongs to.
    pub service: String,
    /// User-friendly name.
    pub name: String,
    /// The key.
    pub key: String,
    /// Time at which the key was created.
    pub created_at: String,
}

/// A run of asterisks.
pub open spec fn stars(n: nat) -> Seq<char> {
    Seq::new(n, |i: int| '*')
}

/// Whether a key can be masked: a short key always, a longer one where its
/// first three and its last three bytes are whole characters.
pub open spec fn maskable(key: Seq<char>) -> bool {
    let bytes = encode_utf8(key);
    bytes.len() > 6 ==> is_char_boundary(bytes, 3) && is_char_boundary(bytes, bytes.len() - 3)
}

/// The masked form of a key: for a key of at most six bytes, one asterisk
/// for each byte; for a longer key, its first three bytes, three asterisks,
/// and its last three bytes.
pub open spec fn masked(key: Seq<char>) -> Seq<char> {
    let bytes = encode_utf8(key);
    if bytes.len() <= 6 {
        stars(bytes.len())
    } else {
        decode_utf8(bytes.subrange(0, 3)) + "***"@ + decode_utf8(
            bytes.subrange(bytes.len() - 3, bytes.len() as int),
        )
    }
}

fn asterisks(n: usize) -> (s: String)
    ensures
        s@ == stars(n as nat),
{
    let mut s = String::new();
    let mut i: usize = 0;
    while i < n
        invariant
            0 <= i <= n,
            s@ == stars(i as nat),
        decreases n - i,
    {
        s.append("*");
        proof {
            reveal_strlit("*");
            assert(s@ =~= stars((i + 1) as nat));
        }
        i = i + 1;
    }
    s
}

/// Masks a key for display.
pub fn mask_key(key: &str) -> (r: String)
    requires
        maskable(key@),
    ensures
        r@ == masked(key@),
{
    let len = key.as_bytes().len();
    assert(len == encode_utf8(key@).len());
    if len <= 6 {
        return asterisks(len);
    }
    let head = key.split_at(3).0;
    let tail = key.split_at(len - 3).1;
    proof {
        encode_utf8_decode_utf8(head@);
        encode_utf8_decode_utf8(tail@);
        assert(encode_utf8(head@) == encode_utf8(key@).subrange(0, 3));
        assert(encode_utf8(tail@) == encode_utf8(key@).subrange(len - 3, len as int));
    }
    join3(head, "***", tail)
}

impl ApiKeyInternal {
    /// The entry for the user interface: everything but the key, which
    /// appears masked.
    pub fn to_entry(&self, is_active: bool) -> (r: ApiKeyEntry)
        requires
            maskable(self.key@),
        ensures
            r@ == (ApiKeyEntryView {
                id: self.id@,
                service: self.service@,
                name: self.name@,
                key_masked: masked(self.key@),
                is_active,
                created_at: self.created_at@,
            }),
    {
        ApiKeyEntry {
            id: self.id.clone(),
            service: self.service.clone(),
            name: self.name.clone(),
            key_masked: mask_key(self.key.as_str()),
            is_active,
            created_at: self.created_at.clone(),
        }
    }
}

/// An API key with the key itself, as a plain value.
pub struct ApiKeyView {
    pub id: Seq<char>,
    pub service: Seq<char>,
    pub name: Seq<char>,
    pub key: Seq<char>,
    pub created_at: Seq<char>,
}

impl View for ApiKeyInternal {
    type V = ApiKeyView;

    open spec fn view(&self) -> ApiKeyView {
        ApiKeyView {
            id: self.id@,
            service: self.service@,
            name: self.name@,
            key: self.key@,
            created_at: self.created_at@,
        }
    }
}

/// The prefix of the variables that hold the keys of a service.
pub open spec fn key_prefix(service: Seq<char>) -> Seq<char> {
    "APIKEY_"@ + uppercased(service) + "_"@
}

/// The prefix of the variables that hold the names of the keys of a service.
pub open spec fn name_prefix(service: Seq<char>) -> Seq<char> {
    "APIKEY_NAME_"@ + uppercased(service) + "_"@
}

/// The prefix of the variables that hold the creation times of the keys of
/// a service.
pub open spec fn created_prefix(service: Seq<char>) -> Seq<char> {
    "APIKEY_CREATED_"@ + uppercased(service) + "_"@
}

/// The variable that holds the id of the active key of a service.
pub open spec fn active_var(service: Seq<char>) -> Seq<char> {
    "ACTIVE_APIKEY_"@ + uppercased(service)
}

/// The name of a key that has none of its own: `Key ` and the first eight
/// bytes of its id, or the whole id where it is shorter or where the eighth
/// byte does not end a character.
pub open spec fn default_name(id: Seq<char>) -> Seq<char> {
    let bytes = encode_utf8(id);
    if bytes.len() > 8 && is_char_boundary(bytes, 8) {
        "Key "@ + decode_utf8(bytes.subrange(0, 8))
    } else {
        "Key "@ + id
    }
}

/// The key that a variable stands for, if it stands for one: its name begins
/// with the key prefix of the service and goes on with an id. The name and
/// the creation time come from their own variables; a key without a name
/// gets the default name, and one without a creation time the time of now.
pub open spec fn key_of_entry(
    env: Pairs,
    service: Seq<char>,
    now: Seq<char>,
    entry: (Seq<char>, Seq<char>),
) -> Option<ApiKeyView> {
    let prefix = key_prefix(service);
    if has_prefix(entry.0, prefix) && entry.0.len() > prefix.len() {
        let id = entry.0.skip(prefix.len() as int);
        Some(
            ApiKeyView {
                id,
                service,
                name: match lookup(env, name_prefix(service) + id) {
                    Some(name) => name,
                    None => default_name(id),
                },
                key: entry.1,
                created_at: match lookup(env, created_prefix(service) + id) {
                    Some(t) => t,
                    None => now,
                },
            },
        )
    } else {
        None
    }
}

/// The keys of a service among the first variables of an environment, in
/// the order of the variables.
pub open spec fn keys_among(env: Pairs, service: Seq<char>, now: Seq<char>, count: int) -> Seq<
    ApiKeyView,
>
    decreases count,
{
    if count <= 0 {
        Seq::empty()
    } else {
        match key_of_entry(env, service, now, env[count - 1]) {
            Some(key) => keys_among(env, service, now, count - 1).push(key),
            None => keys_among(env, service, now, count - 1),
        }
    }
}

/// The keys of a service, in the order of the variables.
pub open spec fn keys_of(env: Pairs, service: Seq<char>, now: Seq<char>) -> Seq<ApiKeyView> {
    keys_among(env, service, now, env.len() as int)
}

/// The keys of a list as plain values.
pub open spec fn key_views(v: Seq<ApiKeyInternal>) -> Seq<ApiKeyView> {
    v.map_values(|k: ApiKeyInternal| k@)
}

fn prefixed(kind: &str, service: &str) -> (r: String)
    ensures
        r@ == kind@ + uppercased(service@) + "_"@,
{
    let upper = to_uppercase(service);
    join3(kind, upper.as_str(), "_")
}

fn active_name(service: &str) -> (r: String)
    ensures
        r@ == active_var(service@),
{
    let upper = to_uppercase(service);
    join2("ACTIVE_APIKEY_", upper.as_str())
}

fn name_for(id: &str) -> (r: String)
    ensures
        r@ == default_name(id@),
{
    let len = id.as_bytes().len();
    assert(len == encode_utf8(id@).len());
    if len > 8 && id.is_char_boundary(8) {
        let head = id.split_at(8).0;
        proof {
            encode_utf8_decode_utf8(head@);
            assert(encode_utf8(head@) == encode_utf8(id@).subrange(0, 8));
        }
        join2("Key ", head)
    } else {
        join2("Key ", id)
    }
}

/// The keys of a service that an environment holds, given the time of now
/// for keys without a creation time.
pub fn parse_api_keys(env: &EnvVars, service: &str, now: &str) -> (keys: Vec<ApiKeyInternal>)
    ensures
        key_views(keys@) == keys_of(env@, service@, now@),
{
    let prefix = prefixed("APIKEY_", service);
    let names = prefixed("APIKEY_NAME_", service);
    let created = prefixed("APIKEY_CREATED_", service);
    let mut keys: Vec<ApiKeyInternal> = Vec::new();
    let n = env.len();
    let mut i: usize = 0;
    while i < n
        invariant
            n == env@.len(),
            0 <= i <= n,
            prefix@ == key_prefix(service@),
            names@ == name_prefix(service@),
            created@ == created_prefix(service@),
            key_views(keys@) == keys_among(env@, service@, now@, i as int),
        decreases n - i,
    {
        let ghost before = keys@;
        let (name, value) = env.entry(i);
        match strip_prefix(name, prefix.as_str()) {
            Some(id) => {
                if !id.is_empty() {
                    let name_var = join2(names.as_str(), id);
                    let created_var = join2(created.as_str(), id);
                    let key = ApiKeyInternal {
                        id: String::from_str(id),
                        service: String::from_str(service),
                        name: match env.get(name_var.as_str()) {
                            Some(name) => String::from_str(name),
                            None => name_for(id),
                        },
                        key: String::from_str(value),
                        created_at: match env.get(created_var.as_str()) {
                            Some(t) => String::from_str(t),
                            None => String::from_str(now),
                        },
                    };
                    keys.push(key);
                    assert(key_views(keys@) =~= key_views(before).push(key@));
                }
            },
            None => {},
        }
        i = i + 1;
    }
    keys
}

/// The id of the active key of a service, if one is noted.
pub fn get_active_id(env: &EnvVars, service: &str) -> (r: Option<String>)
    ensures
        match r {
            Some(id) => lookup(env@, active_var(service@)) == Some(id@),
            None => lookup(env@, active_var(service@)) is None,
        },
{
    let var = active_name(service);
    match env.get(var.as_str()) {
        Some(id) => Some(String::from_str(id)),
        None => None,
    }
}

/// The value of the active key of a service, if there is one.
pub fn active_key_value(env: &EnvVars, service: &str) -> (r: Option<String>)
    ensures
        match lookup(env@, active_var(service@)) {
            Some(id) => match r {
                Some(v) => lookup(env@, key_prefix(service@) + id) == Some(v@),
                None => lookup(env@, key_prefix(service@) + id) is None,
            },
            None => r is None,
        },
{
    match get_active_id(env, service) {
        Some(id) => {
            let prefix = prefixed("APIKEY_", service);
            let var = join2(prefix.as_str(), id.as_str());
            match env.get(var.as_str()) {
                Some(v) => Some(String::from_str(v)),
                None => None,
            }
        },
        None => None,
    }
}

/// The environment after a key is added: the key, its name and its creation
/// time stand under the id, and the key is the active one of its service
/// where the service had none.
pub open spec fn key_added(
    env: Pairs,
    service: Seq<char>,
    name: Seq<char>,
    key: Seq<char>,
    id: Seq<char>,
    created_at: Seq<char>,
) -> Pairs {
    let stored = with_entry(
        with_entry(with_entry(env, key_prefix(service) + id, key), name_prefix(service) + id, name),
        created_prefix(service) + id,
        created_at,
    );
    if has_key(stored, active_var(service)) {
        stored
    } else {
        with_entry(stored, active_var(service), id)
    }
}

/// Adds a key under a fresh id; says whether it became the active key of
/// its service, which it does where the service had none.
pub fn add_key(
    env: &mut EnvVars,
    service: &str,
    name: &str,
    key: &str,
    id: &str,
    created_at: &str,
) -> (first: bool)
    ensures
        final(env)@ == key_added(old(env)@, service@, name@, key@, id@, created_at@),
        first == !has_key(
            with_entry(
                with_entry(
                    with_entry(old(env)@, key_prefix(service@) + id@, key@),
                    name_prefix(service@) + id@,
                    name@,
                ),
                created_prefix(service@) + id@,
                created_at@,
            ),
            active_var(service@),
        ),
{
    let key_var = join2(prefixed("APIKEY_", service).as_str(), id);
    let name_var = join2(prefixed("APIKEY_NAME_", service).as_str(), id);
    let created_var = join2(prefixed("APIKEY_CREATED_", service).as_str(), id);
    env.insert(key_var.as_str(), key);
    env.insert(name_var.as_str(), name);
    env.insert(created_var.as_str(), created_at);
    let active = active_name(service);
    let first = !env.contains_key(active.as_str());
    if first {
        env.insert(active.as_str(), id);
    }
    first
}

/// The error for a key that is not there.
pub fn key_not_found(id: &str) -> (e: CommandError)
    ensures
        e.code@ == "KEY_NOT_FOUND"@,
        e.message@ == "API key with ID "@ + id@ + " not found"@,
        e.details is None,
{
    CommandError {
        code: String::from_str("KEY_NOT_FOUND"),
        message: join3("API key with ID ", id, " not found"),
        details: None,
    }
}

/// The error for an environment file that could not be written.
pub fn env_write_error(message: &str) -> (e: CommandError)
    ensures
        e.code@ == "ENV_WRITE_ERROR"@,
        e.message@ == message@,
        e.details is None,
{
    CommandError {
        code: String::from_str("ENV_WRITE_ERROR"),
        message: String::from_str(message),
        details: None,
    }
}

/// Whether a result is the error for a key that is not there.
pub open spec fn is_not_found<T>(r: Result<T, CommandError>, id: Seq<char>) -> bool {
    r matches Err(e) && e.code@ == "KEY_NOT_FOUND"@ && e.message@ == "API key with ID "@ + id
        + " not found"@ && e.details is None
}

/// The environment after the name or the value of a key is replaced.
pub open spec fn key_updated(
    env: Pairs,
    service: Seq<char>,
    id: Seq<char>,
    name: Option<Seq<char>>,
    key: Option<Seq<char>>,
) -> Pairs {
    let named = match name {
        Some(n) => with_entry(env, name_prefix(service) + id, n),
        None => env,
    };
    match key {
        Some(k) => with_entry(named, key_prefix(service) + id, k),
        None => named,
    }
}

/// An optional borrowed text as a plain value.
pub open spec fn str_of(s: Option<&str>) -> Option<Seq<char>> {
    match s {
        Some(t) => Some(t@),
        None => None,
    }
}

/// The key under an id as the environment holds it, and whether it is the
/// active key of its service. A name that is missing is the one given, or
/// empty; a creation time that is missing is empty.
pub open spec fn stored_key(env: Pairs, service: Seq<char>, id: Seq<char>, name: Option<Seq<char>>)
    -> (ApiKeyView, bool) {
    (
        ApiKeyView {
            id,
            service,
            name: match lookup(env, name_prefix(service) + id) {
                Some(n) => n,
                None => match name {
                    Some(n) => n,
                    None => Seq::empty(),
                },
            },
            key: match lookup(env, key_prefix(service) + id) {
                Some(k) => k,
                None => Seq::empty(),
            },
            created_at: match lookup(env, created_prefix(service) + id) {
                Some(t) => t,
                None => Seq::empty(),
            },
        },
        lookup(env, active_var(service)) == Some(id),
    )
}

/// Replaces the name or the value of a key. A key that is not there gives
/// the error for it and changes nothing; else the key comes back as the
/// environment holds it afterwards, with the mark of the active key.
pub fn update_key(
    env: &mut EnvVars,
    service: &str,
    id: &str,
    name: Option<&str>,
    key: Option<&str>,
) -> (r: Result<(ApiKeyInternal, bool), CommandError>)
    ensures
        !has_key(old(env)@, key_prefix(service@) + id@) ==> is_not_found(r, id@) && final(env)@
            == old(env)@,
        has_key(old(env)@, key_prefix(service@) + id@) ==> final(env)@ == key_updated(
            old(env)@,
            service@,
            id@,
            str_of(name),
            str_of(key),
        ) && (r matches Ok(stored) && (stored.0@, stored.1) == stored_key(
            final(env)@,
            service@,
            id@,
            str_of(name),
        )),
{
    let key_var = join2(prefixed("APIKEY_", service).as_str(), id);
    if !env.contains_key(key_var.as_str()) {
        return Err(key_not_found(id));
    }
    let name_var = join2(prefixed("APIKEY_NAME_", service).as_str(), id);
    let created_var = join2(prefixed("APIKEY_CREATED_", service).as_str(), id);
    if let Some(n) = name {
        env.insert(name_var.as_str(), n);
    }
    if let Some(k) = key {
        env.insert(key_var.as_str(), k);
    }
    let stored = ApiKeyInternal {
        id: String::from_str(id),
        service: String::from_str(service),
        name: match env.get(name_var.as_str()) {
            Some(n) => String::from_str(n),
            None => match name {
                Some(n) => String::from_str(n),
                None => String::new(),
            },
        },
        key: match env.get(key_var.as_str()) {
            Some(k) => String::from_str(k),
            None => String::new(),
        },
        created_at: match env.get(created_var.as_str()) {
            Some(t) => String::from_str(t),
            None => String::new(),
        },
    };
    let active = match get_active_id(env, service) {
        Some(a) => text_eq(a.as_str(), id),
        None => false,
    };
    Ok((stored, active))
}

/// The id of the first key of a service among the first variables of an
/// environment, if the service has one.
pub open spec fn first_key_among(env: Pairs, service: Seq<char>, count: int) -> Option<Seq<char>>
    decreases count,
{
    if count <= 0 {
        None
    } else {
        match first_key_among(env, service, count - 1) {
            Some(id) => Some(id),
            None => {
                let prefix = key_prefix(service);
                let name = env[count - 1].0;
                if has_prefix(name, prefix) && name.len() > prefix.len() {
                    Some(name.skip(prefix.len() as int))
                } else {
                    None
                }
            },
        }
    }
}

/// The environment after a key is deleted: the key, its name and its
/// creation time are gone; where the key was the active one of its service,
/// the first key that is left takes its place, and no key is active where
/// none is left.
pub open spec fn key_deleted(env: Pairs, service: Seq<char>, id: Seq<char>) -> Pairs {
    let cleared = without(
        without(without(env, key_prefix(service) + id), name_prefix(service) + id),
        created_prefix(service) + id,
    );
    if lookup(cleared, active_var(service)) == Some(id) {
        match first_key_among(cleared, service, cleared.len() as int) {
            Some(next) => with_entry(cleared, active_var(service), next),
            None => without(cleared, active_var(service)),
        }
    } else {
        cleared
    }
}

fn first_key_id(env: &EnvVars, service: &str) -> (r: Option<String>)
    ensures
        match r {
            Some(id) => first_key_among(env@, service@, env@.len() as int) == Some(id@),
            None => first_key_among(env@, service@, env@.len() as int) is None,
        },
{
    let prefix = prefixed("APIKEY_", service);
    let n = env.len();
    let mut i: usize = 0;
    while i < n
        invariant
            n == env@.len(),
            0 <= i <= n,
            prefix@ == key_prefix(service@),
            first_key_among(env@, service@, i as int) is None,
        decreases n - i,
    {
        let (name, _) = env.entry(i);
        match strip_prefix(name, prefix.as_str()) {
            Some(id) => {
                if !id.is_empty() {
                    proof {
                        lemma_first_key_stays(env@, service@, i + 1, n as int);
                    }
                    return Some(String::from_str(id));
                }
            },
            None => {},
        }
        i = i + 1;
    }
    None
}

proof fn lemma_first_key_stays(env: Pairs, service: Seq<char>, k: int, n: int)
    requires
        0 <= k <= n,
        first_key_among(env, service, k) is Some,
    ensures
        first_key_among(env, service, n) == first_key_among(env, service, k),
    decreases n - k,
{
    if k < n {
        lemma_first_key_stays(env, service, k, n - 1);
    }
}

/// Deletes a key. A key that is not there gives the error for it and
/// changes nothing.
pub fn delete_key(env: &mut EnvVars, service: &str, id: &str) -> (r: Result<(), CommandError>)
    ensures
        !has_key(old(env)@, key_prefix(service@) + id@) ==> is_not_found(r, id@) && final(env)@
            == old(env)@,
        has_key(old(env)@, key_prefix(service@) + id@) ==> r is Ok && final(env)@ == key_deleted(
            old(env)@,
            service@,
            id@,
        ),
{
    let key_var = join2(prefixed("APIKEY_", service).as_str(), id);
    if !env.contains_key(key_var.as_str()) {
        return Err(key_not_found(id));
    }
    let name_var = join2(prefixed("APIKEY_NAME_", service).as_str(), id);
    let created_var = join2(prefixed("APIKEY_CREATED_", service).as_str(), id);
    let _ = env.remove(key_var.as_str());
    let _ = env.remove(name_var.as_str());
    let _ = env.remove(created_var.as_str());
    let active = active_name(service);
    let was_active = match env.get(active.as_str()) {
        Some(a) => text_eq(a, id),
        None => false,
    };
    if was_active {
        match first_key_id(env, service) {
            Some(next) => {
                env.insert(active.as_str(), next.as_str());
            },
            None => {
                let _ = env.remove(active.as_str());
            },
        }
    }
    Ok(())
}

/// Makes a key the active one of its service. A key that is not there gives
/// the error for it and changes nothing.
pub fn set_active_key(env: &mut EnvVars, service: &str, id: &str) -> (r: Result<(), CommandError>)
    ensures
        !has_key(old(env)@, key_prefix(service@) + id@) ==> is_not_found(r, id@) && final(env)@
            == old(env)@,
        has_key(old(env)@, key_prefix(service@) + id@) ==> r is Ok && final(env)@ == with_entry(
            old(env)@,
            active_var(service@),
            id@,
        ),
{
    let key_var = join2(prefixed("APIKEY_", service).as_str(), id);
    if !env.contains_key(key_var.as_str()) {
        return Err(key_not_found(id));
    }
    let active = active_name(service);
    env.insert(active.as_str(), id);
    Ok(())
}

/// The service that a variable names as one with a key: for a variable
/// `APIKEY_<SERVICE>_<ID>` that holds neither a name nor a creation time,
/// the service in lower case.
pub open spec fn service_of(name: Seq<char>) -> Option<Seq<char>> {
    if has_prefix(name, "APIKEY_"@) && !has_prefix(name, "APIKEY_NAME_"@) && !has_prefix(
        name,
        "APIKEY_CREATED_"@,
    ) {
        match split_at_first(name, '_') {
            Some(parts) => match split_at_first(parts.1, '_') {
                Some(rest) => Some(lowercased(rest.0)),
                None => None,
            },
            None => None,
        }
    } else {
        None
    }
}

/// The service that each variable names, if it names one.
pub open spec fn service_names(env: Pairs) -> Seq<Option<Seq<char>>> {
    env.map_values(|e: (Seq<char>, Seq<char>)| service_of(e.0))
}

/// Whether a service is among the first names of a list.
pub open spec fn named_among(names: Seq<Option<Seq<char>>>, service: Seq<char>, count: int)
    -> bool {
    exists|i: int| 0 <= i < count && i < names.len() && #[trigger] names[i] == Some(service)
}

fn service_name(name: &str) -> (r: Option<String>)
    ensures
        match r {
            Some(s) => service_of(name@) == Some(s@),
            None => service_of(name@) is None,
        },
{
    if strip_prefix(name, "APIKEY_").is_none() {
        return None;
    }
    if strip_prefix(name, "APIKEY_NAME_").is_some() {
        return None;
    }
    if strip_prefix(name, "APIKEY_CREATED_").is_some() {
        return None;
    }
    match split_once(name, '_') {
        Some((_, rest)) => match split_once(rest, '_') {
            Some((service, _)) => Some(to_lowercase(service)),
            None => None,
        },
        None => None,
    }
}

/// A list holds exactly the services among the first names, each once.
pub open spec fn lists_services(list: Seq<Seq<char>>, names: Seq<Option<Seq<char>>>, count: int)
    -> bool {
    &&& list.no_duplicates()
    &&& forall|s: Seq<char>| list.contains(s) <==> named_among(names, s, count)
}

fn knows(list: &Vec<String>, s: &str) -> (r: bool)
    ensures
        r == texts_of(list@).contains(s@),
{
    let n = list.len();
    let mut i: usize = 0;
    while i < n
        invariant
            n == list@.len(),
            0 <= i <= n,
            forall|k: int| 0 <= k < i ==> texts_of(list@)[k] != s@,
        decreases n - i,
    {
        if text_eq(list[i].as_str(), s) {
            assert(texts_of(list@)[i as int] == s@);
            return true;
        }
        i = i + 1;
    }
    false
}

proof fn lemma_services_step(list: Seq<Seq<char>>, names: Seq<Option<Seq<char>>>, i: int)
    requires
        0 <= i < names.len(),
        lists_services(list, names, i),
    ensures
        match names[i] {
            Some(s) => if list.contains(s) {
                lists_services(list, names, i + 1)
            } else {
                lists_services(list.push(s), names, i + 1)
            },
            None => lists_services(list, names, i + 1),
        },
{
    let after = match names[i] {
        Some(s) => if list.contains(s) {
            list
        } else {
            list.push(s)
        },
        None => list,
    };
    assert forall|s: Seq<char>| after.contains(s) <==> named_among(names, s, i + 1) by {
        if after.contains(s) {
            let k = choose|k: int| 0 <= k < after.len() && after[k] == s;
            if k < list.len() {
                assert(list[k] == s);
                assert(list.contains(s));
                assert(named_among(names, s, i));
                let w = choose|w: int|
                    0 <= w < i && w < names.len() && #[trigger] names[w] == Some(s);
                assert(named_among(names, s, i + 1));
            } else {
                assert(names[i] == Some(s));
                assert(named_among(names, s, i + 1));
            }
        }
        if named_among(names, s, i + 1) {
            let w = choose|w: int| 0 <= w < i + 1 && w < names.len() && #[trigger] names[w] == Some(s);
            if w < i {
                assert(named_among(names, s, i));
                assert(list.contains(s));
                let k = choose|k: int| 0 <= k < list.len() && list[k] == s;
                assert(after[k] == s);
            } else {
                if list.contains(s) {
                    let k = choose|k: int| 0 <= k < list.len() && list[k] == s;
                    assert(after[k] == s);
                } else {
                    assert(after[list.len() as int] == s);
                }
            }
        }
    }
    assert(after.no_duplicates()) by {
        if after.len() > list.len() {
            let s = after[list.len() as int];
            assert forall|a: int, b: int| 0 <= a < b < after.len() implies after[a] != after[b] by {
                if b == list.len() {
                    if after[a] == s {
                        assert(list[a] == s);
                        assert(list.contains(s));
                    }
                } else {
                    assert(list[a] != list[b]);
                }
            }
        }
    }
}

/// The services that have at least one key, each once, in the order in
/// which the environment names them first.
pub fn configured_services(env: &EnvVars) -> (services: Vec<String>)
    ensures
        lists_services(texts_of(services@), service_names(env@), env@.len() as int),
{
    let mut services: Vec<String> = Vec::new();
    let ghost names = service_names(env@);
    let n = env.len();
    let mut i: usize = 0;
    assert(lists_services(texts_of(services@), names, 0));
    while i < n
        invariant
            n == env@.len(),
            names == service_names(env@),
            0 <= i <= n,
            lists_services(texts_of(services@), names, i as int),
        decreases n - i,
    {
        let ghost before = texts_of(services@);
        proof {
            lemma_services_step(before, names, i as int);
        }
        let (name, _) = env.entry(i);
        let found = service_name(name);
        assert(text_of(found) == names[i as int]);
        match found {
            Some(service) => {
                if !knows(&services, service.as_str()) {
                    services.push(service);
                    assert(texts_of(services@) =~= before.push(service@));
                }
            },
            None => {},
        }
        i = i + 1;
    }
    services
}

} // verus!
