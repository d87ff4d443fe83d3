use vstd::prelude::*;

verus! {

/// Root under which services are registered when no prefix is given.
pub open spec fn default_prefix() -> Seq<char> {
    seq!['/', 's', 'e', 'r', 'v', 'i', 'c', 'e', 's']
}

/// Lease lifetime in seconds when none is given.
pub const DEFAULT_TTL_SEC: u64 = 30;

/// Pause between two lease renewals in seconds when none is given.
pub const DEFAULT_KEEP_ALIVE_SEC: u64 = 5;

pub open spec fn normalized_prefix(p: Seq<char>) -> Seq<char> {
    if p.len() == 0 {
        default_prefix()
    } else {
        p
    }
}

pub open spec fn normalized_ttl(ttl: u64) -> u64 {
    if ttl == 0 {
        DEFAULT_TTL_SEC
    } else {
        ttl
    }
}

pub open spec fn normalized_keep_alive(sec: u64) -> u64 {
    if sec == 0 {
        DEFAULT_KEEP_ALIVE_SEC
    } else {
        sec
    }
}

/// `{prefix}/{id}/{name}`.
pub open spec fn key_of(prefix: Seq<char>, id: Seq<char>, name: Seq<char>) -> Seq<char> {
    prefix + seq!['/'] + id + seq!['/'] + name
}

/// The prefix to use: the given one, or the default root when it is empty.
pub fn normalize_prefix(prefix: String) -> (r: String)
    ensures
        r@ == normalized_prefix(prefix@),
{
    if prefix.as_str().unicode_len() == 0 {
        let r = String::from_str("/services");
        proof {
            reveal_strlit("/services");
            assert(r@ =~= default_prefix());
        }
        r
    } else {
        prefix
    }
}

/// The lease lifetime to use: the given one, or the default when it is zero.
pub fn normalize_ttl(ttl: u64) -> (r: u64)
    ensures
        r == normalized_ttl(ttl),
{
    if ttl == 0 {
        DEFAULT_TTL_SEC
    } else {
        ttl
    }
}

/// The renewal interval to use: the given one, or the default when it is zero.
pub fn normalize_keep_alive(sec: u64) -> (r: u64)
    ensures
        r == normalized_keep_alive(sec),
{
    if sec == 0 {
        DEFAULT_KEEP_ALIVE_SEC
    } else {
        sec
    }
}

/// Joins prefix, service id and service name with `/`.
pub fn service_key(prefix: &String, id: &String, name: &String) -> (r: String)
    ensures
        r@ == key_of(prefix@, id@, name@),
{
    let r = prefix.clone();
    let r = r.concat("/");
    let r = r.concat(id.as_str());
    let r = r.concat("/");
    let r = r.concat(name.as_str());
    proof {
        reveal_strlit("/");
        assert(r@ =~= key_of(prefix@, id@, name@));
    }
    r
}

/// Everything a registration writes and keeps alive, with defaults applied.
pub struct RegistrationPlan {
    pub key: String,
    pub address: String,
    pub ttl_sec: u64,
    pub keep_alive_sec: u64,
}

impl RegistrationPlan {
    /// Applies the defaults and composes the service key.
    pub fn new(
        keep_alive_sec: u64,
        service_ttl_sec: u64,
        key_prefix: String,
        svc_id: String,
        svc_name: String,
        svc_addr: String,
    ) -> (r: RegistrationPlan)
        ensures
            r.key@ == key_of(normalized_prefix(key_prefix@), svc_id@, svc_name@),
            r.address@ == svc_addr@,
            r.ttl_sec == normalized_ttl(service_ttl_sec),
            r.keep_alive_sec == normalized_keep_alive(keep_alive_sec),
            r.ttl_sec > 0,
            r.keep_alive_sec > 0,
    {
        let prefix = normalize_prefix(key_prefix);
        let key = service_key(&prefix, &svc_id, &svc_name);
        RegistrationPlan {
            key,
            address: svc_addr,
            ttl_sec: normalize_ttl(service_ttl_sec),
            keep_alive_sec: normalize_keep_alive(keep_alive_sec),
        }
    }
}

} // verus!
