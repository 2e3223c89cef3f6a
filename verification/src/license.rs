//! License and grace-period decisions.
//!
//! Every function here is a pure decision: the callers obtain the wall-clock
//! time, the cached validation and the server's reply elsewhere and hand the
//! plain values in.  Seconds-since-epoch timestamps stand for points in time.

use vstd::prelude::*;
use vstd::string::StringExecFns;

verus! {

/// Days of free use granted after first installation when no license is set.
pub const DEFAULT_GRACE_PERIOD_DAYS: u32 = 30;

/// Days a cached validation outcome stays usable without contacting the server.
pub const OFFLINE_CACHE_DAYS: u32 = 7;

pub const SECONDS_PER_DAY: i64 = 86400;

/// Outcome of a license check, as shown to the caller.
#[derive(Debug, Clone)]
pub struct LicenseStatus {
    pub is_valid: bool,
    pub status: String,
    pub days_remaining: Option<u32>,
    pub customer_email: Option<String>,
    pub expires_at: Option<String>,
    pub activation_id: Option<String>,
}

/// Where the installation stands relative to the grace period.
#[derive(Debug, Clone)]
pub struct GracePeriodInfo {
    pub is_in_grace_period: bool,
    pub days_since_installation: u32,
    pub days_remaining: u32,
}

/// Whole days elapsed from `start` to `now`, both in seconds; never negative.
pub open spec fn spec_days_between(start: int, now: int) -> int {
    if now <= start {
        0
    } else {
        (now - start) / (SECONDS_PER_DAY as int)
    }
}

/// Days since the recorded installation instant, saturating at `u32::MAX`.
pub fn get_days_since_installation(install_secs: i64, now_secs: i64) -> (days: u32)
    requires
        now_secs as int - install_secs as int <= i64::MAX as int,
    ensures
        spec_days_between(install_secs as int, now_secs as int) <= u32::MAX as int ==> days
            == spec_days_between(install_secs as int, now_secs as int),
        spec_days_between(install_secs as int, now_secs as int) > u32::MAX as int ==> days
            == u32::MAX,
{
    if now_secs <= install_secs {
        return 0;
    }
    let diff = now_secs - install_secs;
    let days = diff / SECONDS_PER_DAY;
    if days > u32::MAX as i64 {
        u32::MAX
    } else {
        days as u32
    }
}

/// The installation is still within its grace period.
pub fn is_within_grace_period(days_since: u32, grace_days: u32) -> (within: bool)
    ensures
        within == (days_since < grace_days),
{
    days_since < grace_days
}

/// Grace-period standing computed from the elapsed days.
pub fn get_grace_period_info(days_since: u32, grace_days: u32) -> (info: GracePeriodInfo)
    ensures
        info.is_in_grace_period == (days_since < grace_days),
        info.days_since_installation == days_since,
        days_since < grace_days ==> info.days_remaining == grace_days - days_since,
        days_since >= grace_days ==> info.days_remaining == 0,
{
    let is_in_grace = days_since < grace_days;
    let days_remaining = if is_in_grace {
        grace_days - days_since
    } else {
        0
    };
    GracePeriodInfo { is_in_grace_period: is_in_grace, days_since_installation: days_since, days_remaining }
}

/// A cached validation may still be used when it is at most
/// `OFFLINE_CACHE_DAYS` old; a cache timestamp in the future counts as fresh.
pub fn cache_is_fresh(cached_at_secs: i64, now_secs: i64) -> (fresh: bool)
    requires
        now_secs as int - cached_at_secs as int <= i64::MAX as int,
    ensures
        fresh == (spec_days_between(cached_at_secs as int, now_secs as int)
            <= OFFLINE_CACHE_DAYS as int),
{
    let days = get_days_since_installation(cached_at_secs, now_secs);
    days <= OFFLINE_CACHE_DAYS
}

/// Licensed means a fresh cached validation says so, or the grace period
/// still runs.
pub fn is_licensed(cached: Option<&LicenseStatus>, days_since: u32, grace_days: u32) -> (licensed:
    bool)
    ensures
        licensed == ((cached matches Some(c) && c.is_valid) || days_since < grace_days),
{
    match cached {
        Some(c) => {
            if c.is_valid {
                true
            } else {
                days_since < grace_days
            }
        },
        None => days_since < grace_days,
    }
}

/// Current standing: a valid cached validation wins; otherwise the grace
/// period decides between a provisional and an expired status.
pub fn get_license_status(cached: Option<LicenseStatus>, days_since: u32, grace_days: u32) -> (r:
    LicenseStatus)
    ensures
        (cached matches Some(c) && c.is_valid) ==> r == cached->0,
        !(cached matches Some(c) && c.is_valid) && days_since < grace_days ==> {
            &&& r.is_valid == true
            &&& r.status@ == "grace_period"@
            &&& r.days_remaining == Some((grace_days - days_since) as u32)
            &&& r.customer_email is None
            &&& r.expires_at is None
            &&& r.activation_id is None
        },
        !(cached matches Some(c) && c.is_valid) && days_since >= grace_days ==> {
            &&& r.is_valid == false
            &&& r.status@ == "expired"@
            &&& r.days_remaining == Some(0u32)
            &&& r.customer_email is None
            &&& r.expires_at is None
            &&& r.activation_id is None
        },
{
    if let Some(c) = cached {
        if c.is_valid {
            return c;
        }
    }
    if days_since < grace_days {
        LicenseStatus {
            is_valid: true,
            status: "grace_period".to_owned(),
            days_remaining: Some(grace_days - days_since),
            customer_email: None,
            expires_at: None,
            activation_id: None,
        }
    } else {
        LicenseStatus {
            is_valid: false,
            status: "expired".to_owned(),
            days_remaining: Some(0),
            customer_email: None,
            expires_at: None,
            activation_id: None,
        }
    }
}

/// What the install file records: the machine the record was made on and the
/// first-use instant.
#[derive(Debug, Clone)]
pub struct InstallRecord {
    pub machine_id: String,
    pub first_use_secs: i64,
}

/// Decide the installation date from what the install file held.  A record
/// made on this machine keeps its date; a missing record, or one copied from
/// another machine, starts a new date at `now`, and the second component
/// tells the caller to write the new record back.
pub fn resolve_install_date(stored: Option<InstallRecord>, machine_id: &String, now_secs: i64) -> (r:
    (i64, bool))
    ensures
        (stored matches Some(rec) && rec.machine_id@ == machine_id@) ==> r == (
            stored->0.first_use_secs,
            false,
        ),
        !(stored matches Some(rec) && rec.machine_id@ == machine_id@) ==> r == (now_secs, true),
{
    match stored {
        Some(rec) => {
            if rec.machine_id == *machine_id {
                (rec.first_use_secs, false)
            } else {
                (now_secs, true)
            }
        },
        None => (now_secs, true),
    }
}

/// A validation outcome as cached on disk, with the instant it was cached.
#[derive(Debug, Clone)]
pub struct CachedValidation {
    pub status: LicenseStatus,
    pub cached_at_secs: i64,
}

/// The cached validation still usable at `now`: a cache older than
/// `OFFLINE_CACHE_DAYS` is as good as none.
pub fn usable_cached_validation(cached: Option<CachedValidation>, now_secs: i64) -> (r: Option<
    LicenseStatus,
>)
    requires
        cached matches Some(c) ==> now_secs as int - c.cached_at_secs as int <= i64::MAX as int,
    ensures
        cached is None ==> r is None,
        cached matches Some(c) ==> {
            &&& spec_days_between(c.cached_at_secs as int, now_secs as int) <= OFFLINE_CACHE_DAYS
                as int ==> r == Some(c.status)
            &&& spec_days_between(c.cached_at_secs as int, now_secs as int) > OFFLINE_CACHE_DAYS
                as int ==> r is None
        },
{
    match cached {
        Some(c) => {
            if cache_is_fresh(c.cached_at_secs, now_secs) {
                Some(c.status)
            } else {
                None
            }
        },
        None => None,
    }
}

/// What the validation server answered, reduced to plain values.
#[derive(Debug, Clone)]
pub struct ValidationReply {
    pub status: String,
    pub customer_email: Option<String>,
    pub expires_at: Option<String>,
    pub usage: i32,
    pub limit_usage: Option<i32>,
}

/// The reply grants the key and no device limit stands in the way.
pub open spec fn spec_granted(reply: ValidationReply) -> bool {
    reply.status@ == "granted"@
}

/// The reply grants the key but the activation count has reached its limit.
pub open spec fn spec_device_limit_hit(reply: ValidationReply) -> bool {
    spec_granted(reply) && (reply.limit_usage matches Some(l) && reply.usage >= l)
}

/// Turn the server's validation reply into a license status.  A granted key
/// whose activation count has reached its limit is refused; any other reply
/// maps to a status that is valid exactly when the key was granted.
pub fn validate_license_key(reply: ValidationReply) -> (r: Result<LicenseStatus, String>)
    ensures
        r is Err <==> spec_device_limit_hit(reply),
        r matches Ok(status) ==> {
            &&& status.is_valid == spec_granted(reply)
            &&& spec_granted(reply) ==> status.status@ == "licensed"@
            &&& !spec_granted(reply) ==> status.status@ == "invalid"@
            &&& status.days_remaining is None
            &&& status.customer_email == reply.customer_email
            &&& status.expires_at == reply.expires_at
            &&& status.activation_id is None
        },
{
    let is_valid = reply.status == "granted".to_owned();
    if is_valid {
        if let Some(limit) = reply.limit_usage {
            if reply.usage >= limit {
                let mut msg = "Device limit reached. You have already activated ".to_owned();
                let shown = reply.usage.to_string();
                msg.append(shown.as_str());
                msg.append(" device(s).");
                return Err(msg);
            }
        }
    }
    let status = if is_valid {
        "licensed".to_owned()
    } else {
        "invalid".to_owned()
    };
    Ok(LicenseStatus {
        is_valid,
        status,
        days_remaining: None,
        customer_email: reply.customer_email,
        expires_at: reply.expires_at,
        activation_id: None,
    })
}

} // verus!
