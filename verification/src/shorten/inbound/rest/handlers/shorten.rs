//! The shorten request as it arrives.

use crate::domain::entities::url::Date;
use crate::shorten::services::shorten_service::ShortenParams;
use vstd::prelude::*;

verus! {

/// The body of a shorten request.
#[derive(Debug, PartialEq, Eq)]
pub struct ShortenRequestPayload {
    pub url: String,
    pub user_id: String,
    pub alias: Option<String>,
    pub expiration_date: Option<Date>,
}

impl From<ShortenRequestPayload> for ShortenParams {
    fn from(payload: ShortenRequestPayload) -> (r: ShortenParams) {
        ShortenParams {
            url: payload.url,
            user_id: payload.user_id,
            alias: payload.alias,
            expiration_date: payload.expiration_date,
        }
    }
}

impl vstd::std_specs::convert::FromSpecImpl<ShortenRequestPayload> for ShortenParams {
    open spec fn obeys_from_spec() -> bool {
        true
    }

    open spec fn from_spec(payload: ShortenRequestPayload) -> ShortenParams {
        ShortenParams {
            url: payload.url,
            user_id: payload.user_id,
            alias: payload.alias,
            expiration_date: payload.expiration_date,
        }
    }
}

/// The name of the rule that an expiration date breaks where it is not in
/// the future.
pub open spec fn expiration_rule() -> Seq<char> {
    "expiration_date_must_be_in_future"@
}

/// Whether `date` may be the expiration date of a binding made on the day
/// `today`: it must lie strictly after it. `Err` names the rule that is
/// broken.
pub fn validate_expiration_date_on(date: &Date, today: Date) -> (r: Result<(), String>)
    ensures
        today.earlier_than(*date) ==> r is Ok,
        !today.earlier_than(*date) ==> (r matches Err(rule) && rule@ == expiration_rule()),
{
    if today.is_before(date) {
        Ok(())
    } else {
        Err("expiration_date_must_be_in_future".to_owned())
    }
}

/// Whether `date` may be the expiration date of a binding made now, by the
/// system clock's day in UTC. Which day that is, is not known here: the
/// answer is that of `validate_expiration_date_on` for some day of the
/// calendar since 1970.
pub fn validate_expiration_date(date: &Date) -> (r: Result<(), String>)
    ensures
        exists|today: Date|
            today.in_calendar() && today.year >= 1970 && (#[trigger] today.earlier_than(*date) <==> r
                is Ok),
        r matches Err(rule) ==> rule@ == expiration_rule(),
{
    let today = crate::clock::today();
    let r = validate_expiration_date_on(date, today);
    assert(today.earlier_than(*date) <==> r is Ok);
    r
}

} // verus!
