//! What can be sent to the service.

use crate::context::{is_applied, Context};
use crate::date::is_day_number;
use crate::error::Error;
use crate::expensify::{is_report_json, TransactionList};
use crate::json::Json;
use crate::perdiem::{per_diem_report, report_outcome, Kind, Mode};
use crate::timeperiod::TimePeriod;
use vstd::prelude::*;
use vstd::string::StringExecFns;

verus! {

/// A job for the service.
#[derive(Debug, PartialEq, Eq)]
pub enum Command {
    /// A payload of the given type, to be sent as it is or, where there is a
    /// context, with the user's settings applied.
    Payload(Option<Context>, String, Json),
    /// Per diems of a kind for the days of a selection.
    PerDiem(Context, TimePeriod, Kind, Mode),
}

impl Command {
    /// Whether the command can be carried out: a selection of days must be
    /// in normal form.
    pub open spec fn wf(self) -> bool {
        self matches Command::PerDiem(_, period, _, _) ==> period@.wf()
    }

    /// Whether `made` is what the command sends in the week that holds the
    /// day numbered `reference`: its payload type and payload, or the error
    /// that stands in the way.
    pub open spec fn sends(self, reference: int, made: Result<(String, Json), Error>) -> bool {
        match self {
            Command::Payload(None, payload_type, payload) => {
                &&& made matches Ok(sent)
                &&& sent.0 == payload_type
                &&& sent.1 == payload
            },
            Command::Payload(Some(ctx), payload_type, payload) => {
                &&& made matches Ok(sent)
                &&& sent.0 == payload_type
                &&& is_applied(payload, sent.1, ctx.user.email@, ctx.user.project@)
            },
            Command::PerDiem(ctx, period, kind, mode) => match per_diem_report(
                &ctx,
                period@,
                kind,
                mode,
                reference,
            ) {
                Ok(report) => {
                    &&& made matches Ok(sent)
                    &&& sent.0@ == "create"@
                    &&& is_report_json(report, sent.1)
                },
                Err(error) => made matches Err(e) && e@ == error,
            },
        }
    }

    /// The day that sets the week of the command, where it names one.
    pub open spec fn reference_date(self) -> Option<int> {
        match self {
            Command::PerDiem(ctx, _, _, _) => match ctx.reference_date {
                Some(date) => Some(date@),
                None => None,
            },
            _ => None,
        }
    }

    /// The payload type and the payload that the command sends. A payload
    /// goes out under its own type, with the settings of its context applied
    /// where it has one. Per diems go out under the type `create`, as the
    /// expense report for them; without a reference date in the context, the
    /// report is for the current week.
    pub fn into_payload(self) -> (made: Result<(String, Json), Error>)
        requires
            self.wf(),
        ensures
            self.reference_date() matches Some(day) ==> self.sends(day, made),
            self.reference_date() is None ==> exists|today: int|
                is_day_number(today) && #[trigger] self.sends(today, made),
    {
        match self {
            Command::Payload(None, payload_type, payload) => {
                let made = Ok((payload_type, payload));
                assert(is_day_number(1) && self.sends(1, made));
                made
            },
            Command::Payload(Some(ctx), payload_type, payload) => {
                let made = Ok((payload_type, ctx.user.apply_to_value(payload)));
                assert(is_day_number(1) && self.sends(1, made));
                made
            },
            Command::PerDiem(ctx, period, kind, mode) => {
                let ghost selection = period@;
                let ghost context = ctx;
                let report = TransactionList::from_per_diem(ctx, period, kind, mode);
                let made = match report {
                    Ok(list) => Ok((String::from_str("create"), list.to_json())),
                    Err(error) => Err(error),
                };
                proof {
                    if context.reference_date is None {
                        let today = choose|today: int|
                            is_day_number(today) && report_outcome(report)
                                == #[trigger] per_diem_report(
                                &context,
                                selection,
                                kind,
                                mode,
                                today,
                            );
                        assert(self.sends(today, made));
                    }
                }
                made
            },
        }
    }
}

} // verus!
