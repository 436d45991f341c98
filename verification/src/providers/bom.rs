//! The check of BOM error responses.
use vstd::prelude::*;
use crate::apis::bom::BomError;
use crate::errors::DashboardError;
use crate::text::{joined, nat_to_decimal, owned, u64_to_string};

verus! {

/// The details of the errors of a BOM error response.
pub open spec fn bom_details(e: BomError) -> Seq<Seq<char>> {
    e.errors@.map_values(|d: crate::apis::bom::ErrorDetail| d.detail@)
}

/// The numbered line of the `i`-th (0-based) error detail.
pub open spec fn numbered_detail(i: int, detail: Seq<char>) -> Seq<char> {
    "  "@ + nat_to_decimal((i + 1) as nat) + ". "@ + detail
}

/// The message of a BOM error response: a single error's detail as it is;
/// several errors counted, then numbered one per line.
pub open spec fn bom_error_message(details: Seq<Seq<char>>) -> Seq<char> {
    if details.len() == 1 {
        details[0]
    } else {
        "BOM API returned "@ + nat_to_decimal(details.len()) + " errors:\n"@
            + joined(Seq::new(details.len(), |i: int| numbered_detail(i, details[i])), "\n"@)
    }
}

/// Checks a response body against the BOM error shape: `parsed` is the body
/// read as a [`BomError`], `None` when it is not one. A body with errors is
/// an API error with their combined details; anything else is fine.
pub fn check_bom_error_response(parsed: Option<BomError>) -> (r: Result<(), DashboardError>)
    ensures
        match parsed {
            Some(e) if e.errors@.len() > 0 =>
                r matches Err(err) && err is ApiError && err.details_of() == bom_error_message(bom_details(e)),
            _ => r is Ok,
        },
{
    let api_error = match parsed {
        Some(e) => e,
        None => return Ok(()),
    };
    let n = api_error.errors.len();
    if n == 0 {
        return Ok(());
    }
    let ghost details = bom_details(api_error);
    if n == 1 {
        let d = owned(api_error.errors[0].detail.as_str());
        return Err(DashboardError::ApiError { details: d });
    }
    let ghost lines = Seq::new(details.len(), |i: int| numbered_detail(i, details[i]));
    let mut body = String::new();
    let mut i: usize = 0;
    while i < n
        invariant
            n == api_error.errors@.len(),
            i <= n,
            details == bom_details(api_error),
            lines == Seq::new(details.len(), |i: int| numbered_detail(i, details[i])),
            body@ == joined(lines.take(i as int), "\n"@),
        decreases n - i,
    {
        if i > 0 {
            body.append("\n");
        }
        body.append("  ");
        body.append(u64_to_string((i + 1) as u64).as_str());
        body.append(". ");
        body.append(api_error.errors[i].detail.as_str());
        proof {
            assert(lines.take(i + 1).drop_last() =~= lines.take(i as int));
            assert(lines[i as int] == numbered_detail(i as int, details[i as int]));
            if i == 0 {
                assert(body@ =~= joined(lines.take(1), "\n"@));
            } else {
                assert(body@ =~= joined(lines.take(i + 1), "\n"@));
            }
        }
        i = i + 1;
    }
    assert(lines.take(n as int) =~= lines);
    let mut message = owned("BOM API returned ");
    message.append(u64_to_string(n as u64).as_str());
    message.append(" errors:\n");
    message.append(body.as_str());
    Err(DashboardError::ApiError { details: message })
}

} // verus!
