//! The check of Open-Meteo error responses.
use vstd::prelude::*;
use crate::apis::open_meteo::OpenMeteoError;
use crate::errors::DashboardError;

verus! {

/// Checks a response body against the Open-Meteo error shape: `parsed` is
/// the body read as an [`OpenMeteoError`], `None` when it is not one. A body
/// flagged as an error is an API error with its reason; anything else is fine.
pub fn check_open_meteo_error_response(parsed: Option<OpenMeteoError>) -> (r: Result<(), DashboardError>)
    ensures
        match parsed {
            Some(e) if e.error => r matches Err(err) && err is ApiError && err.details_of() == e.reason@,
            _ => r is Ok,
        },
{
    match parsed {
        Some(e) => {
            if e.error {
                Err(DashboardError::ApiError { details: e.reason })
            } else {
                Ok(())
            }
        },
        None => Ok(()),
    }
}

} // verus!
