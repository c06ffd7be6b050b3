use vstd::prelude::*;

use crate::error::Error;
use crate::identity::IdentityClaims;
use crate::permissions::Permissions;
use crate::problem_details::ProblemDetails;

verus! {

/// The problem that a domain error is answered with: 400 for invalid input and
/// conflicts, 403 for a missing permission, 503 with the driver's reason for
/// persistence failures.
pub open spec fn is_problem_for(p: ProblemDetails, e: Error) -> bool {
    match e {
        Error::Persistence(reason) => {
            &&& p.ttype@ == "https://www.rfc-editor.org/rfc/rfc9110.html#name-503-service-unavailable"@
            &&& p.title@ == "Service Unavailable"@
            &&& p.detail@ == reason@
            &&& p.status == 503
        },
        Error::InvalidPermission => {
            &&& p.ttype@ == "https://www.rfc-editor.org/rfc/rfc9110.html#name-403-forbidden"@
            &&& p.title@ == "Forbidden"@
            &&& p.detail@ == e.message()
            &&& p.status == 403
        },
        _ => {
            &&& p.ttype@ == "https://www.rfc-editor.org/rfc/rfc9110.html#name-400-bad-request"@
            &&& p.title@ == "Bad Request"@
            &&& p.detail@ == e.message()
            &&& p.status == 400
        },
    }
}

/// The problem-details body for a domain error.
pub fn problem_details_of(error: &Error) -> (r: ProblemDetails)
    ensures
        is_problem_for(r, *error),
{
    match error {
        Error::Persistence(reason) => {
            let mut problem_details = ProblemDetails::from_503();
            problem_details.set_detail(reason.as_str());
            problem_details
        },
        Error::InvalidPermission => {
            let mut problem_details = ProblemDetails::from_403();
            let detail = error.to_string();
            problem_details.set_detail(detail.as_str());
            problem_details
        },
        _ => {
            let mut problem_details = ProblemDetails::from_400();
            let detail = error.to_string();
            problem_details.set_detail(detail.as_str());
            problem_details
        },
    }
}

/// Whether a number is a status code that HTTP can carry (three digits).
pub open spec fn is_legal_status(code: u16) -> bool {
    100 <= code < 1000
}

/// The status a response is sent with: the problem's own status where it is a
/// legal code, 418 otherwise.
pub fn response_status(problem: &ProblemDetails) -> (r: u16)
    ensures
        r == (if is_legal_status(problem.status) {
            problem.status
        } else {
            418
        }),
{
    if 100 <= problem.status && problem.status < 1000 {
        problem.status
    } else {
        418
    }
}

/// Claims that lack the permission a handler needs are answered with 403 and
/// the detail "invalid permission".
pub proof fn lemma_missing_permission_is_forbidden(
    claims: IdentityClaims,
    permission: Permissions,
    error: Error,
    problem: ProblemDetails,
)
    requires
        !claims.grants(permission),
        error is InvalidPermission,
        is_problem_for(problem, error),
    ensures
        problem.status == 403,
        problem.detail@ == "invalid permission"@,
{
}

} // verus!
