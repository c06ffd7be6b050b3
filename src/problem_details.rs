use vstd::prelude::*;

verus! {

/// An RFC 9457 problem-details body: `type`, `title`, `detail` and `status`.
#[derive(Debug, Clone)]
pub struct ProblemDetails {
    pub ttype: String,
    pub title: String,
    pub detail: String,
    pub status: u16,
}

/// The shape of a canonical problem: its type URI, its reason phrase as both
/// title and detail, and its status.
pub open spec fn is_canonical(p: ProblemDetails, ttype: Seq<char>, phrase: Seq<char>, status: u16) -> bool {
    &&& p.ttype@ == ttype
    &&& p.title@ == phrase
    &&& p.detail@ == phrase
    &&& p.status == status
}

impl Default for ProblemDetails {
    fn default() -> (r: ProblemDetails)
        ensures
            r.ttype@ == Seq::<char>::empty(),
            r.title@ == Seq::<char>::empty(),
            r.detail@ == Seq::<char>::empty(),
            r.status == 0,
    {
        ProblemDetails { ttype: String::new(), title: String::new(), detail: String::new(), status: 0 }
    }
}

impl ProblemDetails {
    pub fn from_400() -> (r: ProblemDetails)
        ensures
            is_canonical(
                r,
                "https://www.rfc-editor.org/rfc/rfc9110.html#name-400-bad-request"@,
                "Bad Request"@,
                400,
            ),
    {
        let msg = "Bad Request";
        let mut problem_details = Self::default();
        problem_details.set_type("https://www.rfc-editor.org/rfc/rfc9110.html#name-400-bad-request").set_status(
            400,
        ).set_title(msg).set_detail(msg);
        problem_details
    }

    pub fn from_401() -> (r: ProblemDetails)
        ensures
            is_canonical(
                r,
                "https://www.rfc-editor.org/rfc/rfc9110.html#name-401-unauthorized"@,
                "Unauthorized"@,
                401,
            ),
    {
        let msg = "Unauthorized";
        let mut problem_details = Self::default();
        problem_details.set_type("https://www.rfc-editor.org/rfc/rfc9110.html#name-401-unauthorized").set_status(
            401,
        ).set_title(msg).set_detail(msg);
        problem_details
    }

    pub fn from_403() -> (r: ProblemDetails)
        ensures
            is_canonical(
                r,
                "https://www.rfc-editor.org/rfc/rfc9110.html#name-403-forbidden"@,
                "Forbidden"@,
                403,
            ),
    {
        let msg = "Forbidden";
        let mut problem_details = Self::default();
        problem_details.set_type("https://www.rfc-editor.org/rfc/rfc9110.html#name-403-forbidden").set_status(
            403,
        ).set_title(msg).set_detail(msg);
        problem_details
    }

    pub fn from_503() -> (r: ProblemDetails)
        ensures
            is_canonical(
                r,
                "https://www.rfc-editor.org/rfc/rfc9110.html#name-503-service-unavailable"@,
                "Service Unavailable"@,
                503,
            ),
    {
        let msg = "Service Unavailable";
        let mut problem_details = Self::default();
        problem_details.set_type(
            "https://www.rfc-editor.org/rfc/rfc9110.html#name-503-service-unavailable",
        ).set_status(503).set_title(msg).set_detail(msg);
        problem_details
    }

    pub fn set_type(&mut self, value: &str) -> (r: &mut Self)
        ensures
            r.ttype@ == value@,
            r.title == old(self).title,
            r.detail == old(self).detail,
            r.status == old(self).status,
            *final(self) == *final(r),
    {
        self.ttype = value.to_string();
        self
    }

    pub fn set_title(&mut self, value: &str) -> (r: &mut Self)
        ensures
            r.ttype == old(self).ttype,
            r.title@ == value@,
            r.detail == old(self).detail,
            r.status == old(self).status,
            *final(self) == *final(r),
    {
        self.title = value.to_string();
        self
    }

    pub fn set_detail(&mut self, value: &str) -> (r: &mut Self)
        ensures
            r.ttype == old(self).ttype,
            r.title == old(self).title,
            r.detail@ == value@,
            r.status == old(self).status,
            *final(self) == *final(r),
    {
        self.detail = value.to_string();
        self
    }

    pub fn set_status(&mut self, value: u16) -> (r: &mut Self)
        ensures
            r.ttype == old(self).ttype,
            r.title == old(self).title,
            r.detail == old(self).detail,
            r.status == value,
            *final(self) == *final(r),
    {
        self.status = value;
        self
    }
}

} // verus!
