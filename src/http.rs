use vstd::prelude::*;

verus! {

/// A complete HTTP response: status code, redirect target and body.
pub struct Response {
    pub status: u16,
    pub location: Option<String>,
    pub body: String,
}

/// The redirect target of a response, if it has one.
pub open spec fn location_of(r: Response) -> Option<Seq<char>> {
    match r.location {
        Some(l) => Some(l@),
        None => None,
    }
}

/// A 302 to `location`, with an empty body.
pub fn redirect_to(location: &str) -> (r: Response)
    ensures
        r.status == 302,
        location_of(r) == Some(location@),
        r.body@.len() == 0,
{
    Response { status: 302, location: Some(location.to_owned()), body: String::new() }
}

pub fn bad_request() -> (r: Response)
    ensures
        r.status == 400,
        r.location.is_none(),
        r.body@ == "400 Bad Request"@,
{
    Response { status: 400, location: None, body: "400 Bad Request".to_owned() }
}

pub fn not_found() -> (r: Response)
    ensures
        r.status == 404,
        r.location.is_none(),
        r.body@ == "Not Found"@,
{
    Response { status: 404, location: None, body: "Not Found".to_owned() }
}

pub fn internal_server_error() -> (r: Response)
    ensures
        r.status == 500,
        r.location.is_none(),
        r.body@ == "500 Internal Server Error"@,
{
    Response { status: 500, location: None, body: "500 Internal Server Error".to_owned() }
}

} // verus!
