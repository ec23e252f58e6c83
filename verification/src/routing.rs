//! What route tables are made of: request methods, the ways a request can be
//! refused, and how two alternative routes combine.
use vstd::prelude::*;

verus! {

/// The method of a request.
#[derive(Clone, Copy, Debug, PartialEq, Eq, Structural)]
pub enum Method {
    Get,
    Post,
    Put,
    Delete,
    Head,
    Options,
    Connect,
    Patch,
    Trace,
    Other,
}

/// Why no route took a request.
#[derive(Clone, Copy, Debug, PartialEq, Eq, Structural)]
pub enum Rejection {
    /// No route matches the path.
    NotFound,
    /// A route was refused for the method of the request.
    MethodNotAllowed,
    /// A path segment does not hold the value the route reads from it.
    BadRequest,
}

impl Rejection {
    /// The status code a rejection is answered with.
    pub open spec fn spec_status(self) -> u16 {
        match self {
            Rejection::NotFound => 404,
            Rejection::MethodNotAllowed => 405,
            Rejection::BadRequest => 400,
        }
    }

    /// The status code a rejection is answered with.
    pub fn status(&self) -> (s: u16)
        ensures
            s == self.spec_status(),
    {
        match self {
            Rejection::NotFound => 404,
            Rejection::MethodNotAllowed => 405,
            Rejection::BadRequest => 400,
        }
    }
}

/// The rejection of two alternatives that both refused a request: a bad
/// segment value outweighs a refused method, which outweighs a path that
/// matched nothing.
pub open spec fn merge(first: Rejection, second: Rejection) -> Rejection {
    if first == Rejection::BadRequest || second == Rejection::BadRequest {
        Rejection::BadRequest
    } else if first == Rejection::MethodNotAllowed || second == Rejection::MethodNotAllowed {
        Rejection::MethodNotAllowed
    } else {
        Rejection::NotFound
    }
}

/// The outcome of one alternative of a route table: what it routes to and how
/// many path segments it consumed, or why it refused the request.
pub type Outcome<T> = Result<(T, usize), Rejection>;

/// Two alternatives tried on the same request: where both match, the one that
/// consumed more segments wins and the first wins a tie; where one matches, it
/// wins; where none does, their rejections merge.
pub open spec fn either<T>(first: Outcome<T>, second: Outcome<T>) -> Outcome<T> {
    match (first, second) {
        (Ok(a), Ok(b)) => if a.1 >= b.1 {
            Ok(a)
        } else {
            Ok(b)
        },
        (Ok(a), Err(_)) => Ok(a),
        (Err(_), Ok(b)) => Ok(b),
        (Err(e1), Err(e2)) => Err(merge(e1, e2)),
    }
}

/// What an outcome routes to, without the count of consumed segments.
pub open spec fn target<T>(outcome: Outcome<T>) -> Result<T, Rejection> {
    match outcome {
        Ok((t, _)) => Ok(t),
        Err(e) => Err(e),
    }
}

/// Combines two alternatives as `either` does.
pub fn pick_route<T>(first: Outcome<T>, second: Outcome<T>) -> (r: Outcome<T>)
    ensures
        r == either(first, second),
{
    match (first, second) {
        (Ok(a), Ok(b)) => if a.1 >= b.1 {
            Ok(a)
        } else {
            Ok(b)
        },
        (Ok(a), Err(_)) => Ok(a),
        (Err(_), Ok(b)) => Ok(b),
        (Err(e1), Err(e2)) => {
            if e1 == Rejection::BadRequest || e2 == Rejection::BadRequest {
                Err(Rejection::BadRequest)
            } else if e1 == Rejection::MethodNotAllowed || e2 == Rejection::MethodNotAllowed {
                Err(Rejection::MethodNotAllowed)
            } else {
                Err(Rejection::NotFound)
            }
        },
    }
}

/// Drops the count of consumed segments.
pub fn into_target<T>(outcome: Outcome<T>) -> (r: Result<T, Rejection>)
    ensures
        r == target(outcome),
{
    match outcome {
        Ok((t, _)) => Ok(t),
        Err(e) => Err(e),
    }
}

} // verus!
