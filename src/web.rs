//! Services, in the manner of actix-web's `web` module.

use vstd::prelude::*;

use crate::redirect::Redirect;

verus! {

/// A redirect from `from` to `to`, answered with `307 Temporary Redirect`.
pub fn redirect(from: &str, to: &str) -> (r: Redirect)
    ensures
        r.spec_from() == from@,
        r.spec_to() == to@,
        r.spec_status() == crate::redirect::TEMPORARY_REDIRECT,
{
    Redirect::new(from, to)
}

} // verus!
