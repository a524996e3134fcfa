use vstd::prelude::*;

verus! {

/// The claim set of a web token: audience, subject, and the two instants
/// that bound its validity.
#[derive(Debug)]
pub struct Claims {
    aud: String,
    exp: usize,
    sub: String,
    iat: usize,
}

impl Claims {
    /// The audience claim.
    pub closed spec fn aud_spec(&self) -> Seq<char> {
        self.aud@
    }

    /// The subject claim.
    pub closed spec fn sub_spec(&self) -> Seq<char> {
        self.sub@
    }

    /// The issued-at instant, in seconds.
    pub closed spec fn iat_spec(&self) -> usize {
        self.iat
    }

    /// The expiry instant, in seconds.
    pub closed spec fn exp_spec(&self) -> usize {
        self.exp
    }

    /// Build a claim set issued at `iat` and valid for `valid_for`
    /// seconds; a validity span that would push the expiry past the
    /// greatest representable instant is rejected.
    pub fn new(aud: String, sub: String, iat: usize, valid_for: usize) -> (r: Option<Claims>)
        ensures
            iat + valid_for <= usize::MAX ==> (r matches Some(c) && c.aud_spec() == aud@
                && c.sub_spec() == sub@ && c.iat_spec() == iat && c.exp_spec() == iat + valid_for),
            iat + valid_for > usize::MAX ==> r is None,
    {
        if valid_for <= usize::MAX - iat {
            Some(Claims { aud, exp: iat + valid_for, sub, iat })
        } else {
            None
        }
    }

    /// The audience claim, as text.
    pub fn aud(&self) -> (r: &str)
        ensures
            r@ == self.aud_spec(),
    {
        self.aud.as_str()
    }

    /// The subject claim, as text.
    pub fn sub(&self) -> (r: &str)
        ensures
            r@ == self.sub_spec(),
    {
        self.sub.as_str()
    }

    /// The issued-at instant, in seconds.
    pub fn iat(&self) -> (r: usize)
        ensures
            r == self.iat_spec(),
    {
        self.iat
    }

    /// The expiry instant, in seconds.
    pub fn exp(&self) -> (r: usize)
        ensures
            r == self.exp_spec(),
    {
        self.exp
    }
}

} // verus!
