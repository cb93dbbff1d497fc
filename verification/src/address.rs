use vstd::prelude::*;

verus! {

/// A network address as the conversion logic reads it: the full text of the
/// URL together with its domain authority (host), both plain strings.
/// Values come from `Address::parse`, which delegates to the `url` crate, or
/// directly from parts a caller already holds.
#[derive(Debug)]
pub struct Address {
    pub text: String,
    pub host: String,
}

/// What `url::Url::parse` makes of a string: the normalized text of the URL
/// paired with its domain, or nothing when the text is not an absolute URL
/// whose host is a registered name. A function of the string alone.
pub uninterp spec fn parsed_url(s: Seq<char>) -> Option<(Seq<char>, Seq<char>)>;

impl Address {
    /// Two addresses share a domain authority.
    pub open spec fn matches_domain(&self, other: &Address) -> bool {
        self.host@ == other.host@
    }

    /// Relies on `url::Url::parse` (read back through `Url::as_str` and
    /// `Url::domain`): parsing is a function of the input text alone, and
    /// `domain()` is `Some` exactly for URLs whose host is a registered name.
    #[verifier::external_body]
    pub fn parse(s: &str) -> (r: Option<Address>)
        ensures
            r matches Some(a) ==> (parsed_url(s@) matches Some(p) && a.text@ == p.0
                && a.host@ == p.1),
            r is None <==> parsed_url(s@) is None,
    {
        match url::Url::parse(s) {
            Ok(u) => match u.domain() {
                Some(d) => {
                    let host = d.to_string();
                    Some(Address { text: u.as_str().to_string(), host })
                },
                None => None,
            },
            Err(_) => None,
        }
    }

    pub fn from_parts(text: String, host: String) -> (r: Address)
        ensures
            r.text == text,
            r.host == host,
    {
        Address { text, host }
    }

    pub fn domains_match(&self, other: &Address) -> (r: bool)
        ensures
            r == self.matches_domain(other),
    {
        self.host == other.host
    }

    pub fn duplicate(&self) -> (r: Address)
        ensures
            r == *self,
    {
        Address { text: self.text.clone(), host: self.host.clone() }
    }
}

/// The audience marker that denotes a publicly addressed object.
pub open spec fn public_marker() -> Seq<char> {
    "https://www.w3.org/ns/activitystreams#Public"@
}

/// Relies on `activitystreams::public`: it returns exactly the
/// public-collection IRI `https://www.w3.org/ns/activitystreams#Public`.
#[verifier::external_body]
pub fn public_address() -> (r: String)
    ensures
        r@ == public_marker(),
{
    activitystreams::public().as_str().to_string()
}

} // verus!
