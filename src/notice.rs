use vstd::prelude::*;

verus! {

/// Title of the notice opened when a signature is requested.
pub open spec fn request_title() -> Seq<char> {
    "🥺👉👈 Signing request"@
}

/// Title used when the outcome never arrives.
pub open spec fn fallback_title() -> Seq<char> {
    "😵‍💫 Couldn't get result: the outcome was never sent"@
}

/// Body of the notice: who asks, and for which identity.
pub open spec fn body_of(peer: Option<Seq<char>>, label: Seq<char>) -> Seq<char> {
    match peer {
        Some(p) => "Client: "@ + p + "\nWants to use pubkey: "@ + label,
        None => "Unknown Client\nWants to use pubkey: "@ + label,
    }
}

/// The view of an optional peer description.
pub open spec fn peer_view(peer: Option<String>) -> Option<Seq<char>> {
    match peer {
        Some(p) => Some(p@),
        None => None,
    }
}

/// Composes the body of a signing notice from the peer description, if the
/// transport gave one, and the label of the requested identity.
pub fn notification_body(peer_info: &Option<String>, label: &String) -> (r: String)
    ensures
        r@ == body_of(peer_view(*peer_info), label@),
{
    let mut body = match peer_info {
        Some(p) => {
            let mut b = String::from_str("Client: ");
            b.append(p.as_str());
            b.append("\nWants to use pubkey: ");
            b
        },
        None => String::from_str("Unknown Client\nWants to use pubkey: "),
    };
    body.append(label.as_str());
    body
}

/// A desktop notice as the backend is to show it.
pub struct Notice {
    pub summary: String,
    pub body: String,
    /// The notice stays until the user dismisses it.
    pub resident: bool,
    /// The notice goes away after the backend's default time.
    pub expires: bool,
}

impl Notice {
    /// The notice shown as soon as a signature is requested: it carries the
    /// request title and stays on screen.
    pub fn announce(body: String) -> (r: Notice)
        ensures
            r.summary@ == request_title(),
            r.body@ == body@,
            r.resident,
            !r.expires,
    {
        Notice { summary: String::from_str("🥺👉👈 Signing request"), body, resident: true, expires: false }
    }

    /// Completes the notice with what the outcome cell delivered: the title
    /// becomes the delivered title, or the fallback title when the cell was
    /// closed without a value, and the notice becomes transient.
    pub fn resolve(&mut self, delivered: Option<String>)
        ensures
            final(self).summary@ == match delivered {
                Some(t) => t@,
                None => fallback_title(),
            },
            final(self).body@ == old(self).body@,
            !final(self).resident,
            final(self).expires,
    {
        self.summary = match delivered {
            Some(t) => t,
            None => String::from_str("😵‍💫 Couldn't get result: the outcome was never sent"),
        };
        self.resident = false;
        self.expires = true;
    }
}

} // verus!
