use vstd::prelude::*;

verus! {

/// The variant of an agent response, without its payload.
#[derive(Clone, Copy, Debug, PartialEq, Eq, Structural)]
pub enum ResponseKind {
    Failure,
    Success,
    IdentitiesAnswer,
    SignResponse,
    ExtensionFailure,
    ExtensionResponse,
}

/// What a response tells about a signing request.
#[derive(Clone, Copy, Debug, PartialEq, Eq, Structural)]
pub enum Outcome {
    /// The agent signed.
    Signed,
    /// The agent refused or failed.
    Failed,
    /// An extension answered; whether it signed is not known.
    Indeterminate,
    /// A response that does not belong to a signing request.
    Unexpected,
}

/// The outcome that each response variant stands for.
pub open spec fn outcome_of(kind: ResponseKind) -> Outcome {
    match kind {
        ResponseKind::SignResponse => Outcome::Signed,
        ResponseKind::Failure | ResponseKind::ExtensionFailure => Outcome::Failed,
        ResponseKind::ExtensionResponse => Outcome::Indeterminate,
        ResponseKind::Success | ResponseKind::IdentitiesAnswer => Outcome::Unexpected,
    }
}

/// The title that each outcome is reported under.
pub open spec fn title_of(outcome: Outcome) -> Seq<char> {
    match outcome {
        Outcome::Signed => "✅ Signed"@,
        Outcome::Failed => "❌ Failed"@,
        Outcome::Indeterminate => "🤷 lol idk"@,
        Outcome::Unexpected => "😵‍💫 dazed and confused"@,
    }
}

/// Maps a response variant to its outcome.
pub fn classify(kind: ResponseKind) -> (r: Outcome)
    ensures
        r == outcome_of(kind),
        r == Outcome::Signed <==> kind == ResponseKind::SignResponse,
        r == Outcome::Failed <==> (kind == ResponseKind::Failure || kind
            == ResponseKind::ExtensionFailure),
        r == Outcome::Indeterminate <==> kind == ResponseKind::ExtensionResponse,
        r == Outcome::Unexpected <==> (kind == ResponseKind::Success || kind
            == ResponseKind::IdentitiesAnswer),
{
    match kind {
        ResponseKind::SignResponse => Outcome::Signed,
        ResponseKind::Failure | ResponseKind::ExtensionFailure => Outcome::Failed,
        ResponseKind::ExtensionResponse => Outcome::Indeterminate,
        ResponseKind::Success | ResponseKind::IdentitiesAnswer => Outcome::Unexpected,
    }
}

impl Outcome {
    /// The notification title for this outcome.
    pub fn title(&self) -> (r: String)
        ensures
            r@ == title_of(*self),
    {
        match self {
            Outcome::Signed => String::from_str("✅ Signed"),
            Outcome::Failed => String::from_str("❌ Failed"),
            Outcome::Indeterminate => String::from_str("🤷 lol idk"),
            Outcome::Unexpected => String::from_str("😵‍💫 dazed and confused"),
        }
    }
}

/// Classification is a function of the response variant: every variant has
/// exactly one outcome, and variants of different outcomes never share one.
pub proof fn lemma_classification_total(a: ResponseKind, b: ResponseKind)
    ensures
        a == b ==> outcome_of(a) == outcome_of(b),
        outcome_of(a) == Outcome::Signed <==> a == ResponseKind::SignResponse,
        outcome_of(a) == Outcome::Failed <==> (a == ResponseKind::Failure || a
            == ResponseKind::ExtensionFailure),
        outcome_of(a) == Outcome::Indeterminate <==> a == ResponseKind::ExtensionResponse,
        outcome_of(a) == Outcome::Unexpected <==> (a == ResponseKind::Success || a
            == ResponseKind::IdentitiesAnswer),
{
}

/// The four outcomes have four different titles.
pub proof fn lemma_titles_distinct(a: Outcome, b: Outcome)
    ensures
        a != b ==> title_of(a) != title_of(b),
{
    reveal_strlit("✅ Signed");
    reveal_strlit("❌ Failed");
    reveal_strlit("🤷 lol idk");
    reveal_strlit("😵‍💫 dazed and confused");
    if a != b {
        assert(title_of(a)[0] != title_of(b)[0]);
    }
}

} // verus!
