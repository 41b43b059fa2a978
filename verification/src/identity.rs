//! From a handle to its DID: the well-known lookup first, the DNS record second.

use crate::errors::{text_result_view, ErrorView, MyError};
use crate::text::{has_prefix, join3};
use vstd::prelude::*;

verus! {

/// A text is a DID of an accepted method where it begins with `did:plc` or with `did:web`:
/// its first colon-separated part is `did`, and its second begins with `plc` or `web`.
pub open spec fn is_did(text: Seq<char>) -> bool {
    "did:plc"@.is_prefix_of(text) || "did:web"@.is_prefix_of(text)
}

/// Whether `string` is a DID of an accepted method.
pub fn valid_did(string: &str) -> (valid: bool)
    ensures
        valid == is_did(string@),
{
    has_prefix(string, "did:plc") || has_prefix(string, "did:web")
}

/// The part of `text` before its first colon: all of it where it has none.
pub open spec fn first_part(text: Seq<char>) -> Seq<char>
    decreases text.len(),
{
    if text.len() == 0 || text[0] == ':' {
        Seq::empty()
    } else {
        seq![text[0]] + first_part(text.skip(1))
    }
}

/// What follows the first colon of `text`: nothing where it has none.
pub open spec fn after_first_colon(text: Seq<char>) -> Seq<char>
    decreases text.len(),
{
    if text.len() == 0 {
        Seq::empty()
    } else if text[0] == ':' {
        text.skip(1)
    } else {
        after_first_colon(text.skip(1))
    }
}

/// The part of `text` between its first colon and its second.
pub open spec fn second_part(text: Seq<char>) -> Seq<char> {
    first_part(after_first_colon(text))
}

/// How `first_part` and `after_first_colon` go on at the character `k` of `text`: past a
/// character that is no colon, and no further than a colon or the end.
proof fn lemma_part_step(text: Seq<char>, k: int)
    requires
        0 <= k <= text.len(),
    ensures
        k < text.len() && text[k] != ':' ==> first_part(text.skip(k)) == seq![text[k]]
            + first_part(text.skip(k + 1)) && after_first_colon(text.skip(k))
            == after_first_colon(text.skip(k + 1)),
        k < text.len() && text[k] == ':' ==> first_part(text.skip(k)).len() == 0
            && after_first_colon(text.skip(k)) == text.skip(k + 1),
        k == text.len() ==> first_part(text.skip(k)).len() == 0 && after_first_colon(
            text.skip(k),
        ).len() == 0,
{
    if k < text.len() {
        assert(text.skip(k).skip(1) =~= text.skip(k + 1));
        assert(text.skip(k)[0] == text[k]);
    }
}

/// A text is a DID of an accepted method exactly where its first colon-separated part is
/// `did` and its second part begins with `plc` or with `web`. A text without a second part
/// is none.
pub proof fn lemma_did_by_parts(text: Seq<char>)
    ensures
        is_did(text) <==> first_part(text) == "did"@ && ("plc"@.is_prefix_of(second_part(text))
            || "web"@.is_prefix_of(second_part(text))),
{
    reveal_strlit("did");
    reveal_strlit("plc");
    reveal_strlit("web");
    reveal_strlit("did:plc");
    reveal_strlit("did:web");
    assert(text.skip(0) =~= text);
    lemma_part_step(text, 0);
    if text.len() >= 1 {
        lemma_part_step(text, 1);
    }
    if text.len() >= 2 {
        lemma_part_step(text, 2);
    }
    if text.len() >= 3 {
        lemma_part_step(text, 3);
    }
    if text.len() >= 4 {
        lemma_part_step(text, 4);
    }
    if text.len() >= 5 {
        lemma_part_step(text, 5);
    }
    if text.len() >= 6 {
        lemma_part_step(text, 6);
    }
    let second = second_part(text);
    if is_did(text) {
        let method = if "did:plc"@.is_prefix_of(text) {
            "did:plc"@
        } else {
            "did:web"@
        };
        assert forall|i: int| 0 <= i < 7 implies text[i] == method[i] by {
            assert(text.subrange(0, 7)[i] == method[i]);
        }
        assert(first_part(text) =~= "did"@);
        assert(second.subrange(0, 3) =~= method.subrange(4, 7));
        assert("plc"@ =~= "did:plc"@.subrange(4, 7));
        assert("web"@ =~= "did:web"@.subrange(4, 7));
    }
    if first_part(text) == "did"@ && ("plc"@.is_prefix_of(second) || "web"@.is_prefix_of(second)) {
        assert(first_part(text).len() == 3 && second.len() >= 3);
        assert(text.len() >= 7);
        assert forall|i: int| 0 <= i < 3 implies text[i] == "did"@[i] by {
            assert(first_part(text)[i] == text[i]);
        }
        assert(first_part(text.skip(3)).len() == 0);
        assert(text[3] == ':');
        assert(second == first_part(text.skip(4)));
        assert(second.subrange(0, 3)[0] == text[4]);
        assert(second.subrange(0, 3)[1] == text[5]);
        assert(second.subrange(0, 3)[2] == text[6]);
        if "plc"@.is_prefix_of(second) {
            assert("did:plc"@ =~= text.subrange(0, 7));
        } else {
            assert("did:web"@ =~= text.subrange(0, 7));
        }
    }
}

/// The address at which a handle publishes its DID as plain text.
pub open spec fn well_known_url(handle: Seq<char>) -> Seq<char> {
    "https://"@ + handle + "/.well-known/atproto-did"@
}

/// The address of the DNS-over-HTTPS query for the TXT record of a handle.
pub open spec fn dns_query_url(handle: Seq<char>) -> Seq<char> {
    "https://dns.google/resolve?name=_atproto."@ + handle + "&type=TXT"@
}

/// One TXT answer of a DNS reply.
#[derive(Debug)]
pub struct DnsLookupAnswer {
    pub data: String,
}

/// A DNS-over-HTTPS reply: its status and the answers, where it has any.
#[derive(Debug)]
pub struct DnsLookup {
    pub status: u8,
    pub answer: Option<Vec<DnsLookupAnswer>>,
}

/// The DID that one TXT answer carries: what follows its first four characters, the place
/// of `did=`, where that is a DID. An answer of fewer than four characters carries none.
pub open spec fn answer_did(data: Seq<char>) -> Option<Seq<char>> {
    if data.len() >= 4 && is_did(data.skip(4)) {
        Some(data.skip(4))
    } else {
        None
    }
}

/// The DID of the first answer, in the order of the list and from the place `from` on, that
/// carries one.
pub open spec fn first_did(answers: Seq<DnsLookupAnswer>, from: int) -> Option<Seq<char>>
    decreases answers.len() - from,
{
    if from < 0 || from >= answers.len() {
        None
    } else {
        match answer_did(answers[from].data@) {
            Some(did) => Some(did),
            None => first_did(answers, from + 1),
        }
    }
}

/// The DID that a DNS reply carries: that of its first answer that carries one. A reply
/// without answers carries none.
pub open spec fn dns_did(lookup: DnsLookup) -> Option<Seq<char>> {
    match lookup.answer {
        Some(answers) => first_did(answers@, 0),
        None => None,
    }
}

/// The DID of a DNS reply, or the failure that carries the status of the reply.
pub fn did_from_dns(lookup: DnsLookup) -> (r: Result<String, MyError>)
    ensures
        text_result_view(r) == match dns_did(lookup) {
            Some(did) => Ok::<Seq<char>, ErrorView>(did),
            None => Err::<Seq<char>, ErrorView>(ErrorView::NoAnswerFound(lookup.status)),
        },
{
    let status: u8 = lookup.status;
    if let Some(answers) = lookup.answer {
        let mut i: usize = 0;
        while i < answers.len()
            invariant
                i <= answers.len(),
                status == lookup.status,
                dns_did(lookup) == first_did(answers@, i as int),
            decreases answers.len() - i,
        {
            let data: &str = answers[i].data.as_str();
            let length: usize = data.unicode_len();
            if length >= 4 {
                let did: &str = data.substring_char(4, length);
                assert(did@ =~= data@.skip(4));
                if valid_did(did) {
                    assert(answer_did(answers@[i as int].data@) == Some(did@));
                    return Ok(String::from_str(did));
                }
            }
            assert(answer_did(answers@[i as int].data@) is None);
            i += 1;
        }
    }
    Err(MyError::NoAnswerFound(status))
}

/// Where a resolution stands.
#[derive(Clone, Copy, Debug, PartialEq, Eq, Structural)]
pub enum ResolveState {
    /// Nothing was asked yet.
    Start,
    /// The well-known document was asked for.
    AwaitingWellKnown,
    /// The DNS record was asked for.
    AwaitingDns,
    /// The resolution has ended.
    Done,
}

/// What the outside reports to a resolution.
#[derive(Debug)]
pub enum ResolveEvent {
    /// The resolution is to begin.
    Begin,
    /// The body of the well-known document.
    Body(String),
    /// The reply to the DNS query.
    Records(DnsLookup),
    /// The request could not be made, or its reply could not be read.
    Failed(MyError),
}

/// What a resolution asks of the outside next.
#[derive(Debug)]
pub enum ResolveAction {
    /// Fetch the text at this address and report its body.
    GetText(String),
    /// Fetch the DNS reply at this address and report it.
    GetRecords(String),
    /// Stop with this result.
    Finish(Result<String, MyError>),
}

/// `ResolveAction` with each text as a sequence of characters.
pub enum ResolveActionView {
    GetText(Seq<char>),
    GetRecords(Seq<char>),
    Finish(Result<Seq<char>, ErrorView>),
}

impl View for ResolveAction {
    type V = ResolveActionView;

    open spec fn view(&self) -> ResolveActionView {
        match *self {
            ResolveAction::GetText(url) => ResolveActionView::GetText(url@),
            ResolveAction::GetRecords(url) => ResolveActionView::GetRecords(url@),
            ResolveAction::Finish(r) => ResolveActionView::Finish(text_result_view(r)),
        }
    }
}

/// The message of the failure that answers an event which the state does not expect.
pub open spec fn unexpected_event() -> Seq<char> {
    "unexpected event"@
}

/// The next state and the next request of a resolution of `handle`.
///
/// The well-known document is asked for first. A body that is a DID ends the resolution
/// with that DID; any other body leads to the DNS query. Its reply ends the resolution:
/// with the DID of the first answer that carries one, or with the status of the reply.
/// A failure of either request ends it with that failure.
pub open spec fn resolve_step(handle: Seq<char>, state: ResolveState, event: ResolveEvent) -> (
    ResolveState,
    ResolveActionView,
) {
    match (state, event) {
        (ResolveState::Start, ResolveEvent::Begin) => (
            ResolveState::AwaitingWellKnown,
            ResolveActionView::GetText(well_known_url(handle)),
        ),
        (ResolveState::AwaitingWellKnown, ResolveEvent::Body(body)) => if is_did(body@) {
            (ResolveState::Done, ResolveActionView::Finish(Ok(body@)))
        } else {
            (ResolveState::AwaitingDns, ResolveActionView::GetRecords(dns_query_url(handle)))
        },
        (ResolveState::AwaitingDns, ResolveEvent::Records(lookup)) => (
            ResolveState::Done,
            ResolveActionView::Finish(
                match dns_did(lookup) {
                    Some(did) => Ok(did),
                    None => Err(ErrorView::NoAnswerFound(lookup.status)),
                },
            ),
        ),
        (ResolveState::AwaitingWellKnown, ResolveEvent::Failed(e)) => (
            ResolveState::Done,
            ResolveActionView::Finish(Err(e@)),
        ),
        (ResolveState::AwaitingDns, ResolveEvent::Failed(e)) => (
            ResolveState::Done,
            ResolveActionView::Finish(Err(e@)),
        ),
        _ => (
            ResolveState::Done,
            ResolveActionView::Finish(Err(ErrorView::Validation(unexpected_event()))),
        ),
    }
}

/// One step of the resolution of `handle`: from the state and what the outside reported to
/// the next state and what to ask next.
pub fn resolve_did(handle: &str, state: ResolveState, event: ResolveEvent) -> (next: (
    ResolveState,
    ResolveAction,
))
    ensures
        next.0 == resolve_step(handle@, state, event).0,
        next.1@ == resolve_step(handle@, state, event).1,
{
    match (state, event) {
        (ResolveState::Start, ResolveEvent::Begin) => {
            let url = join3("https://", handle, "/.well-known/atproto-did");
            (ResolveState::AwaitingWellKnown, ResolveAction::GetText(url))
        },
        (ResolveState::AwaitingWellKnown, ResolveEvent::Body(body)) => {
            if valid_did(body.as_str()) {
                (ResolveState::Done, ResolveAction::Finish(Ok(body)))
            } else {
                let url = join3("https://dns.google/resolve?name=_atproto.", handle, "&type=TXT");
                (ResolveState::AwaitingDns, ResolveAction::GetRecords(url))
            }
        },
        (ResolveState::AwaitingDns, ResolveEvent::Records(lookup)) => {
            (ResolveState::Done, ResolveAction::Finish(did_from_dns(lookup)))
        },
        (ResolveState::AwaitingWellKnown, ResolveEvent::Failed(e)) => {
            (ResolveState::Done, ResolveAction::Finish(Err(e)))
        },
        (ResolveState::AwaitingDns, ResolveEvent::Failed(e)) => {
            (ResolveState::Done, ResolveAction::Finish(Err(e)))
        },
        _ => {
            let message = String::from_str("unexpected event");
            (ResolveState::Done, ResolveAction::Finish(Err(MyError::ValidationError(message))))
        },
    }
}

/// A well-known document that holds a DID ends the resolution with that DID: the DNS
/// query is not asked for.
pub proof fn lemma_well_known_did_ends_resolution(handle: Seq<char>, body: String)
    requires
        is_did(body@),
    ensures
        resolve_step(handle, ResolveState::AwaitingWellKnown, ResolveEvent::Body(body)) == (
            ResolveState::Done,
            ResolveActionView::Finish(Ok(body@)),
        ),
{
}

/// The two requests come in a fixed order: the well-known document is asked for at the
/// start and nowhere else, the DNS query only after a well-known body that is no DID.
pub proof fn lemma_requests_in_order(handle: Seq<char>, state: ResolveState, event: ResolveEvent)
    ensures
        resolve_step(handle, state, event).1 is GetText ==> state == ResolveState::Start
            && event is Begin && resolve_step(handle, state, event).0
            == ResolveState::AwaitingWellKnown,
        resolve_step(handle, state, event).1 is GetRecords ==> state
            == ResolveState::AwaitingWellKnown && event is Body && !is_did(event->Body_0@)
            && resolve_step(handle, state, event).0 == ResolveState::AwaitingDns,
        resolve_step(handle, state, event).1 is Finish <==> resolve_step(handle, state, event).0
            == ResolveState::Done,
{
}

/// Answers that carry no DID are passed over: the search from the start of the list finds
/// what the search from `index` finds, where no answer before `index` carries a DID.
pub proof fn lemma_answers_without_did_are_passed(answers: Seq<DnsLookupAnswer>, index: int)
    requires
        0 <= index <= answers.len(),
        forall|j: int| 0 <= j < index ==> answer_did(#[trigger] answers[j].data@) is None,
    ensures
        first_did(answers, 0) == first_did(answers, index),
    decreases index,
{
    if index > 0 {
        lemma_answers_without_did_are_passed(answers, index - 1);
        assert(answer_did(answers[index - 1].data@) is None);
    }
}

/// A DNS reply resolves to the DID of its first answer that is `did=` followed by a DID:
/// the answer at `index` decides where no answer before it carries a DID.
pub proof fn lemma_dns_record_resolves(
    handle: Seq<char>,
    lookup: DnsLookup,
    index: int,
    did: Seq<char>,
)
    requires
        lookup.answer is Some,
        0 <= index < lookup.answer->Some_0@.len(),
        forall|j: int|
            0 <= j < index ==> answer_did(#[trigger] lookup.answer->Some_0@[j].data@) is None,
        lookup.answer->Some_0@[index].data@ == "did="@ + did,
        is_did(did),
    ensures
        dns_did(lookup) == Some(did),
        resolve_step(handle, ResolveState::AwaitingDns, ResolveEvent::Records(lookup)) == (
            ResolveState::Done,
            ResolveActionView::Finish(Ok(did)),
        ),
{
    reveal_strlit("did=");
    assert(("did="@ + did).skip(4) =~= did);
    lemma_answers_without_did_are_passed(lookup.answer->Some_0@, index);
}

/// A DNS reply fails the resolution with its status exactly where none of its answers
/// carries a DID: where it has no list of answers, an empty one, or only answers that are
/// too short or are followed by no DID.
pub proof fn lemma_no_answer_gives_status(handle: Seq<char>, lookup: DnsLookup)
    ensures
        (lookup.answer is None || forall|j: int|
            0 <= j < lookup.answer->Some_0@.len() ==> answer_did(
                #[trigger] lookup.answer->Some_0@[j].data@,
            ) is None) <==> resolve_step(
            handle,
            ResolveState::AwaitingDns,
            ResolveEvent::Records(lookup),
        ) == (
            ResolveState::Done,
            ResolveActionView::Finish(
                Err::<Seq<char>, ErrorView>(ErrorView::NoAnswerFound(lookup.status)),
            ),
        ),
{
    if lookup.answer is Some {
        let answers = lookup.answer->Some_0@;
        if forall|j: int| 0 <= j < answers.len() ==> answer_did(#[trigger] answers[j].data@) is None {
            lemma_answers_without_did_are_passed(answers, answers.len() as int);
        } else {
            let j = choose|j: int| 0 <= j < answers.len() && answer_did(answers[j].data@) is Some;
            lemma_found_did_is_carried(answers, 0, j);
        }
    }
}

/// An answer that carries a DID is not passed by: the search from `from` finds a DID where
/// an answer at or after `from` carries one.
proof fn lemma_found_did_is_carried(answers: Seq<DnsLookupAnswer>, from: int, index: int)
    requires
        0 <= from <= index < answers.len(),
        answer_did(answers[index].data@) is Some,
    ensures
        first_did(answers, from) is Some,
    decreases index - from,
{
    if from < index && answer_did(answers[from].data@) is None {
        lemma_found_did_is_carried(answers, from + 1, index);
    }
}

/// How far a resolution has come, as a number.
pub open spec fn resolve_rank(state: ResolveState) -> nat {
    match state {
        ResolveState::Start => 0,
        ResolveState::AwaitingWellKnown => 1,
        ResolveState::AwaitingDns => 2,
        ResolveState::Done => 3,
    }
}

/// Every step moves a resolution forward, and one that is done stays done: a resolution
/// makes at most two requests, one after the other, and then ends.
pub proof fn lemma_resolution_advances(handle: Seq<char>, state: ResolveState, event: ResolveEvent)
    ensures
        state != ResolveState::Done ==> resolve_rank(resolve_step(handle, state, event).0)
            > resolve_rank(state),
        state == ResolveState::Done ==> resolve_step(handle, state, event).0
            == ResolveState::Done,
{
}

} // verus!
