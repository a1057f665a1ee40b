//! What is sent to a peer in the course of setting up its connection.

use vstd::prelude::*;

use crate::signaling::{messages_view, SignalingMessage, SignalingMessageView};
use crate::text::{law_first_occurrence_is_replaced, law_nothing_to_replace};
use crate::text::law_occurs_between_two_parts;
use crate::text::{contains, occurs_in, opt_str, opt_text, replace, replaced, text_or_empty};

verus! {

/// The address by which an Android emulator reaches its host.
pub const EMULATOR_HOST_ALIAS: &'static str = "10.0.2.2";

/// The candidates that repeat `candidate` for an Android emulator: one with the LAN
/// address turned into the emulator's name for its host, or none where the
/// candidate does not hold the address or no address is given.
pub open spec fn alias_texts(candidate: Seq<char>, lan_ip: Option<Seq<char>>) -> Seq<Seq<char>> {
    match lan_ip {
        Some(ip) => if occurs_in(ip, candidate) {
            seq![replaced(candidate, ip, EMULATOR_HOST_ALIAS@)]
        } else {
            Seq::empty()
        },
        None => Seq::empty(),
    }
}

/// The texts of a run of strings.
pub open spec fn texts(s: Seq<String>) -> Seq<Seq<char>> {
    Seq::new(s.len(), |i: int| s[i]@)
}

/// The candidates that repeat `candidate` for an Android emulator.
pub fn emulator_aliases(candidate: &str, lan_ip: Option<&str>) -> (r: Vec<String>)
    ensures
        texts(r@) == alias_texts(candidate@, opt_str(lan_ip)),
{
    let mut out: Vec<String> = Vec::new();
    if let Some(ip) = lan_ip {
        if contains(candidate, ip) {
            out.push(replace(candidate, ip, EMULATOR_HOST_ALIAS));
        }
    }
    out
}

/// The messages that a local candidate gives rise to: the candidate as it is, then
/// its repetitions for an Android emulator.
pub open spec fn candidate_texts(
    candidate: Seq<char>,
    sdp_mline_index: u32,
    lan_ip: Option<Seq<char>>,
) -> Seq<SignalingMessageView> {
    let all = seq![candidate] + alias_texts(candidate, lan_ip);
    Seq::new(
        all.len(),
        |i: int| SignalingMessageView::IceCandidate { candidate: all[i], sdp_mline_index },
    )
}

/// The messages that a local candidate gives rise to, in order. If the first cannot
/// be sent the rest is not.
pub fn candidate_messages(candidate: &str, sdp_mline_index: u32, lan_ip: Option<&str>) -> (r: Vec<
    SignalingMessage,
>)
    ensures
        messages_view(r@) == candidate_texts(candidate@, sdp_mline_index, opt_str(lan_ip)),
{
    let mut out: Vec<SignalingMessage> = Vec::new();
    out.push(SignalingMessage::IceCandidate { candidate: candidate.to_owned(), sdp_mline_index });
    let aliases = emulator_aliases(candidate, lan_ip);
    let ghost expected = candidate_texts(candidate@, sdp_mline_index, opt_str(lan_ip));
    for i in 0..aliases.len()
        invariant
            texts(aliases@) == alias_texts(candidate@, opt_str(lan_ip)),
            expected == candidate_texts(candidate@, sdp_mline_index, opt_str(lan_ip)),
            messages_view(out@) =~= expected.take(i + 1),
    {
        let ghost sent = messages_view(out@);
        out.push(
            SignalingMessage::IceCandidate { candidate: aliases[i].clone(), sdp_mline_index },
        );
        assert(messages_view(out@) =~= sent.push(expected[i + 1]));
    }
    out
}

/// The local candidate is always the first that is sent, unchanged, and without a
/// LAN address it is the only one.
pub proof fn law_candidate_is_sent_as_it_is(
    candidate: Seq<char>,
    sdp_mline_index: u32,
    lan_ip: Option<Seq<char>>,
)
    ensures
        ({
            let sent = candidate_texts(candidate, sdp_mline_index, lan_ip);
            &&& sent.len() > 0
            &&& sent[0] == (SignalingMessageView::IceCandidate { candidate, sdp_mline_index })
            &&& lan_ip is None ==> sent.len() == 1
            &&& lan_ip is Some && !occurs_in(lan_ip->0, candidate) ==> sent.len() == 1
        }),
{
}

/// What came of asking for an offer.
#[derive(Debug)]
pub enum OfferReply {
    /// There was no reply.
    NoReply,
    /// The request failed.
    Failed,
    /// The reply holds no offer.
    NoOffer,
    /// The reply holds an offer, with this text if it has one.
    Offer { sdp: Option<String> },
}

/// What is to be done with an offer.
#[derive(Debug, PartialEq)]
pub enum OfferAction {
    /// Take the offer as the local description.
    SetLocalDescription,
    /// Send this to the peer.
    Send(SignalingMessage),
}

/// What an `OfferAction` holds.
pub enum OfferActionView {
    SetLocalDescription,
    Send(SignalingMessageView),
}

impl View for OfferAction {
    type V = OfferActionView;

    open spec fn view(&self) -> OfferActionView {
        match *self {
            OfferAction::SetLocalDescription => OfferActionView::SetLocalDescription,
            OfferAction::Send(m) => OfferActionView::Send(m@),
        }
    }
}

/// What each of a run of actions holds.
pub open spec fn offer_actions_view(s: Seq<OfferAction>) -> Seq<OfferActionView> {
    Seq::new(s.len(), |i: int| s[i]@)
}

/// What is to be done after asking for an offer: an offer becomes the local
/// description, and its text, empty if it has none, is then sent. Without an offer
/// nothing is done.
pub open spec fn offer_actions(reply: OfferReply) -> Seq<OfferActionView> {
    match reply {
        OfferReply::Offer { sdp } => seq![
            OfferActionView::SetLocalDescription,
            OfferActionView::Send(
                SignalingMessageView::Offer {
                    sdp: text_or_empty(opt_text(sdp)),
                },
            ),
        ],
        _ => Seq::empty(),
    }
}

/// What is to be done after asking for an offer, in order.
pub fn on_offer(reply: OfferReply) -> (r: Vec<OfferAction>)
    ensures
        offer_actions_view(r@) == offer_actions(reply),
{
    let mut out: Vec<OfferAction> = Vec::new();
    match reply {
        OfferReply::Offer { sdp } => {
            let text = match sdp {
                Some(t) => t,
                None => String::new(),
            };
            out.push(OfferAction::SetLocalDescription);
            out.push(OfferAction::Send(SignalingMessage::Offer { sdp: text }));
        },
        _ => {},
    }
    out
}

/// Where the LAN address occurs in a candidate, exactly two messages are sent: the
/// candidate as it is, and the candidate with each occurrence of the address turned
/// into that of the emulator's host; both under the same index.
pub proof fn law_candidate_with_the_lan_address_is_repeated(
    candidate: Seq<char>,
    sdp_mline_index: u32,
    ip: Seq<char>,
)
    requires
        exists|a: Seq<char>, b: Seq<char>| candidate == #[trigger] (a + ip + b),
    ensures
        candidate_texts(candidate, sdp_mline_index, Some(ip)) == seq![
            SignalingMessageView::IceCandidate { candidate, sdp_mline_index },
            SignalingMessageView::IceCandidate {
                candidate: replaced(candidate, ip, "10.0.2.2"@),
                sdp_mline_index,
            },
        ],
        alias_texts(candidate, Some(ip)) == seq![replaced(candidate, ip, "10.0.2.2"@)],
{
    law_occurs_between_two_parts(ip, candidate);
}

/// Where the LAN address stands once in a candidate, the copy has the address of the
/// emulator's host in its place and is otherwise the same.
pub proof fn law_copy_differs_only_in_the_address(
    before: Seq<char>,
    ip: Seq<char>,
    after: Seq<char>,
)
    requires
        ip.len() > 0,
        forall|j: int|
            0 <= j < before.len() ==> #[trigger] (before + ip + after).subrange(j, j + ip.len())
                != ip,
        forall|j: int|
            0 <= j && j + ip.len() <= after.len() ==> #[trigger] after.subrange(j, j + ip.len())
                != ip,
    ensures
        alias_texts(before + ip + after, Some(ip)) == seq![before + "10.0.2.2"@ + after],
{
    let candidate = before + ip + after;
    let i = before.len() as int;
    law_occurs_between_two_parts(ip, candidate);
    assert(candidate.subrange(i, i + ip.len()) =~= ip);
    law_first_occurrence_is_replaced(candidate, ip, "10.0.2.2"@, i);
    assert(candidate.take(i) =~= before);
    assert(candidate.skip(i + ip.len()) =~= after);
    law_nothing_to_replace(after, ip, "10.0.2.2"@);
}

/// Where no LAN address is given, or it does not occur in the candidate, there is no
/// copy.
pub proof fn law_other_candidates_are_not_repeated(candidate: Seq<char>, ip: Seq<char>)
    ensures
        alias_texts(candidate, None).len() == 0,
        !(exists|a: Seq<char>, b: Seq<char>| candidate == #[trigger] (a + ip + b)) ==> alias_texts(
            candidate,
            Some(ip),
        ).len() == 0,
{
    law_occurs_between_two_parts(ip, candidate);
}

/// An offer, whatever its text, becomes the local description, and is then sent as it
/// is, empty if it has none. Without an offer nothing is sent.
pub proof fn law_every_offer_is_set_and_sent(sdp: Option<String>, reply: OfferReply)
    ensures
        offer_actions(OfferReply::Offer { sdp }) == seq![
            OfferActionView::SetLocalDescription,
            OfferActionView::Send(
                SignalingMessageView::Offer {
                    sdp: match sdp {
                        Some(text) => text@,
                        None => Seq::empty(),
                    },
                },
            ),
        ],
        !(reply is Offer) ==> offer_actions(reply).len() == 0,
{
}

} // verus!
