//! The boundary to the payjoin crate.
//!
//! The states of a receiver and the transitions between them are that crate's; here stand the
//! calls that only compute. What such a call returns is given a name; the contracts of the
//! library speak of these names.
use vstd::prelude::*;

use ::bitcoin_ohttp::ClientResponse;
use ::payjoin::bitcoin::address::NetworkChecked;
use ::payjoin::bitcoin::FeeRate;
use ::payjoin::persist::MaybeFatalTransition;
use ::payjoin::persist::MaybeSuccessTransition;
use ::payjoin::persist::MaybeTransientTransition;
use ::payjoin::persist::NextStateTransition;
use ::payjoin::persist::NoopSessionPersister;
use ::payjoin::receive::v2::MaybeInputsOwned;
use ::payjoin::receive::v2::MaybeInputsSeen;
use ::payjoin::receive::v2::OutputsUnknown;
use ::payjoin::receive::v2::PayjoinProposal;
use ::payjoin::receive::v2::ProvisionalProposal;
use ::payjoin::receive::v2::Receiver;
use ::payjoin::receive::v2::SessionEvent as ReceiverSessionEvent;
use ::payjoin::receive::v2::SessionHistory;
use ::payjoin::receive::v2::UncheckedProposal;
use ::payjoin::receive::v2::WantsInputs;
use ::payjoin::receive::v2::WantsOutputs;
use ::payjoin::receive::Error;
use ::payjoin::receive::InputPair;
use ::payjoin::receive::ReplyableError;
use ::payjoin::send::v2::EncapsulationError;
use ::payjoin::send::v2::Sender;
use ::payjoin::send::v2::SessionEvent as SenderSessionEvent;
use ::payjoin::send::v2::V2GetContext;
use ::payjoin::send::v2::V2PostContext;
use ::payjoin::send::v2::WithReplyKey;
use ::payjoin::PjUri;
use ::payjoin::Uri;
use ::payjoin::UriExt;

use crate::psbt::{Input, Psbt, TxIn};
use crate::psbt::{psbt_view, InputView, PsbtView, TxInView};
use crate::wire::{input_into, psbt_from, psbt_into, txin_into};

verus! {

#[verifier::external_type_specification]
#[verifier::external_body]
#[verifier::reject_recursive_types(S)]
pub struct ExReceiver<S>(Receiver<S>);

#[verifier::external_type_specification]
#[verifier::external_body]
pub struct ExUncheckedProposal(UncheckedProposal);

#[verifier::external_type_specification]
#[verifier::external_body]
pub struct ExMaybeInputsOwned(MaybeInputsOwned);

#[verifier::external_type_specification]
#[verifier::external_body]
pub struct ExMaybeInputsSeen(MaybeInputsSeen);

#[verifier::external_type_specification]
#[verifier::external_body]
pub struct ExOutputsUnknown(OutputsUnknown);

#[verifier::external_type_specification]
#[verifier::external_body]
pub struct ExWantsOutputs(WantsOutputs);

#[verifier::external_type_specification]
#[verifier::external_body]
pub struct ExWantsInputs(WantsInputs);

#[verifier::external_type_specification]
#[verifier::external_body]
pub struct ExProvisionalProposal(ProvisionalProposal);

#[verifier::external_type_specification]
#[verifier::external_body]
pub struct ExPayjoinProposal(PayjoinProposal);

#[verifier::external_type_specification]
#[verifier::external_body]
pub struct ExReplyableError(ReplyableError);

#[verifier::external_type_specification]
#[verifier::external_body]
pub struct ExError(Error);

#[verifier::external_type_specification]
#[verifier::external_body]
pub struct ExClientResponse(ClientResponse);

#[verifier::external_type_specification]
#[verifier::external_body]
pub struct ExSessionHistory(SessionHistory);

#[verifier::external_type_specification]
#[verifier::external_body]
pub struct ExInputPair(InputPair);

#[verifier::external_type_specification]
#[verifier::external_body]
#[verifier::reject_recursive_types(E)]
#[verifier::reject_recursive_types(N)]
#[verifier::reject_recursive_types(R)]
pub struct ExMaybeFatalTransition<E, N, R>(MaybeFatalTransition<E, N, R>);

#[verifier::external_type_specification]
#[verifier::external_body]
#[verifier::reject_recursive_types(E)]
#[verifier::reject_recursive_types(N)]
#[verifier::reject_recursive_types(R)]
pub struct ExMaybeTransientTransition<E, N, R>(MaybeTransientTransition<E, N, R>);

#[verifier::external_type_specification]
#[verifier::external_body]
#[verifier::reject_recursive_types(V)]
#[verifier::reject_recursive_types(R)]
pub struct ExMaybeSuccessTransition<V, R>(MaybeSuccessTransition<V, R>);

#[verifier::external_type_specification]
#[verifier::external_body]
#[verifier::reject_recursive_types(E)]
#[verifier::reject_recursive_types(N)]
pub struct ExNextStateTransition<E, N>(NextStateTransition<E, N>);

#[verifier::external_type_specification]
#[verifier::external_body]
#[verifier::reject_recursive_types(S)]
pub struct ExSender<S>(Sender<S>);

#[verifier::external_type_specification]
#[verifier::external_body]
pub struct ExWithReplyKey(WithReplyKey);

#[verifier::external_type_specification]
#[verifier::external_body]
pub struct ExV2GetContext(V2GetContext);

#[verifier::external_type_specification]
#[verifier::external_body]
pub struct ExV2PostContext(V2PostContext);

#[verifier::external_type_specification]
#[verifier::external_body]
pub struct ExEncapsulationError(EncapsulationError);

/// What `Receiver<MaybeInputsOwned>::check_inputs_not_owned` returns if its callback answers
/// `owned` to every script.
pub uninterp spec fn inputs_not_owned(proposal: Receiver<MaybeInputsOwned>, owned: bool) -> MaybeFatalTransition<ReceiverSessionEvent, Receiver<MaybeInputsSeen>, ReplyableError>;

/// What `Receiver<MaybeInputsSeen>::check_no_inputs_seen_before` returns if its callback answers
/// `known` to every outpoint.
pub uninterp spec fn no_inputs_seen_before(proposal: Receiver<MaybeInputsSeen>, known: bool) -> MaybeFatalTransition<ReceiverSessionEvent, Receiver<OutputsUnknown>, ReplyableError>;

/// What `Receiver<OutputsUnknown>::identify_receiver_outputs` returns if its callback answers
/// `received` to every script.
pub uninterp spec fn receiver_outputs(proposal: Receiver<OutputsUnknown>, received: bool) -> MaybeFatalTransition<ReceiverSessionEvent, Receiver<WantsOutputs>, ReplyableError>;

/// What `Receiver<WantsOutputs>::commit_outputs` returns.
pub uninterp spec fn outputs_committed(proposal: Receiver<WantsOutputs>) -> NextStateTransition<ReceiverSessionEvent, Receiver<WantsInputs>>;

/// The PSBT that `SessionHistory::psbt_with_contributed_inputs` finds.
pub uninterp spec fn psbt_with_contributed_inputs(history: SessionHistory) -> Option<PsbtView>;

/// The PSBT that `Receiver<PayjoinProposal>::psbt` gives.
pub uninterp spec fn payjoin_proposal_psbt(proposal: Receiver<PayjoinProposal>) -> PsbtView;

/// The pair that `InputPair::new` makes of a transaction input and its map, or `None` where it
/// reports an error or rust-bitcoin does not read the fields of the map.
pub uninterp spec fn input_pair_of(txin: TxInView, psbtin: InputView) -> Option<InputPair>;

/// What `Receiver<UncheckedProposal>::assume_interactive_receiver` returns.
pub uninterp spec fn interactive_assumed(proposal: Receiver<UncheckedProposal>) -> NextStateTransition<ReceiverSessionEvent, Receiver<MaybeInputsOwned>>;

/// What `Receiver<WantsInputs>::commit_inputs` returns.
pub uninterp spec fn inputs_committed(proposal: Receiver<WantsInputs>) -> NextStateTransition<ReceiverSessionEvent, Receiver<ProvisionalProposal>>;

/// What `Receiver<ProvisionalProposal>::finalize_proposal` returns if its callback gives back the
/// PSBT that it is handed. Fee rates are in satoshis per thousand weight units.
pub uninterp spec fn finalized_as_proposed(proposal: Receiver<ProvisionalProposal>, min_fee_rate: Option<u64>, max_fee_rate: Option<u64>) -> MaybeTransientTransition<ReceiverSessionEvent, Receiver<PayjoinProposal>, ReplyableError>;

/// What `Receiver<ProvisionalProposal>::finalize_proposal` returns if its callback gives `answer`,
/// or `None` where rust-bitcoin does not read the fields of that PSBT. Fee rates are in satoshis
/// per thousand weight units.
pub uninterp spec fn finalized_as_answered(proposal: Receiver<ProvisionalProposal>, answer: PsbtView, min_fee_rate: Option<u64>, max_fee_rate: Option<u64>) -> Option<MaybeTransientTransition<ReceiverSessionEvent, Receiver<PayjoinProposal>, ReplyableError>>;

/// The state that `NextStateTransition::save` gives if nothing is stored.
pub uninterp spec fn maybe_inputs_owned_of(transition: NextStateTransition<ReceiverSessionEvent, Receiver<MaybeInputsOwned>>) -> Receiver<MaybeInputsOwned>;

/// The state that `MaybeFatalTransition::save` gives if nothing is stored, or `None` where it
/// reports an error.
pub uninterp spec fn maybe_inputs_seen_of(transition: MaybeFatalTransition<ReceiverSessionEvent, Receiver<MaybeInputsSeen>, ReplyableError>) -> Option<Receiver<MaybeInputsSeen>>;

/// The state that `MaybeFatalTransition::save` gives if nothing is stored, or `None` where it
/// reports an error.
pub uninterp spec fn outputs_unknown_of(transition: MaybeFatalTransition<ReceiverSessionEvent, Receiver<OutputsUnknown>, ReplyableError>) -> Option<Receiver<OutputsUnknown>>;

/// The state that `MaybeFatalTransition::save` gives if nothing is stored, or `None` where it
/// reports an error.
pub uninterp spec fn wants_outputs_of(transition: MaybeFatalTransition<ReceiverSessionEvent, Receiver<WantsOutputs>, ReplyableError>) -> Option<Receiver<WantsOutputs>>;

/// The state that `NextStateTransition::save` gives if nothing is stored.
pub uninterp spec fn wants_inputs_of(transition: NextStateTransition<ReceiverSessionEvent, Receiver<WantsInputs>>) -> Receiver<WantsInputs>;

/// The state that `NextStateTransition::save` gives if nothing is stored.
pub uninterp spec fn provisional_proposal_of(transition: NextStateTransition<ReceiverSessionEvent, Receiver<ProvisionalProposal>>) -> Receiver<ProvisionalProposal>;

/// The state that `MaybeTransientTransition::save` gives if nothing is stored, or `None` where it
/// reports an error.
pub uninterp spec fn payjoin_proposal_of(transition: MaybeTransientTransition<ReceiverSessionEvent, Receiver<PayjoinProposal>, ReplyableError>) -> Option<Receiver<PayjoinProposal>>;

/// What `Sender<WithReplyKey>::process_response` returns.
pub uninterp spec fn original_posted(sender: Sender<WithReplyKey>, response: Seq<u8>, context: V2PostContext) -> MaybeFatalTransition<SenderSessionEvent, Sender<V2GetContext>, EncapsulationError>;

/// What `Receiver<PayjoinProposal>::process_res` returns.
pub uninterp spec fn proposal_posted(proposal: Receiver<PayjoinProposal>, response: Seq<u8>, context: ClientResponse) -> MaybeSuccessTransition<(), Error>;

/// The URI that `payjoin::Uri`'s `TryFrom` reads from a BIP 21 text, or `None` where it reports an
/// error.
pub uninterp spec fn bip21_parsed(bip21: Seq<char>) -> Option<Bip21Uri>;

/// The URI with its payjoin parameters that `UriExt::check_pj_supported` gives, or `None` where the
/// URI has no such parameters.
pub uninterp spec fn pj_supported(uri: Bip21Uri) -> Option<PayjoinUri>;

/// The URI with payjoin parameters that a BIP 21 text stands for, if it is one.
pub open spec fn payjoin_uri(bip21: Seq<char>) -> Option<PayjoinUri> {
    match bip21_parsed(bip21) {
        Some(uri) => pj_supported(uri),
        None => None,
    }
}

/// The proposal in which a receiver that contributes nothing leaves one whose outputs it has not
/// identified yet.
pub open spec fn committed_unchanged(
    proposal: Receiver<OutputsUnknown>,
    received: bool,
) -> Option<Receiver<ProvisionalProposal>> {
    match wants_outputs_of(receiver_outputs(proposal, received)) {
        Some(proposal) => Some(
            provisional_proposal_of(
                inputs_committed(wants_inputs_of(outputs_committed(proposal))),
            ),
        ),
        None => None,
    }
}

/// Nothing has been contributed to the proposal.
pub open spec fn uncontributed(proposal: Receiver<ProvisionalProposal>) -> bool {
    exists|before: Receiver<OutputsUnknown>, received: bool| #[trigger]
        committed_unchanged(before, received) == Some(proposal)
}

/// A BIP 21 URI, which may have payjoin parameters. Which network its address belongs to does not
/// matter.
#[verifier::external_body]
#[derive(Debug)]
pub struct Bip21Uri(pub Uri<'static, NetworkChecked>);

/// A BIP 21 URI with payjoin parameters.
#[verifier::external_body]
#[derive(Debug)]
pub struct PayjoinUri(pub PjUri<'static>);

/// Calls `Receiver<MaybeInputsOwned>::check_inputs_not_owned` with a callback that answers `owned`
/// to every script. The transition is a function of the proposal and the answer.
#[verifier::external_body]
pub(crate) fn check_inputs_not_owned(
    proposal: Receiver<MaybeInputsOwned>,
    owned: bool,
) -> (transition: MaybeFatalTransition<ReceiverSessionEvent, Receiver<MaybeInputsSeen>, ReplyableError>)
    ensures
        transition == inputs_not_owned(proposal, owned),
{
    proposal.check_inputs_not_owned(|_| Ok(owned))
}

/// Calls `Receiver<MaybeInputsSeen>::check_no_inputs_seen_before` with a callback that answers
/// `known` to every outpoint. The transition is a function of the proposal and the answer.
#[verifier::external_body]
pub(crate) fn check_no_inputs_seen_before(
    proposal: Receiver<MaybeInputsSeen>,
    known: bool,
) -> (transition: MaybeFatalTransition<ReceiverSessionEvent, Receiver<OutputsUnknown>, ReplyableError>)
    ensures
        transition == no_inputs_seen_before(proposal, known),
{
    proposal.check_no_inputs_seen_before(|_| Ok(known))
}

/// Calls `Receiver<OutputsUnknown>::identify_receiver_outputs` with a callback that answers
/// `received` to every script. The transition is a function of the proposal and the answer.
#[verifier::external_body]
pub(crate) fn identify_receiver_outputs(
    proposal: Receiver<OutputsUnknown>,
    received: bool,
) -> (transition: MaybeFatalTransition<ReceiverSessionEvent, Receiver<WantsOutputs>, ReplyableError>)
    ensures
        transition == receiver_outputs(proposal, received),
{
    proposal.identify_receiver_outputs(|_| Ok(received))
}

/// Calls `Receiver<WantsOutputs>::commit_outputs`. The transition is a function of the proposal.
#[verifier::external_body]
pub(crate) fn commit_outputs(proposal: Receiver<WantsOutputs>) -> (transition: NextStateTransition<
    ReceiverSessionEvent,
    Receiver<WantsInputs>,
>)
    ensures
        transition == outputs_committed(proposal),
{
    proposal.commit_outputs()
}

/// Calls `SessionHistory::psbt_with_contributed_inputs`. The PSBT is a function of the history;
/// a history that was read from elsewhere need not hold a map for every input and output.
#[verifier::external_body]
pub(crate) fn contributed_psbt(history: &SessionHistory) -> (psbt: Option<Psbt>)
    ensures
        psbt_view(psbt) == psbt_with_contributed_inputs(*history),
{
    history.psbt_with_contributed_inputs().map(|psbt| psbt_from(&psbt))
}

/// Calls `Receiver<PayjoinProposal>::psbt`. The PSBT is a function of the proposal.
#[verifier::external_body]
pub(crate) fn proposed_psbt(proposal: &Receiver<PayjoinProposal>) -> (psbt: Psbt)
    ensures
        psbt@ == payjoin_proposal_psbt(*proposal),
{
    psbt_from(proposal.psbt())
}

/// Calls `InputPair::new`. The pair is a function of the transaction input and its map.
#[verifier::external_body]
pub(crate) fn input_pair(txin: &TxIn, psbtin: &Input) -> (pair: Option<InputPair>)
    ensures
        pair == input_pair_of(txin@, psbtin@),
{
    InputPair::new(txin_into(txin), input_into(psbtin)?).ok()
}

/// Calls `Receiver<UncheckedProposal>::assume_interactive_receiver`. The transition is a function
/// of the proposal.
#[verifier::external_body]
pub(crate) fn assume_interactive_receiver(
    proposal: Receiver<UncheckedProposal>,
) -> (transition: NextStateTransition<ReceiverSessionEvent, Receiver<MaybeInputsOwned>>)
    ensures
        transition == interactive_assumed(proposal),
{
    proposal.assume_interactive_receiver()
}

/// Calls `Receiver<WantsInputs>::commit_inputs`. The transition is a function of the proposal.
#[verifier::external_body]
pub(crate) fn commit_inputs(proposal: Receiver<WantsInputs>) -> (transition: NextStateTransition<
    ReceiverSessionEvent,
    Receiver<ProvisionalProposal>,
>)
    ensures
        transition == inputs_committed(proposal),
{
    proposal.commit_inputs()
}

/// Calls `Receiver<ProvisionalProposal>::finalize_proposal` with a callback that gives back the
/// PSBT that it is handed. The transition is a function of the proposal and the fee rates. After a
/// contribution the call could take more fees from an output than it is worth.
#[verifier::external_body]
pub(crate) fn finalize_as_proposed(
    proposal: Receiver<ProvisionalProposal>,
    min_fee_rate: Option<u64>,
    max_fee_rate: Option<u64>,
) -> (transition: MaybeTransientTransition<ReceiverSessionEvent, Receiver<PayjoinProposal>, ReplyableError>)
    requires
        uncontributed(proposal),
    ensures
        transition == finalized_as_proposed(proposal, min_fee_rate, max_fee_rate),
{
    let min_fee_rate = min_fee_rate.map(FeeRate::from_sat_per_kwu);
    let max_fee_rate = max_fee_rate.map(FeeRate::from_sat_per_kwu);
    proposal.finalize_proposal(|psbt| Ok(psbt.clone()), min_fee_rate, max_fee_rate)
}

/// Calls `Receiver<ProvisionalProposal>::finalize_proposal` with a callback that gives `answer`.
/// The transition is a function of the proposal, of that PSBT and of the fee rates.
#[verifier::external_body]
pub(crate) fn finalize_as_answered(
    proposal: Receiver<ProvisionalProposal>,
    answer: &Psbt,
    min_fee_rate: Option<u64>,
    max_fee_rate: Option<u64>,
) -> (transition: Option<MaybeTransientTransition<ReceiverSessionEvent, Receiver<PayjoinProposal>, ReplyableError>>)
    requires
        uncontributed(proposal),
        answer@.well_formed(),
    ensures
        transition == finalized_as_answered(proposal, answer@, min_fee_rate, max_fee_rate),
{
    let answer = psbt_into(answer)?;
    let min_fee_rate = min_fee_rate.map(FeeRate::from_sat_per_kwu);
    let max_fee_rate = max_fee_rate.map(FeeRate::from_sat_per_kwu);
    Some(proposal.finalize_proposal(|_| Ok(answer.clone()), min_fee_rate, max_fee_rate))
}

/// Calls `NextStateTransition::save` with a persister that stores nothing and never fails. The
/// state is a function of the transition.
#[verifier::external_body]
pub(crate) fn into_maybe_inputs_owned(transition: NextStateTransition<ReceiverSessionEvent, Receiver<MaybeInputsOwned>>) -> (proposal: Receiver<MaybeInputsOwned>)
    ensures
        proposal == maybe_inputs_owned_of(transition),
{
    transition.save(&NoopSessionPersister::default()).unwrap_or_else(|never| match never {})
}

/// Calls `MaybeFatalTransition::save` with a persister that stores nothing. The state is a function
/// of the transition.
#[verifier::external_body]
pub(crate) fn into_maybe_inputs_seen(transition: MaybeFatalTransition<ReceiverSessionEvent, Receiver<MaybeInputsSeen>, ReplyableError>) -> (proposal: Option<Receiver<MaybeInputsSeen>>)
    ensures
        proposal == maybe_inputs_seen_of(transition),
{
    transition.save(&NoopSessionPersister::default()).ok()
}

/// Calls `MaybeFatalTransition::save` with a persister that stores nothing. The state is a function
/// of the transition.
#[verifier::external_body]
pub(crate) fn into_outputs_unknown(transition: MaybeFatalTransition<ReceiverSessionEvent, Receiver<OutputsUnknown>, ReplyableError>) -> (proposal: Option<Receiver<OutputsUnknown>>)
    ensures
        proposal == outputs_unknown_of(transition),
{
    transition.save(&NoopSessionPersister::default()).ok()
}

/// Calls `MaybeFatalTransition::save` with a persister that stores nothing. The state is a function
/// of the transition.
#[verifier::external_body]
pub(crate) fn into_wants_outputs(transition: MaybeFatalTransition<ReceiverSessionEvent, Receiver<WantsOutputs>, ReplyableError>) -> (proposal: Option<Receiver<WantsOutputs>>)
    ensures
        proposal == wants_outputs_of(transition),
{
    transition.save(&NoopSessionPersister::default()).ok()
}

/// Calls `NextStateTransition::save` with a persister that stores nothing and never fails. The
/// state is a function of the transition.
#[verifier::external_body]
pub(crate) fn into_wants_inputs(transition: NextStateTransition<ReceiverSessionEvent, Receiver<WantsInputs>>) -> (proposal: Receiver<WantsInputs>)
    ensures
        proposal == wants_inputs_of(transition),
{
    transition.save(&NoopSessionPersister::default()).unwrap_or_else(|never| match never {})
}

/// Calls `NextStateTransition::save` with a persister that stores nothing and never fails. The
/// state is a function of the transition.
#[verifier::external_body]
pub(crate) fn into_provisional_proposal(transition: NextStateTransition<ReceiverSessionEvent, Receiver<ProvisionalProposal>>) -> (proposal: Receiver<ProvisionalProposal>)
    ensures
        proposal == provisional_proposal_of(transition),
{
    transition.save(&NoopSessionPersister::default()).unwrap_or_else(|never| match never {})
}

/// Calls `MaybeTransientTransition::save` with a persister that stores nothing. The state is a function
/// of the transition.
#[verifier::external_body]
pub(crate) fn into_payjoin_proposal(transition: MaybeTransientTransition<ReceiverSessionEvent, Receiver<PayjoinProposal>, ReplyableError>) -> (proposal: Option<Receiver<PayjoinProposal>>)
    ensures
        proposal == payjoin_proposal_of(transition),
{
    transition.save(&NoopSessionPersister::default()).ok()
}

/// Calls `Sender<WithReplyKey>::process_response`. The transition is a function of the sender, of
/// the response and of the context that the request was made with.
#[verifier::external_body]
pub(crate) fn process_post_response(
    sender: Sender<WithReplyKey>,
    response: &Vec<u8>,
    context: V2PostContext,
) -> (transition: MaybeFatalTransition<SenderSessionEvent, Sender<V2GetContext>, EncapsulationError>)
    ensures
        transition == original_posted(sender, response@, context),
{
    sender.process_response(response, context)
}

/// Calls `Receiver<PayjoinProposal>::process_res`. The transition is a function of the proposal, of
/// the response and of the context that the request was made with.
#[verifier::external_body]
pub(crate) fn process_proposal_response(
    proposal: &Receiver<PayjoinProposal>,
    response: &Vec<u8>,
    context: ClientResponse,
) -> (transition: MaybeSuccessTransition<(), Error>)
    ensures
        transition == proposal_posted(*proposal, response@, context),
{
    proposal.process_res(response, context)
}

/// Reads a BIP 21 text with `payjoin::Uri`'s `TryFrom`. The URI is a function of the text.
#[verifier::external_body]
pub(crate) fn parse_bip21(bip21: &str) -> (uri: Option<Bip21Uri>)
    ensures
        uri == bip21_parsed(bip21@),
{
    Uri::try_from(bip21.to_string()).ok().map(|uri| Bip21Uri(uri.assume_checked()))
}

/// Calls `UriExt::check_pj_supported`. The result is a function of the URI.
#[verifier::external_body]
pub(crate) fn check_pj_supported(uri: Bip21Uri) -> (supported: Option<PayjoinUri>)
    ensures
        supported == pj_supported(uri),
{
    uri.0.check_pj_supported().ok().map(PayjoinUri)
}

} // verus!
