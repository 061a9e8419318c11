//! What both sides of a payjoin need: the relay, its requests, and finalizing a PSBT.
use vstd::prelude::*;
use vstd::string::*;

use crate::psbt::{Input, Psbt, TxOut};
use crate::psbt::law_psbt_view;
use crate::psbt::{InputView, PsbtView, TxOutView};

verus! {

/// The OHTTP relay through which the payjoin directory is reached.
pub const OHTTP_RELAY: &'static str = "https://pj.bobspacebkk.com";

/// How long a request to the relay may take, in seconds.
pub const REQUEST_TIMEOUT_SECS: u64 = 10;

/// What is reported of a request that could not be sent.
pub fn post_error(cause: &str) -> (message: String)
    ensures
        message@ == "Failed to post_reques(): "@ + cause@,
{
    let mut message = "Failed to post_reques(): ".to_string();
    message.append(cause);
    message
}

impl InputView {
    /// The input is to be finalized: it is known what it spends, it has been signed and it has
    /// not been finalized before.
    pub open spec fn wants_finalizing(self) -> bool {
        &&& self.witness_utxo is Some
        &&& self.final_script_sig is None
        &&& self.final_script_witness is None
        &&& self.partial_sigs.len() > 0
    }

    /// The same map with a worthless output in place of a missing witness output.
    pub open spec fn with_placeholder(self) -> InputView {
        if self.witness_utxo is None {
            InputView {
                witness_utxo: Some(TxOutView { value: 0, script_pubkey: Seq::empty() }),
                ..self
            }
        } else {
            self
        }
    }
}

impl PsbtView {
    /// The same PSBT with a placeholder in every input that lacks a witness output.
    pub open spec fn with_placeholders(self) -> PsbtView {
        PsbtView {
            inputs: self.inputs.map_values(|i: InputView| i.with_placeholder()),
            ..self
        }
    }

    /// The same PSBT without the witness outputs that `before` lacks.
    pub open spec fn without_placeholders_of(self, before: PsbtView) -> PsbtView {
        PsbtView {
            inputs: Seq::new(
                self.inputs.len(),
                |i: int|
                    if before.inputs[i].witness_utxo is None {
                        InputView { witness_utxo: None, ..self.inputs[i] }
                    } else {
                        self.inputs[i]
                    },
            ),
            ..self
        }
    }

    /// The same PSBT after an attempt to finalize input `index` that gave `outcome`.
    pub open spec fn after_attempt(self, index: int, outcome: Option<InputView>) -> PsbtView {
        match outcome {
            Some(input) => self.with_input(index, input),
            None => self,
        }
    }

    /// The positions of the inputs that are to be finalized, in ascending order.
    pub open spec fn wanted(self) -> Seq<usize> {
        positions(self.inputs, |i: InputView| i.wants_finalizing())
    }

    /// The positions of the inputs that lack a witness output, in ascending order.
    pub open spec fn lacking(self) -> Seq<usize> {
        positions(self.inputs, |i: InputView| i.witness_utxo is None)
    }

    /// The PSBT with its placeholders, after attempts to finalize the first of the wanted inputs
    /// gave these outcomes, one after the other.
    pub open spec fn attempted(self, outcomes: Seq<Option<InputView>>) -> PsbtView
        decreases outcomes.len(),
    {
        if outcomes.len() == 0 {
            self.with_placeholders()
        } else {
            self.attempted(outcomes.drop_last()).after_attempt(
                self.wanted()[outcomes.len() - 1] as int,
                outcomes.last(),
            )
        }
    }

    /// The PSBT after attempts to finalize its wanted inputs gave these outcomes.
    pub open spec fn finalized_with(self, outcomes: Seq<Option<InputView>>) -> PsbtView {
        self.attempted(outcomes).without_placeholders_of(self)
    }
}

/// The positions in `s`, in ascending order, at which `p` holds.
pub open spec fn positions(s: Seq<InputView>, p: spec_fn(InputView) -> bool) -> Seq<usize>
    decreases s.len(),
{
    if s.len() == 0 {
        Seq::empty()
    } else {
        let before = positions(s.drop_last(), p);
        if p(s.last()) {
            before.push((s.len() - 1) as usize)
        } else {
            before
        }
    }
}

/// Puts a placeholder into every input that lacks a witness output. Returns the positions of
/// these inputs, and those of the inputs that are to be finalized.
pub fn prepare_finalizing(psbt: &mut Psbt) -> (result: (Vec<usize>, Vec<usize>))
    ensures
        final(psbt)@ == old(psbt)@.with_placeholders(),
        result.0@ == positions(old(psbt)@.inputs, |i: InputView| i.witness_utxo is None),
        result.1@ == positions(old(psbt)@.inputs, |i: InputView| i.wants_finalizing()),
        forall|i: usize|
            i < old(psbt)@.inputs.len() ==> (#[trigger] result.0@.contains(i)
                <==> old(psbt)@.inputs[i as int].witness_utxo is None),
        forall|i: usize|
            i < old(psbt)@.inputs.len() ==> (#[trigger] result.1@.contains(i)
                <==> old(psbt)@.inputs[i as int].witness_utxo is Some
                && old(psbt)@.inputs[i as int].final_script_sig is None
                && old(psbt)@.inputs[i as int].final_script_witness is None
                && old(psbt)@.inputs[i as int].partial_sigs.len() > 0),
        forall|j: int|
            0 <= j < result.1@.len() ==> (#[trigger] result.1@[j]) < old(psbt)@.inputs.len(),
        forall|j: int, k: int|
            0 <= j < k < result.1@.len() ==> (#[trigger] result.1@[j]) < (#[trigger] result.1@[k]),
        final(psbt)@.unsigned_tx == old(psbt)@.unsigned_tx,
        final(psbt)@.outputs == old(psbt)@.outputs,
        final(psbt)@.other == old(psbt)@.other,
        final(psbt)@.inputs.len() == old(psbt)@.inputs.len(),
        forall|i: int|
            0 <= i < old(psbt)@.inputs.len() ==> only_lacks_filled(
                old(psbt)@.inputs[i],
                #[trigger] final(psbt)@.inputs[i],
            ),
{
    let ghost before = psbt@;
    let ghost lacks = |i: InputView| i.witness_utxo is None;
    let ghost wants = |i: InputView| i.wants_finalizing();
    let mut witness_utxo_to_clean: Vec<usize> = Vec::new();
    let mut inputs_to_finalize: Vec<usize> = Vec::new();
    let mut index: usize = 0;
    assert(before.inputs.take(0) =~= Seq::empty());
    while index < psbt.inputs.len()
        invariant
            index <= psbt.inputs.len(),
            psbt.inputs.len() == before.inputs.len(),
            psbt@.unsigned_tx == before.unsigned_tx,
            psbt@.outputs == before.outputs,
            psbt@.other == before.other,
            lacks == (|i: InputView| i.witness_utxo is None),
            wants == (|i: InputView| i.wants_finalizing()),
            forall|k: int| 0 <= k < index ==> (#[trigger] psbt.inputs@[k])@ == before.inputs[k].with_placeholder(),
            forall|k: int| index <= k < before.inputs.len() ==> (#[trigger] psbt.inputs@[k])@ == before.inputs[k],
            witness_utxo_to_clean@ == positions(before.inputs.take(index as int), lacks),
            inputs_to_finalize@ == positions(before.inputs.take(index as int), wants),
        decreases before.inputs.len() - index,
    {
        let ghost seen = before.inputs.take(index + 1);
        assert(seen.drop_last() =~= before.inputs.take(index as int));
        assert(seen.last() == before.inputs[index as int]);
        if psbt.inputs[index].witness_utxo.is_none() {
            psbt.inputs[index].witness_utxo = Some(TxOut { value: 0, script_pubkey: Vec::new() });
            assert(psbt.inputs@[index as int]@ =~= before.inputs[index as int].with_placeholder());
            witness_utxo_to_clean.push(index);
        } else if psbt.inputs[index].final_script_sig.is_some()
            || psbt.inputs[index].final_script_witness.is_some()
            || psbt.inputs[index].partial_sigs.len() == 0 {
        } else {
            inputs_to_finalize.push(index);
        }
        index += 1;
    }
    assert(before.inputs.take(index as int) =~= before.inputs);
    assert(psbt@.inputs =~= before.with_placeholders().inputs);
    proof {
        assert(psbt.inputs.len() == before.inputs.len());
        lemma_wanted(before);
        law_wanted_inputs_are_listed_once(before);
        law_lacking_inputs_are_listed(before);
        assert(witness_utxo_to_clean@ == before.lacking());
        assert(inputs_to_finalize@ == before.wanted());
    }
    (witness_utxo_to_clean, inputs_to_finalize)
}

/// Takes over the outcome of an attempt to finalize input `index`: the new map, if there is one.
pub fn apply_attempt(psbt: &mut Psbt, index: usize, outcome: Option<Input>)
    requires
        index < old(psbt)@.inputs.len(),
    ensures
        final(psbt)@ == old(psbt)@.after_attempt(
            index as int,
            match outcome {
                Some(input) => Some(input@),
                None => None,
            },
        ),
        outcome is None ==> final(psbt)@ == old(psbt)@,
        outcome matches Some(input) ==> final(psbt)@.inputs == old(psbt)@.inputs.update(
            index as int,
            input@,
        ),
        final(psbt)@.unsigned_tx == old(psbt)@.unsigned_tx,
        final(psbt)@.outputs == old(psbt)@.outputs,
        final(psbt)@.other == old(psbt)@.other,
{
    match outcome {
        Some(input) => {
            let ghost before = psbt@;
            let ghost map = input@;
            psbt.inputs.set(index, input);
            assert(psbt@.inputs =~= before.with_input(index as int, map).inputs);
        },
        None => {},
    }
}

/// Takes the witness output from each input whose position is listed.
fn remove_witness_utxos(psbt: &mut Psbt, listed: &Vec<usize>)
    requires
        forall|j: int| 0 <= j < listed.len() ==> (#[trigger] listed@[j]) < old(psbt)@.inputs.len(),
    ensures
        final(psbt)@ == (PsbtView {
            inputs: Seq::new(
                old(psbt)@.inputs.len(),
                |i: int|
                    if exists|j: int| 0 <= j < listed.len() && #[trigger] listed@[j] == i {
                        InputView { witness_utxo: None, ..old(psbt)@.inputs[i] }
                    } else {
                        old(psbt)@.inputs[i]
                    },
            ),
            ..old(psbt)@
        }),
{
    let ghost before = psbt@;
    let mut j: usize = 0;
    while j < listed.len()
        invariant
            j <= listed.len(),
            forall|k: int| 0 <= k < listed.len() ==> (#[trigger] listed@[k]) < before.inputs.len(),
            psbt.inputs.len() == before.inputs.len(),
            psbt@.unsigned_tx == before.unsigned_tx,
            psbt@.outputs == before.outputs,
            psbt@.other == before.other,
            forall|i: int| 0 <= i < before.inputs.len() ==> (#[trigger] psbt.inputs@[i])@ == (
            if exists|k: int| 0 <= k < j && #[trigger] listed@[k] == i {
                InputView { witness_utxo: None, ..before.inputs[i] }
            } else {
                before.inputs[i]
            }),
        decreases listed.len() - j,
    {
        let index: usize = listed[j];
        let ghost current = psbt.inputs@;
        psbt.inputs[index].witness_utxo = None;
        assert forall|i: int| 0 <= i < before.inputs.len() implies (#[trigger] psbt.inputs@[i])@ == (
        if exists|k: int| 0 <= k < j + 1 && #[trigger] listed@[k] == i {
            InputView { witness_utxo: None, ..before.inputs[i] }
        } else {
            before.inputs[i]
        }) by {
            if i == index {
                assert(listed@[j as int] == i);
                assert(current[i]@ == before.inputs[i] || current[i]@ == (InputView {
                    witness_utxo: None,
                    ..before.inputs[i]
                }));
            } else {
                assert(psbt.inputs@[i] == current[i]);
                if exists|k: int| 0 <= k < j + 1 && #[trigger] listed@[k] == i {
                    let k = choose|k: int| 0 <= k < j + 1 && #[trigger] listed@[k] == i;
                    assert(k < j);
                }
            }
        }
        j += 1;
    }
    assert(psbt@.inputs =~= Seq::new(
        before.inputs.len(),
        |i: int|
            if exists|j: int| 0 <= j < listed.len() && #[trigger] listed@[j] == i {
                InputView { witness_utxo: None, ..before.inputs[i] }
            } else {
                before.inputs[i]
            },
    ));
}

/// The positions are listed in ascending order; all are positions of `s` at which `p` holds, and
/// none of those is missing.
proof fn lemma_positions(s: Seq<InputView>, p: spec_fn(InputView) -> bool)
    requires
        s.len() <= usize::MAX,
    ensures
        forall|j: int| 0 <= j < positions(s, p).len() ==> (#[trigger] positions(s, p)[j]) < s.len()
            && p(s[positions(s, p)[j] as int]),
        forall|j: int, k: int| 0 <= j < k < positions(s, p).len() ==> (#[trigger] positions(s, p)[j]) < (
        #[trigger] positions(s, p)[k]),
        forall|i: int| 0 <= i < s.len() && p(#[trigger] s[i]) ==> exists|j: int|
            0 <= j < positions(s, p).len() && #[trigger] positions(s, p)[j] == i,
    decreases s.len(),
{
    if s.len() > 0 {
        let prefix = s.drop_last();
        let before = positions(prefix, p);
        lemma_positions(prefix, p);
        let all = positions(s, p);
        assert forall|j: int| 0 <= j < all.len() implies (#[trigger] all[j]) < s.len() && p(
            s[all[j] as int],
        ) by {
            if j < before.len() {
                assert(all[j] == before[j]);
                assert(prefix[before[j] as int] == s[before[j] as int]);
            }
        }
        assert forall|j: int, k: int| 0 <= j < k < all.len() implies (#[trigger] all[j]) < (
        #[trigger] all[k]) by {
            assert(all[j] == before[j]);
            if k < before.len() {
                assert(all[k] == before[k]);
            }
        }
        assert forall|i: int| 0 <= i < s.len() && p(#[trigger] s[i]) implies exists|j: int|
            0 <= j < all.len() && #[trigger] all[j] == i by {
            if i < prefix.len() {
                assert(prefix[i] == s[i]);
                let j = choose|j: int| 0 <= j < before.len() && #[trigger] before[j] == i;
                assert(all[j] == i);
            } else {
                assert(all[all.len() - 1] == i);
            }
        }
    }
}

pub open spec fn outcome_view(outcome: Option<Input>) -> Option<InputView> {
    match outcome {
        Some(input) => Some(input@),
        None => None,
    }
}

/// A PSBT whose inputs are being finalized one after the other.
#[derive(Debug)]
pub struct Finalizing {
    pub psbt: Psbt,
    pub witness_utxo_to_clean: Vec<usize>,
    pub inputs_to_finalize: Vec<usize>,
    /// How many of the inputs have been attempted.
    pub done: usize,
}

/// What is to be done about a PSBT that is being finalized.
#[derive(Debug)]
pub enum FinalizeStep {
    /// Try to finalize the input at hand.
    Attempt(Finalizing),
    /// Nothing more: this is the PSBT.
    Finished(Psbt),
}

impl Finalizing {
    /// Of `before`, the first wanted inputs have been attempted, with these outcomes.
    pub open spec fn after(self, before: PsbtView, outcomes: Seq<Option<InputView>>) -> bool {
        &&& outcomes.len() < before.wanted().len()
        &&& self.psbt@.inputs.len() == before.inputs.len()
        &&& self.psbt@ == before.attempted(outcomes)
        &&& self.witness_utxo_to_clean@ == before.lacking()
        &&& self.inputs_to_finalize@ == before.wanted()
        &&& self.done == outcomes.len()
    }

    /// Some PSBT is being finalized.
    pub open spec fn well_formed(self) -> bool {
        exists|before: PsbtView, outcomes: Seq<Option<InputView>>| self.after(before, outcomes)
    }

    /// The input at hand.
    pub open spec fn at(self) -> usize {
        self.inputs_to_finalize@[self.done as int]
    }

    /// The input at hand.
    pub fn index(&self) -> (index: usize)
        requires
            self.well_formed(),
        ensures
            index == self.at(),
            index < self.psbt@.inputs.len(),
            self.psbt@.inputs[index as int].wants_finalizing(),
    {
        proof {
            let (before, outcomes) = choose|before: PsbtView, outcomes: Seq<Option<InputView>>|
                self.after(before, outcomes);
            assert(self.psbt.inputs.len() == before.inputs.len());
            lemma_attempted(before, outcomes);
            lemma_wanted(before);
            assert forall|j: int| 0 <= j < outcomes.len() implies #[trigger] before.wanted()[j]
                != before.wanted()[outcomes.len() as int] by {
                assert(before.wanted()[j] < before.wanted()[outcomes.len() as int]);
            }
        }
        self.inputs_to_finalize[self.done]
    }
}

/// What one attempt leads to: to the next wanted input, or to the finalized PSBT.
pub open spec fn continued(
    before: PsbtView,
    outcomes: Seq<Option<InputView>>,
    step: FinalizeStep,
) -> bool {
    match step {
        FinalizeStep::Attempt(work) => work.after(before, outcomes),
        FinalizeStep::Finished(psbt) => {
            &&& outcomes.len() == before.wanted().len()
            &&& psbt@ == before.finalized_with(outcomes)
        },
    }
}

/// What the positions of a PSBT are.
proof fn lemma_wanted(psbt: PsbtView)
    requires
        psbt.inputs.len() <= usize::MAX,
    ensures
        forall|j: int|
            0 <= j < psbt.wanted().len() ==> (#[trigger] psbt.wanted()[j]) < psbt.inputs.len()
                && psbt.inputs[psbt.wanted()[j] as int].wants_finalizing(),
        forall|j: int, k: int|
            0 <= j < k < psbt.wanted().len() ==> (#[trigger] psbt.wanted()[j]) < (
            #[trigger] psbt.wanted()[k]),
        forall|i: int|
            0 <= i < psbt.inputs.len() && (#[trigger] psbt.inputs[i]).wants_finalizing()
                ==> exists|j: int| 0 <= j < psbt.wanted().len() && #[trigger] psbt.wanted()[j] == i,
        forall|j: int|
            0 <= j < psbt.lacking().len() ==> (#[trigger] psbt.lacking()[j]) < psbt.inputs.len()
                && psbt.inputs[psbt.lacking()[j] as int].witness_utxo is None,
        forall|i: int|
            0 <= i < psbt.inputs.len() && (#[trigger] psbt.inputs[i]).witness_utxo is None
                ==> exists|j: int| 0 <= j < psbt.lacking().len() && #[trigger] psbt.lacking()[j] == i,
{
    let wants = |i: InputView| i.wants_finalizing();
    let lacks = |i: InputView| i.witness_utxo is None;
    lemma_positions(psbt.inputs, wants);
    lemma_positions(psbt.inputs, lacks);
    assert forall|i: int|
        0 <= i < psbt.inputs.len() && (
        #[trigger] psbt.inputs[i]).wants_finalizing() implies exists|j: int|
        0 <= j < psbt.wanted().len() && #[trigger] psbt.wanted()[j] == i by {
        assert(wants(psbt.inputs[i]));
        let j = choose|j: int|
            0 <= j < positions(psbt.inputs, wants).len() && #[trigger] positions(
                psbt.inputs,
                wants,
            )[j] == i;
        assert(psbt.wanted()[j] == i);
    }
    assert forall|i: int|
        0 <= i < psbt.inputs.len() && (
        #[trigger] psbt.inputs[i]).witness_utxo is None implies exists|j: int|
        0 <= j < psbt.lacking().len() && #[trigger] psbt.lacking()[j] == i by {
        assert(lacks(psbt.inputs[i]));
        let j = choose|j: int|
            0 <= j < positions(psbt.inputs, lacks).len() && #[trigger] positions(
                psbt.inputs,
                lacks,
            )[j] == i;
        assert(psbt.lacking()[j] == i);
    }
    assert forall|j: int| 0 <= j < psbt.wanted().len() implies (#[trigger] psbt.wanted()[j])
        < psbt.inputs.len() && psbt.inputs[psbt.wanted()[j] as int].wants_finalizing() by {
        assert(wants(psbt.inputs[psbt.wanted()[j] as int]));
    }
    assert forall|j: int| 0 <= j < psbt.lacking().len() implies (#[trigger] psbt.lacking()[j])
        < psbt.inputs.len() && psbt.inputs[psbt.lacking()[j] as int].witness_utxo is None by {
        assert(lacks(psbt.inputs[psbt.lacking()[j] as int]));
    }
}

/// What the attempts on the first wanted inputs leave alone, and what they leave behind.
proof fn lemma_attempted(psbt: PsbtView, outcomes: Seq<Option<InputView>>)
    requires
        psbt.inputs.len() <= usize::MAX,
        outcomes.len() <= psbt.wanted().len(),
    ensures
        psbt.attempted(outcomes).unsigned_tx == psbt.unsigned_tx,
        psbt.attempted(outcomes).outputs == psbt.outputs,
        psbt.attempted(outcomes).other == psbt.other,
        psbt.attempted(outcomes).inputs.len() == psbt.inputs.len(),
        forall|i: int|
            0 <= i < psbt.inputs.len() && (forall|j: int|
                0 <= j < outcomes.len() ==> #[trigger] psbt.wanted()[j] != i) ==> (
            #[trigger] psbt.attempted(outcomes).inputs[i]) == psbt.inputs[i].with_placeholder(),
        forall|j: int|
            0 <= j < outcomes.len() ==> psbt.attempted(outcomes).inputs[(
            #[trigger] psbt.wanted()[j]) as int] == (match outcomes[j] {
                Some(input) => input,
                None => psbt.inputs[psbt.wanted()[j] as int],
            }),
    decreases outcomes.len(),
{
    lemma_wanted(psbt);
    if outcomes.len() > 0 {
        let earlier = outcomes.drop_last();
        lemma_attempted(psbt, earlier);
        let last = outcomes.len() - 1;
        let at = psbt.wanted()[last] as int;
        let before = psbt.attempted(earlier);
        let after = psbt.attempted(outcomes);
        assert forall|j: int| 0 <= j < earlier.len() implies #[trigger] psbt.wanted()[j] != at by {
            assert(psbt.wanted()[j] < psbt.wanted()[last]);
        }
        assert(before.inputs[at] == psbt.inputs[at].with_placeholder());
        assert forall|i: int|
            0 <= i < psbt.inputs.len() && (forall|j: int|
                0 <= j < outcomes.len() ==> #[trigger] psbt.wanted()[j] != i) implies (
        #[trigger] after.inputs[i]) == psbt.inputs[i].with_placeholder() by {
            assert(psbt.wanted()[last] != i);
            assert(before.inputs[i] == psbt.inputs[i].with_placeholder());
        }
        assert forall|j: int| 0 <= j < outcomes.len() implies after.inputs[(
        #[trigger] psbt.wanted()[j]) as int] == (match outcomes[j] {
            Some(input) => input,
            None => psbt.inputs[psbt.wanted()[j] as int],
        }) by {
            if j < last {
                assert(earlier[j] == outcomes[j]);
                assert(psbt.wanted()[j] != at);
            }
        }
    }
}

/// Goes on to the next input that is to be finalized, or finishes.
fn next_attempt(work: Finalizing) -> (step: FinalizeStep)
    requires
        exists|before: PsbtView, outcomes: Seq<Option<InputView>>| #[trigger]
            before.attempted(outcomes) == work.psbt@ && work.reached(before, outcomes),
    ensures
        forall|before: PsbtView, outcomes: Seq<Option<InputView>>|
            work.reached(before, outcomes) ==> #[trigger] continued(before, outcomes, step),
{
    if work.done < work.inputs_to_finalize.len() {
        FinalizeStep::Attempt(work)
    } else {
        let mut psbt = work.psbt;
        let ghost done = psbt@;
        proof {
            let (before, outcomes) = choose|before: PsbtView, outcomes: Seq<Option<InputView>>| #[trigger]
                before.attempted(outcomes) == work.psbt@ && work.reached(before, outcomes);
            assert(psbt.inputs.len() == before.inputs.len());
            lemma_wanted(before);
        }
        remove_witness_utxos(&mut psbt, &work.witness_utxo_to_clean);
        proof {
            assert forall|before: PsbtView, outcomes: Seq<Option<InputView>>|
                work.reached(before, outcomes) implies #[trigger] continued(
                before,
                outcomes,
                FinalizeStep::Finished(psbt),
            ) by {
                lemma_wanted(before);
                assert(psbt@.inputs =~= before.finalized_with(outcomes).inputs);
            }
        }
        FinalizeStep::Finished(psbt)
    }
}

impl Finalizing {
    /// Of `before`, the first wanted inputs, perhaps all, have been attempted.
    spec fn reached(self, before: PsbtView, outcomes: Seq<Option<InputView>>) -> bool {
        &&& outcomes.len() <= before.wanted().len()
        &&& self.psbt@.inputs.len() == before.inputs.len()
        &&& self.psbt@ == before.attempted(outcomes)
        &&& self.witness_utxo_to_clean@ == before.lacking()
        &&& self.inputs_to_finalize@ == before.wanted()
        &&& self.done == outcomes.len()
    }
}

/// Begins to finalize every signed input of a PSBT.
///
/// An input that lacks its witness output gets a worthless one while the others are finalized,
/// and loses it again in the end.
pub fn finalize_psbt(psbt: Psbt) -> (step: FinalizeStep)
    ensures
        continued(psbt@, Seq::empty(), step),
        step is Finished <==> (forall|i: int|
            0 <= i < psbt.inputs.len() ==> (#[trigger] psbt.inputs@[i]).witness_utxo is None
                || psbt.inputs@[i].final_script_sig is Some
                || psbt.inputs@[i].final_script_witness is Some
                || psbt.inputs@[i].partial_sigs.len() == 0),
        step matches FinalizeStep::Finished(finished) ==> finished@ == psbt@,
{
    let mut prepared = psbt;
    let ghost before = prepared@;
    let (witness_utxo_to_clean, inputs_to_finalize) = prepare_finalizing(&mut prepared);
    let work = Finalizing { psbt: prepared, witness_utxo_to_clean, inputs_to_finalize, done: 0 };
    assert(before.attempted(Seq::empty()) == work.psbt@ && work.reached(before, Seq::empty()));
    let step = next_attempt(work);
    proof {
        law_psbt_view(psbt);
        assert(continued(before, Seq::empty(), step));
        law_finalizing_is_over_when_all_are_attempted(before, Seq::empty(), step);
        assert forall|i: int| 0 <= i < psbt.inputs.len() implies before.inputs[i] == (
        #[trigger] psbt.inputs@[i])@ by {}
        assert forall|i: int| 0 <= i < before.inputs.len() implies (
        #[trigger] before.inputs[i]) == psbt.inputs@[i]@ by {}
    }
    step
}

/// Goes on with finalizing after an attempt: `outcome` is the map that the input at hand has been
/// given, or `None` if it could not be finalized.
pub fn finalize_attempted(work: Finalizing, outcome: Option<Input>) -> (step: FinalizeStep)
    requires
        work.well_formed(),
    ensures
        forall|before: PsbtView, outcomes: Seq<Option<InputView>>| #[trigger]
            work.after(before, outcomes) ==> continued(
                before,
                outcomes.push(outcome_view(outcome)),
                step,
            ),
{
    let index: usize = work.index();
    proof {
        let (before, outcomes) = choose|before: PsbtView, outcomes: Seq<Option<InputView>>|
            work.after(before, outcomes);
        assert(work.done < work.inputs_to_finalize.len());
    }
    let ghost given = outcome_view(outcome);
    let mut psbt = work.psbt;
    apply_attempt(&mut psbt, index, outcome);
    let next = Finalizing {
        psbt,
        witness_utxo_to_clean: work.witness_utxo_to_clean,
        inputs_to_finalize: work.inputs_to_finalize,
        done: work.done + 1,
    };
    proof {
        assert forall|before: PsbtView, outcomes: Seq<Option<InputView>>| #[trigger]
            work.after(before, outcomes) implies before.attempted(outcomes.push(given))
            == next.psbt@ && next.reached(before, outcomes.push(given)) by {
            assert(outcomes.push(given).drop_last() =~= outcomes);
        }
        let (before, outcomes) = choose|before: PsbtView, outcomes: Seq<Option<InputView>>|
            work.after(before, outcomes);
        assert(next.reached(before, outcomes.push(given)));
    }
    let step = next_attempt(next);
    proof {
        assert forall|before: PsbtView, outcomes: Seq<Option<InputView>>| #[trigger]
            work.after(before, outcomes) implies continued(before, outcomes.push(given), step) by {
            assert(next.reached(before, outcomes.push(given)));
        }
    }
    step
}

/// Each input that is to be finalized is attempted exactly once, and no other is: the positions that
/// are listed are those of such inputs, and each of those is listed at one place only.
pub proof fn law_wanted_inputs_are_listed_once(psbt: PsbtView)
    requires
        psbt.inputs.len() <= usize::MAX,
    ensures
        psbt.wanted().no_duplicates(),
        forall|j: int|
            0 <= j < psbt.wanted().len() ==> (#[trigger] psbt.wanted()[j]) < psbt.inputs.len(),
        forall|i: usize|
            i < psbt.inputs.len() ==> (#[trigger] psbt.wanted().contains(i)
                <==> psbt.inputs[i as int].wants_finalizing()),
        forall|i: usize|
            i < psbt.inputs.len() ==> (#[trigger] psbt.wanted().contains(i)
                <==> psbt.inputs[i as int].witness_utxo is Some
                && psbt.inputs[i as int].final_script_sig is None
                && psbt.inputs[i as int].final_script_witness is None
                && psbt.inputs[i as int].partial_sigs.len() > 0),
        forall|j: int, k: int|
            0 <= j < k < psbt.wanted().len() ==> (#[trigger] psbt.wanted()[j]) < (
            #[trigger] psbt.wanted()[k]),
{
    lemma_wanted(psbt);
    assert forall|j: int, k: int|
        0 <= j < psbt.wanted().len() && 0 <= k < psbt.wanted().len() && j != k implies (
    #[trigger] psbt.wanted()[j]) != (#[trigger] psbt.wanted()[k]) by {
        if j < k {
            assert(psbt.wanted()[j] < psbt.wanted()[k]);
        } else {
            assert(psbt.wanted()[k] < psbt.wanted()[j]);
        }
    }
    assert forall|i: usize| i < psbt.inputs.len() implies (#[trigger] psbt.wanted().contains(i)
        <==> psbt.inputs[i as int].wants_finalizing()) by {
        if psbt.inputs[i as int].wants_finalizing() {
            let j = choose|j: int| 0 <= j < psbt.wanted().len() && #[trigger] psbt.wanted()[j] == i;
            assert(psbt.wanted()[j] == i);
        }
    }
}

/// The inputs that get a placeholder are exactly those without a witness output.
pub proof fn law_lacking_inputs_are_listed(psbt: PsbtView)
    requires
        psbt.inputs.len() <= usize::MAX,
    ensures
        forall|i: usize|
            i < psbt.inputs.len() ==> (#[trigger] psbt.lacking().contains(i)
                <==> psbt.inputs[i as int].witness_utxo is None),
{
    lemma_wanted(psbt);
    assert forall|i: usize| i < psbt.inputs.len() implies (#[trigger] psbt.lacking().contains(i)
        <==> psbt.inputs[i as int].witness_utxo is None) by {
        if psbt.inputs[i as int].witness_utxo is None {
            let j = choose|j: int| 0 <= j < psbt.lacking().len() && #[trigger] psbt.lacking()[j] == i;
            assert(psbt.lacking()[j] == i);
        }
    }
}

/// The map `after` is the map `before`, but that it spends nothing worth anything where it was not
/// known what it spends.
pub open spec fn only_lacks_filled(before: InputView, after: InputView) -> bool {
    &&& before.witness_utxo is Some ==> after.witness_utxo == before.witness_utxo
    &&& before.witness_utxo is None ==> after.witness_utxo is Some
    &&& before.witness_utxo is None ==> after.witness_utxo->0.value == 0
    &&& before.witness_utxo is None ==> after.witness_utxo->0.script_pubkey.len() == 0
    &&& after.non_witness_utxo == before.non_witness_utxo
    &&& after.partial_sigs == before.partial_sigs
    &&& after.witness_script == before.witness_script
    &&& after.bip32_derivation == before.bip32_derivation
    &&& after.final_script_sig == before.final_script_sig
    &&& after.final_script_witness == before.final_script_witness
    &&& after.other == before.other
}

/// While a PSBT is being finalized, an input of which it is not known what it spends spends a
/// worthless output. All else in its map stays as it is, and so does every other map.
pub proof fn law_placeholder_is_worthless(input: InputView)
    ensures
        input.witness_utxo is Some ==> input.with_placeholder() == input,
        input.witness_utxo is None ==> {
            &&& input.with_placeholder().witness_utxo is Some
            &&& input.with_placeholder().witness_utxo->0.value == 0
            &&& input.with_placeholder().witness_utxo->0.script_pubkey.len() == 0
        },
        input.with_placeholder().non_witness_utxo == input.non_witness_utxo,
        input.with_placeholder().partial_sigs == input.partial_sigs,
        input.with_placeholder().witness_script == input.witness_script,
        input.with_placeholder().bip32_derivation == input.bip32_derivation,
        input.with_placeholder().final_script_sig == input.final_script_sig,
        input.with_placeholder().final_script_witness == input.final_script_witness,
        input.with_placeholder().other == input.other,
{
}

/// An attempt is made on an input that has a signature and no final script and of which it is known
/// what it spends, as that input was in the beginning. The attempt sees the transaction, what came
/// of the earlier attempts, and every other input as it was, with a worthless output where none was
/// known.
pub proof fn law_attempt_is_on_a_signed_input(
    work: Finalizing,
    before: PsbtView,
    outcomes: Seq<Option<InputView>>,
)
    requires
        before.inputs.len() <= usize::MAX,
        work.after(before, outcomes),
    ensures
        work.at() < before.inputs.len(),
        before.inputs[work.at() as int].witness_utxo is Some,
        before.inputs[work.at() as int].final_script_sig is None,
        before.inputs[work.at() as int].final_script_witness is None,
        before.inputs[work.at() as int].partial_sigs.len() > 0,
        work.at() == before.wanted()[outcomes.len() as int],
        work.psbt@.unsigned_tx == before.unsigned_tx,
        work.psbt@.outputs == before.outputs,
        work.psbt@.other == before.other,
        work.psbt@.inputs.len() == before.inputs.len(),
        work.psbt@.inputs[work.at() as int] == before.inputs[work.at() as int],
        forall|j: int|
            0 <= j < outcomes.len() ==> work.psbt@.inputs[(
            #[trigger] before.wanted()[j]) as int] == (match outcomes[j] {
                Some(input) => input,
                None => before.inputs[before.wanted()[j] as int],
            }),
        forall|i: int|
            0 <= i < before.inputs.len() && (forall|j: int|
                0 <= j < outcomes.len() ==> #[trigger] before.wanted()[j] != i)
                ==> only_lacks_filled(before.inputs[i], #[trigger] work.psbt@.inputs[i]),
{
    lemma_attempted(before, outcomes);
    lemma_wanted(before);
    let at = before.wanted()[outcomes.len() as int];
    assert(before.inputs[at as int].wants_finalizing());
    assert forall|j: int| 0 <= j < outcomes.len() implies #[trigger] before.wanted()[j] != at by {
        assert(before.wanted()[j] < before.wanted()[outcomes.len() as int]);
    }
    assert(work.psbt@.inputs[at as int] == before.inputs[at as int].with_placeholder());
    assert forall|i: int|
        0 <= i < before.inputs.len() && (forall|j: int|
            0 <= j < outcomes.len() ==> #[trigger] before.wanted()[j] != i) implies only_lacks_filled(
        before.inputs[i],
        #[trigger] work.psbt@.inputs[i],
    ) by {
        assert(work.psbt@.inputs[i] == before.inputs[i].with_placeholder());
    }
}

/// Finalizing is over at once if no input has a signature and no final script and a known output,
/// and then nothing has changed; otherwise there is an attempt on the first of them. After an
/// attempt it is over if and only if there is no further one.
pub proof fn law_finalizing_is_over_when_all_are_attempted(
    before: PsbtView,
    outcomes: Seq<Option<InputView>>,
    step: FinalizeStep,
)
    requires
        before.inputs.len() <= usize::MAX,
        continued(before, outcomes, step),
    ensures
        step is Finished <==> outcomes.len() == before.wanted().len(),
        step matches FinalizeStep::Attempt(work) ==> work.at() == before.wanted()[outcomes.len() as int],
        outcomes.len() == 0 ==> (step is Finished <==> (forall|i: int|
            0 <= i < before.inputs.len() ==> (#[trigger] before.inputs[i]).witness_utxo is None
                || before.inputs[i].final_script_sig is Some
                || before.inputs[i].final_script_witness is Some
                || before.inputs[i].partial_sigs.len() == 0)),
        outcomes.len() == 0 && step is Finished ==> step->Finished_0@ == before,
{
    lemma_wanted(before);
    if outcomes.len() == 0 {
        assert(outcomes =~= Seq::empty());
        if before.wanted().len() > 0 {
            assert(before.inputs[before.wanted()[0] as int].wants_finalizing());
        } else {
            assert forall|i: int| 0 <= i < before.inputs.len() implies !(
            #[trigger] before.inputs[i]).wants_finalizing() by {
                if before.inputs[i].wants_finalizing() {
                    let j = choose|j: int|
                        0 <= j < before.wanted().len() && #[trigger] before.wanted()[j] == i;
                    assert(false);
                }
            }
            law_nothing_to_finalize(before);
        }
    }
}

/// Once finalizing is over, each input that had a signature, no final script and a known output is
/// as its one attempt left it, and every other input is as it was.
pub proof fn law_finalized_inputs(psbt: PsbtView, outcomes: Seq<Option<InputView>>, i: int)
    requires
        psbt.inputs.len() <= usize::MAX,
        outcomes.len() == psbt.wanted().len(),
        0 <= i < psbt.inputs.len(),
    ensures
        ({
            let before = psbt.inputs[i];
            let after = psbt.finalized_with(outcomes).inputs[i];
            if before.witness_utxo is Some && before.final_script_sig is None
                && before.final_script_witness is None && before.partial_sigs.len() > 0 {
                exists|j: int|
                    0 <= j < outcomes.len() && #[trigger] psbt.wanted()[j] == i && after == (
                    match outcomes[j] {
                        Some(input) => input,
                        None => before,
                    })
            } else {
                after == before
            }
        }),
{
    lemma_wanted(psbt);
    if psbt.inputs[i].wants_finalizing() {
        let j = choose|j: int| 0 <= j < psbt.wanted().len() && #[trigger] psbt.wanted()[j] == i;
        law_signed_input_is_finalized_or_kept(psbt, outcomes, j);
    } else {
        law_finalizing_touches_only_signed_inputs(psbt, outcomes);
        assert(psbt.finalized_with(outcomes).inputs[i] == psbt.inputs[i]);
    }
}

/// Finalizing changes only the maps of the inputs that are to be finalized: the transaction, the
/// output maps, the global records and every other input map stay as they are.
pub proof fn law_finalizing_touches_only_signed_inputs(
    psbt: PsbtView,
    outcomes: Seq<Option<InputView>>,
)
    requires
        psbt.inputs.len() <= usize::MAX,
        outcomes.len() == psbt.wanted().len(),
    ensures
        psbt.finalized_with(outcomes).unsigned_tx == psbt.unsigned_tx,
        psbt.finalized_with(outcomes).outputs == psbt.outputs,
        psbt.finalized_with(outcomes).other == psbt.other,
        psbt.finalized_with(outcomes).inputs.len() == psbt.inputs.len(),
        forall|i: int|
            0 <= i < psbt.inputs.len() && !psbt.inputs[i].wants_finalizing() ==> (
            #[trigger] psbt.finalized_with(outcomes).inputs[i]) == psbt.inputs[i],
{
    lemma_attempted(psbt, outcomes);
    lemma_wanted(psbt);
    assert forall|i: int|
        0 <= i < psbt.inputs.len() && !psbt.inputs[i].wants_finalizing() implies (
    #[trigger] psbt.finalized_with(outcomes).inputs[i]) == psbt.inputs[i] by {
        assert(psbt.attempted(outcomes).inputs[i] == psbt.inputs[i].with_placeholder());
    }
}

/// An input that is to be finalized ends up as the attempt left it: with the map that it was
/// given, or as it was.
pub proof fn law_signed_input_is_finalized_or_kept(
    psbt: PsbtView,
    outcomes: Seq<Option<InputView>>,
    j: int,
)
    requires
        psbt.inputs.len() <= usize::MAX,
        outcomes.len() == psbt.wanted().len(),
        0 <= j < outcomes.len(),
    ensures
        psbt.finalized_with(outcomes).inputs[psbt.wanted()[j] as int] == (match outcomes[j] {
            Some(input) => input,
            None => psbt.inputs[psbt.wanted()[j] as int],
        }),
{
    lemma_attempted(psbt, outcomes);
    lemma_wanted(psbt);
}

/// A PSBT without an input that is to be finalized stays as it is.
pub proof fn law_nothing_to_finalize(psbt: PsbtView)
    requires
        psbt.inputs.len() <= usize::MAX,
        forall|i: int|
            0 <= i < psbt.inputs.len() ==> !(#[trigger] psbt.inputs[i]).wants_finalizing(),
    ensures
        psbt.wanted().len() == 0,
        psbt.finalized_with(Seq::empty()) == psbt,
{
    lemma_wanted(psbt);
    if psbt.wanted().len() > 0 {
        assert(psbt.inputs[psbt.wanted()[0] as int].wants_finalizing());
    }
    assert(psbt.finalized_with(Seq::empty()).inputs =~= psbt.inputs);
}

/// What both maps spend is the same.
pub open spec fn same_utxos(a: InputView, b: InputView) -> bool {
    a.witness_utxo == b.witness_utxo && a.non_witness_utxo == b.non_witness_utxo
}

/// If every attempt that succeeds keeps what its input spends, so does finalizing as a whole.
pub proof fn law_finalizing_keeps_utxos(psbt: PsbtView, outcomes: Seq<Option<InputView>>, i: int)
    requires
        psbt.inputs.len() <= usize::MAX,
        outcomes.len() == psbt.wanted().len(),
        forall|j: int|
            0 <= j < outcomes.len() && (#[trigger] outcomes[j]) is Some ==> same_utxos(
                outcomes[j]->0,
                psbt.inputs[psbt.wanted()[j] as int],
            ),
        0 <= i < psbt.inputs.len(),
    ensures
        same_utxos(psbt.finalized_with(outcomes).inputs[i], psbt.inputs[i]),
{
    lemma_attempted(psbt, outcomes);
    lemma_wanted(psbt);
    if psbt.inputs[i].wants_finalizing() {
        let j = choose|j: int| 0 <= j < psbt.wanted().len() && #[trigger] psbt.wanted()[j] == i;
        law_signed_input_is_finalized_or_kept(psbt, outcomes, j);
        assert(outcomes[j] is Some || outcomes[j] is None);
    } else {
        law_finalizing_touches_only_signed_inputs(psbt, outcomes);
        assert(psbt.finalized_with(outcomes).inputs[i] == psbt.inputs[i]);
    }
}

/// The outcomes of attempts on the first `n` wanted inputs, where each attempt comes to what
/// `attempt` says of the PSBT at that time and of the input.
pub open spec fn outcomes_of(
    psbt: PsbtView,
    attempt: spec_fn(PsbtView, int) -> Option<InputView>,
    n: nat,
) -> Seq<Option<InputView>>
    decreases n,
{
    if n == 0 {
        Seq::empty()
    } else {
        let earlier = outcomes_of(psbt, attempt, (n - 1) as nat);
        earlier.push(attempt(psbt.attempted(earlier), psbt.wanted()[n - 1] as int))
    }
}

impl PsbtView {
    /// The PSBT after finalizing, where each attempt comes to what `attempt` says.
    pub open spec fn finalized_by(
        self,
        attempt: spec_fn(PsbtView, int) -> Option<InputView>,
    ) -> PsbtView {
        self.finalized_with(outcomes_of(self, attempt, self.wanted().len()))
    }
}

/// An attempt that succeeds gives the input a final script and keeps what it spends, and what
/// comes of an attempt depends on nothing but the transaction, what all inputs spend and the map
/// of the input itself.
pub open spec fn settles_inputs(attempt: spec_fn(PsbtView, int) -> Option<InputView>) -> bool {
    &&& forall|psbt: PsbtView, i: int|
        0 <= i < psbt.inputs.len() && (#[trigger] attempt(psbt, i)) is Some ==> {
            &&& attempt(psbt, i)->0.final_script_sig is Some || attempt(
                psbt,
                i,
            )->0.final_script_witness is Some
            &&& same_utxos(attempt(psbt, i)->0, psbt.inputs[i])
        }
    &&& forall|a: PsbtView, b: PsbtView, i: int|
        0 <= i < a.inputs.len() && a.unsigned_tx == b.unsigned_tx && a.inputs.len()
            == b.inputs.len() && a.inputs[i] == b.inputs[i] && (forall|k: int|
            0 <= k < a.inputs.len() ==> same_utxos(#[trigger] a.inputs[k], b.inputs[k]))
            ==> #[trigger] attempt(a, i) == #[trigger] attempt(b, i)
}

/// There are as many outcomes as attempts, and the earlier ones do not depend on the later ones.
proof fn lemma_outcomes(
    psbt: PsbtView,
    attempt: spec_fn(PsbtView, int) -> Option<InputView>,
    n: nat,
    k: nat,
)
    requires
        k <= n,
    ensures
        outcomes_of(psbt, attempt, n).len() == n,
        outcomes_of(psbt, attempt, n).take(k as int) =~= outcomes_of(psbt, attempt, k),
        k < n ==> outcomes_of(psbt, attempt, n)[k as int] == attempt(
            psbt.attempted(outcomes_of(psbt, attempt, k)),
            psbt.wanted()[k as int] as int,
        ),
    decreases n,
{
    if n > 0 {
        let earlier = outcomes_of(psbt, attempt, (n - 1) as nat);
        lemma_outcomes(psbt, attempt, (n - 1) as nat, (n - 1) as nat);
        if k < n {
            lemma_outcomes(psbt, attempt, (n - 1) as nat, k);
            assert(outcomes_of(psbt, attempt, n).take(k as int) =~= earlier.take(k as int));
        }
    }
}

/// Attempts on the first `n` wanted inputs keep what all inputs spend.
proof fn lemma_attempts_keep_utxos(
    psbt: PsbtView,
    attempt: spec_fn(PsbtView, int) -> Option<InputView>,
    n: nat,
)
    requires
        psbt.inputs.len() <= usize::MAX,
        n <= psbt.wanted().len(),
        settles_inputs(attempt),
    ensures
        forall|i: int|
            0 <= i < psbt.inputs.len() ==> same_utxos(
                #[trigger] psbt.attempted(outcomes_of(psbt, attempt, n)).inputs[i],
                psbt.inputs[i].with_placeholder(),
            ),
    decreases n,
{
    if n > 0 {
        lemma_attempts_keep_utxos(psbt, attempt, (n - 1) as nat);
        let earlier = outcomes_of(psbt, attempt, (n - 1) as nat);
        let all = outcomes_of(psbt, attempt, n);
        lemma_outcomes(psbt, attempt, (n - 1) as nat, 0);
        assert(all.drop_last() =~= earlier);
        lemma_wanted(psbt);
        lemma_attempted(psbt, earlier);
        let at = psbt.wanted()[n - 1] as int;
        let before = psbt.attempted(earlier);
        assert(psbt.attempted(all) == before.after_attempt(at, attempt(before, at)));
        assert forall|i: int| 0 <= i < psbt.inputs.len() implies same_utxos(
            #[trigger] psbt.attempted(all).inputs[i],
            psbt.inputs[i].with_placeholder(),
        ) by {
            assert(same_utxos(before.inputs[i], psbt.inputs[i].with_placeholder()));
        }
    }
}

/// Finalizing a second time changes nothing, if attempts settle inputs.
pub proof fn law_finalizing_is_idempotent(
    psbt: PsbtView,
    attempt: spec_fn(PsbtView, int) -> Option<InputView>,
)
    requires
        psbt.inputs.len() <= usize::MAX,
        settles_inputs(attempt),
    ensures
        psbt.finalized_by(attempt).finalized_by(attempt) == psbt.finalized_by(attempt),
{
    let n = psbt.wanted().len();
    let outcomes = outcomes_of(psbt, attempt, n);
    let once = psbt.finalized_by(attempt);
    let settled = psbt.attempted(outcomes);
    lemma_outcomes(psbt, attempt, n, 0);
    lemma_attempted(psbt, outcomes);
    lemma_attempts_keep_utxos(psbt, attempt, n);
    lemma_wanted(psbt);
    lemma_wanted(once);
    assert forall|i: int| 0 <= i < psbt.inputs.len() implies (
    #[trigger] once.inputs[i]).with_placeholder() == settled.inputs[i] by {
        assert(same_utxos(settled.inputs[i], psbt.inputs[i].with_placeholder()));
        if psbt.inputs[i].witness_utxo is None {
            assert(settled.inputs[i] == psbt.inputs[i].with_placeholder()) by {
                assert(forall|j: int| 0 <= j < outcomes.len() ==> #[trigger] psbt.wanted()[j] != i);
            }
            assert(once.inputs[i].with_placeholder() =~= settled.inputs[i]);
        }
    }
    assert(once.with_placeholders().inputs =~= settled.inputs);
    lemma_second_run(psbt, attempt, once.wanted().len());
    let again = outcomes_of(once, attempt, once.wanted().len());
    assert(once.attempted(again) == settled);
    assert forall|i: int| 0 <= i < once.inputs.len() implies (
    #[trigger] once.finalized_with(again).inputs[i]) == once.inputs[i] by {
        assert(once.inputs[i].with_placeholder() == settled.inputs[i]);
        if once.inputs[i].witness_utxo is None {
            assert(once.finalized_with(again).inputs[i] =~= once.inputs[i]);
        }
    }
    assert(once.finalized_with(again).inputs =~= once.inputs);
}

/// In a second run no attempt succeeds.
proof fn lemma_second_run(
    psbt: PsbtView,
    attempt: spec_fn(PsbtView, int) -> Option<InputView>,
    m: nat,
)
    requires
        psbt.inputs.len() <= usize::MAX,
        settles_inputs(attempt),
        m <= psbt.finalized_by(attempt).wanted().len(),
        psbt.finalized_by(attempt).with_placeholders() == psbt.attempted(
            outcomes_of(psbt, attempt, psbt.wanted().len()),
        ),
    ensures
        psbt.finalized_by(attempt).attempted(outcomes_of(psbt.finalized_by(attempt), attempt, m))
            == psbt.attempted(outcomes_of(psbt, attempt, psbt.wanted().len())),
    decreases m,
{
    let n = psbt.wanted().len();
    let outcomes = outcomes_of(psbt, attempt, n);
    let once = psbt.finalized_by(attempt);
    let settled = psbt.attempted(outcomes);
    if m > 0 {
        lemma_second_run(psbt, attempt, (m - 1) as nat);
        let earlier = outcomes_of(once, attempt, (m - 1) as nat);
        let again = outcomes_of(once, attempt, m);
        lemma_outcomes(once, attempt, (m - 1) as nat, 0);
        assert(again.drop_last() =~= earlier);
        lemma_outcomes(psbt, attempt, n, 0);
        lemma_attempted(psbt, outcomes);
        lemma_wanted(psbt);
        lemma_wanted(once);
        let i = once.wanted()[m - 1] as int;
        assert(once.inputs[i].wants_finalizing());
        // The input was wanted before, and the attempt failed.
        if !psbt.inputs[i].wants_finalizing() {
            law_finalizing_touches_only_signed_inputs(psbt, outcomes);
            assert(once.inputs[i] == psbt.inputs[i]);
            assert(false);
        }
        let j = choose|j: int| 0 <= j < psbt.wanted().len() && #[trigger] psbt.wanted()[j] == i;
        law_signed_input_is_finalized_or_kept(psbt, outcomes, j);
        lemma_outcomes(psbt, attempt, n, j as nat);
        let then = psbt.attempted(outcomes_of(psbt, attempt, j as nat));
        lemma_outcomes(psbt, attempt, j as nat, 0);
        lemma_attempted(psbt, outcomes_of(psbt, attempt, j as nat));
        assert(outcomes[j] == attempt(then, i));
        if outcomes[j] is Some {
            assert(attempt(then, i) is Some);
            assert(false);
        }
        assert forall|k: int| 0 <= k < j implies #[trigger] psbt.wanted()[k] != i by {
            assert(psbt.wanted()[k] < psbt.wanted()[j]);
        }
        assert(then.inputs[i] == psbt.inputs[i].with_placeholder());
        assert(settled.inputs[i] == psbt.inputs[i]) by {
            assert(settled.inputs[psbt.wanted()[j] as int] == psbt.inputs[psbt.wanted()[j] as int]);
        }
        lemma_attempts_keep_utxos(psbt, attempt, j as nat);
        lemma_attempts_keep_utxos(psbt, attempt, n);
        assert forall|k: int| 0 <= k < then.inputs.len() implies same_utxos(
            #[trigger] then.inputs[k],
            settled.inputs[k],
        ) by {
            assert(same_utxos(settled.inputs[k], psbt.inputs[k].with_placeholder()));
        }
        assert(attempt(then, i) == attempt(settled, i));
        assert(once.attempted(again) == settled.after_attempt(i, attempt(settled, i)));
    }
}

} // verus!
