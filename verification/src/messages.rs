//! The message part of an input: the sequence of messages, the ids they
//! get, and the mutations that add and drop messages.
use vstd::prelude::*;

use crate::fuzz_state::FuzzState;

use crate::fuzz_rand::rand_choose_index;
use crate::json_rpc::MessageId;
use crate::lsp_input::LspInput;
use crate::generation::{element_may_generate, same_replies, GenerationError, LspParamsGenerator};
use crate::message::{Params, 
    count_requests, lemma_count_requests_bound, lemma_count_requests_step, LspMessage, MessageKind,
};
use crate::mutators::{spec_swap, vec_swap, InputMutator, MutationResult};

verus! {

/// The messages of an input, in the order they are sent.
#[derive(Debug)]
pub struct LspMessageSequence {
    inner: Vec<LspMessage>,
}

impl View for LspMessageSequence {
    type V = Seq<LspMessage>;

    closed spec fn view(&self) -> Seq<LspMessage> {
        self.inner@
    }
}

/// The id that the message at `i` is sent with: requests are numbered from
/// zero in order, notifications have no id.
pub open spec fn spec_message_id(msgs: Seq<LspMessage>, i: int) -> Option<MessageId> {
    if msgs[i].kind is Request {
        Some(MessageId::Number(count_requests(msgs.take(i)) as usize))
    } else {
        None
    }
}

/// Walks the messages and hands out the id of each.
#[derive(Debug)]
pub struct EnumMessages<'a> {
    next_id: usize,
    messages: &'a Vec<LspMessage>,
    pos: usize,
}

impl<'a> EnumMessages<'a> {
    pub closed spec fn wf(&self) -> bool {
        &&& self.pos <= self.messages@.len()
        &&& self.next_id == count_requests(self.messages@.take(self.pos as int))
    }

    /// The messages walked over.
    pub closed spec fn messages(&self) -> Seq<LspMessage> {
        self.messages@
    }

    /// How many messages were handed out so far.
    pub closed spec fn position(&self) -> int {
        self.pos as int
    }

    /// The next message with its id, or `None` after the last one.
    pub fn next(&mut self) -> (r: Option<(Option<MessageId>, &'a LspMessage)>)
        requires
            old(self).wf(),
        ensures
            final(self).wf(),
            final(self).messages() == old(self).messages(),
            old(self).position() < old(self).messages().len() ==> {
                &&& final(self).position() == old(self).position() + 1
                &&& r matches Some((id, msg)) && id == spec_message_id(
                    old(self).messages(),
                    old(self).position(),
                ) && *msg == old(self).messages()[old(self).position()]
            },
            old(self).position() >= old(self).messages().len() ==> r is None && final(self).position()
                == old(self).position(),
    {
        if self.pos >= self.messages.len() {
            return None;
        }
        let i = self.pos;
        let msg = &self.messages[i];
        proof {
            lemma_count_requests_step(self.messages@, i as int);
            lemma_count_requests_bound(self.messages@.take(i + 1));
        }
        self.pos = i + 1;
        if msg.is_request() {
            let id = self.next_id;
            self.next_id = id + 1;
            Some((Some(MessageId::Number(id)), msg))
        } else {
            Some((None, msg))
        }
    }
}

impl LspMessageSequence {
    pub fn new() -> (r: Self)
        ensures
            r@ == Seq::<LspMessage>::empty(),
    {
        LspMessageSequence { inner: Vec::new() }
    }

    /// The messages as a vector.
    pub closed spec fn spec_vec(&self) -> Vec<LspMessage> {
        self.inner
    }

    /// Mutable access to the messages as a vector.
    pub fn as_mut_vec(&mut self) -> (r: &mut Vec<LspMessage>)
        ensures
            *r == old(self).spec_vec(),
            r@ == old(self)@,
            final(self).spec_vec() == *final(r),
            final(self)@ == final(r)@,
    {
        &mut self.inner
    }

    pub fn from_vec(messages: Vec<LspMessage>) -> (r: Self)
        ensures
            r@ == messages@,
    {
        LspMessageSequence { inner: messages }
    }

    pub fn into_vec(self) -> (r: Vec<LspMessage>)
        ensures
            r@ == self@,
    {
        self.inner
    }

    pub fn as_slice(&self) -> (r: &[LspMessage])
        ensures
            r@ == self@,
    {
        self.inner.as_slice()
    }

    pub fn len(&self) -> (r: usize)
        ensures
            r == self@.len(),
    {
        self.inner.len()
    }

    pub fn push(&mut self, message: LspMessage)
        ensures
            final(self)@ == old(self)@.push(message),
    {
        self.inner.push(message);
    }

    pub fn remove(&mut self, index: usize) -> (r: LspMessage)
        requires
            index < old(self)@.len(),
        ensures
            r == old(self)@[index as int],
            final(self)@ == old(self)@.remove(index as int),
    {
        self.inner.remove(index)
    }

    /// Puts `message` in place of the message at `index`.
    pub fn replace(&mut self, index: usize, message: LspMessage)
        requires
            index < old(self)@.len(),
        ensures
            final(self)@ == old(self)@.update(index as int, message),
    {
        self.inner.set(index, message);
    }

    /// Swaps the messages at `i` and `j`.
    pub fn swap(&mut self, i: usize, j: usize)
        requires
            i < old(self)@.len(),
            j < old(self)@.len(),
        ensures
            final(self)@ == spec_swap(old(self)@, i as int, j as int),
    {
        vec_swap(&mut self.inner, i, j);
    }

    /// The messages with the ids they are sent with.
    pub fn enumerate_messages(&self) -> (r: EnumMessages<'_>)
        ensures
            r.wf(),
            r.messages() == self@,
            r.position() == 0,
    {
        assert(self.inner@.take(0) =~= Seq::<LspMessage>::empty());
        EnumMessages { next_id: 0, messages: &self.inner, pos: 0 }
    }
}

/// Most messages an input may hold; beyond it, new messages replace old ones.
pub const MAX_MESSAGES: usize = 20;

/// Adds `message` to the sequence: appended while there are fewer than
/// `MAX_MESSAGES`, else in place of the message at `replaced`.
pub open spec fn spec_add_message(
    msgs: Seq<LspMessage>,
    message: LspMessage,
    replaced: int,
) -> Seq<LspMessage> {
    if msgs.len() >= MAX_MESSAGES {
        msgs.update(replaced, message)
    } else {
        msgs.push(message)
    }
}

/// Drops one message at random.
#[derive(Debug)]
pub struct DropRandomMessage;

impl DropRandomMessage {
    pub fn new() -> (r: Self) {
        DropRandomMessage
    }
}

impl InputMutator<LspInput> for DropRandomMessage {
    /// An input without messages is skipped; any other loses one message.
    /// It never fails.
    open spec fn may_fail(&self) -> bool {
        false
    }

    open spec fn may_mutate(&self, before: LspInput, after: LspInput, res: MutationResult) -> bool {
        &&& after.workspace == before.workspace
        &&& before.messages@.len() == 0 ==> res == MutationResult::Skipped && after.messages@ == before.messages@
        &&& before.messages@.len() > 0 ==> res == MutationResult::Mutated && exists|i: int|
            0 <= i < before.messages@.len() && after.messages@ == before.messages@.remove(i)
    }

    /// Removes a randomly chosen message; an input without messages is skipped.
    fn mutate(&mut self, state: &mut FuzzState, input: &mut LspInput) -> (r: Result<
        MutationResult,
        libafl_bolts::Error,
    >)
        ensures
            final(input).workspace == old(input).workspace,
            old(input).messages@.len() == 0 ==> (r matches Ok(MutationResult::Skipped)
                && final(input).messages@ == old(input).messages@),
            old(input).messages@.len() > 0 ==> (r matches Ok(MutationResult::Mutated) && exists|i: int|
                0 <= i < old(input).messages@.len() && final(input).messages@ == old(
                    input,
                ).messages@.remove(i)),
    {
        match rand_choose_index(&mut state.rand, input.messages.len()) {
            Some(index) => {
                input.messages.remove(index);
                Ok(MutationResult::Mutated)
            },
            None => Ok(MutationResult::Skipped),
        }
    }
}

/// Appends a message made by one of its generators.
#[derive(Debug)]
pub struct AppendMessage<G> {
    name: String,
    method: String,
    kind: MessageKind,
    generators: Vec<G>,
}

impl<G> AppendMessage<G> {
    pub closed spec fn spec_generators(&self) -> Seq<G> {
        self.generators@
    }

    pub closed spec fn spec_method(&self) -> Seq<char> {
        self.method@
    }

    pub closed spec fn spec_name(&self) -> Seq<char> {
        self.name@
    }

    pub closed spec fn spec_kind(&self) -> MessageKind {
        self.kind
    }

    /// A mutator that appends `method` messages of the given kind, with
    /// parameters made by `generators`, named `AppendRandomlyGenerated <method>`.
    pub fn with_predefined(method: &str, kind: MessageKind, generators: Vec<G>) -> (r: Self)
        requires
            generators@.len() > 0,
        ensures
            r.spec_generators() == generators@,
            r.spec_method() == method@,
            r.spec_kind() == kind,
            r.spec_name() == "AppendRandomlyGenerated "@ + method@,
    {
        let mut name = String::from_str("AppendRandomlyGenerated ");
        name.append(method);
        AppendMessage { name, method: String::from_str(method), kind, generators }
    }

    pub fn name(&self) -> (r: &String)
        ensures
            r@ == self.spec_name(),
    {
        &self.name
    }

    pub fn method(&self) -> (r: &String)
        ensures
            r@ == self.spec_method(),
    {
        &self.method
    }

    /// The generator picked at random for the next message.
    pub fn choose_generator(&self, rand: &mut libafl_bolts::rands::RomuDuoJrRand) -> (r: Option<&G>)
        ensures
            self.spec_generators().len() == 0 <==> r is None,
            r matches Some(g) ==> exists|i: int|
                0 <= i < self.spec_generators().len() && *g == self.spec_generators()[i],
    {
        match rand_choose_index(rand, self.generators.len()) {
            Some(i) => {
                assert(self.generators@[i as int] == self.spec_generators()[i as int]);
                Some(&self.generators[i])
            },
            None => None,
        }
    }

    /// Adds a freshly generated message to the input: appended while the input
    /// holds fewer than `MAX_MESSAGES` messages, else in place of a random one.
    pub fn add_message(
        &self,
        rand: &mut libafl_bolts::rands::RomuDuoJrRand,
        input: &mut LspInput,
        message: LspMessage,
    ) -> (r: MutationResult)
        ensures
            r == MutationResult::Mutated,
            final(input).workspace == old(input).workspace,
            old(input).messages@.len() < MAX_MESSAGES ==> final(input).messages@ == old(
                input,
            ).messages@.push(message),
            old(input).messages@.len() >= MAX_MESSAGES ==> exists|i: int|
                0 <= i < old(input).messages@.len() && final(input).messages@ == old(
                    input,
                ).messages@.update(i, message),
    {
        if input.messages.len() >= MAX_MESSAGES {
            let i = match rand_choose_index(rand, input.messages.len()) {
                Some(i) => i,
                None => 0,
            };
            input.messages.replace(i, message);
        } else {
            input.messages.push(message);
        }
        MutationResult::Mutated
    }

    /// What this mutator does with what its generator returned: parameters
    /// make a message of its method and kind that is added; nothing
    /// generated skips; an error of the fuzzer is passed on. Only an added
    /// message changes the input.
    pub fn apply_generated(
        &self,
        rand: &mut libafl_bolts::rands::RomuDuoJrRand,
        input: &mut LspInput,
        generated: Result<serde_json::Value, GenerationError>,
    ) -> (r: Result<MutationResult, libafl_bolts::Error>)
        ensures
            applied_outcome(self.spec_method(), self.spec_kind(), *old(input), *final(input), generated, r),
    {
        match generated {
            Ok(params) => {
                let message = LspMessage { method: self.method.clone(), kind: self.kind, params: Params::Json(params) };
                let ghost m = message;
                let ghost before = input.messages@;
                let res = self.add_message(rand, input, message);
                assert(message_added(before, input.messages@, m));
                Ok(res)
            },
            Err(GenerationError::NothingGenerated) => Ok(MutationResult::Skipped),
            Err(GenerationError::Error(e)) => Err(e),
        }
    }
}

/// The outcome of adding what a generator returned: with parameters `p`, a
/// message of `method` and `kind` with them is added and the outcome is
/// `Mutated`; with nothing generated the input is kept and the outcome is
/// `Skipped`; with an error the input is kept and the error is returned.
pub open spec fn applied_outcome(
    method: Seq<char>,
    kind: MessageKind,
    before: LspInput,
    after: LspInput,
    generated: Result<serde_json::Value, GenerationError>,
    r: Result<MutationResult, libafl_bolts::Error>,
) -> bool {
    match generated {
        Ok(p) => {
            &&& r == Ok::<MutationResult, libafl_bolts::Error>(MutationResult::Mutated)
            &&& after.workspace == before.workspace
            &&& exists|m: LspMessage|
                m.method@ == method && m.kind == kind && m.params == Params::Json(p) && #[trigger] message_added(
                    before.messages@,
                    after.messages@,
                    m,
                )
        },
        Err(GenerationError::NothingGenerated) => r == Ok::<MutationResult, libafl_bolts::Error>(
            MutationResult::Skipped,
        ) && after == before,
        Err(GenerationError::Error(e)) => r == Err::<MutationResult, libafl_bolts::Error>(e) && after == before,
    }
}

/// A result a generator may return from `state` for `input`.
pub open spec fn may_return<G: LspParamsGenerator<Output = serde_json::Value>>(
    generator: G,
    state: FuzzState,
    input: LspInput,
    generated: Result<serde_json::Value, GenerationError>,
) -> bool {
    match generated {
        Ok(p) => generator.may_generate(state, input, p),
        Err(GenerationError::NothingGenerated) => generator.may_give_nothing(state, input),
        Err(GenerationError::Error(_)) => generator.may_fail(),
    }
}

/// Whether `after` is `before` with `message` added as `add_message` adds it:
/// appended below `MAX_MESSAGES` messages, else in place of one of them.
pub open spec fn message_added(before: Seq<LspMessage>, after: Seq<LspMessage>, message: LspMessage) -> bool {
    &&& before.len() < MAX_MESSAGES ==> after == before.push(message)
    &&& before.len() >= MAX_MESSAGES ==> exists|i: int| 0 <= i < before.len() && after == before.update(i, message)
}

impl<G: LspParamsGenerator<Output = serde_json::Value>> InputMutator<LspInput> for AppendMessage<G> {
    /// The messages are kept, or a message of this mutator's method and kind
    /// is added to them.
    open spec fn may_mutate(&self, before: LspInput, after: LspInput, res: MutationResult) -> bool {
        &&& after.workspace == before.workspace
        &&& res == MutationResult::Skipped ==> after.messages@ == before.messages@
        &&& res == MutationResult::Mutated ==> exists|m: LspMessage|
            m.method@ == self.spec_method() && m.kind == self.spec_kind() && #[trigger] message_added(
                before.messages@,
                after.messages@,
                m,
            )
    }

    /// When one of its generators may fail.
    open spec fn may_fail(&self) -> bool {
        exists|k: int| 0 <= k < self.spec_generators().len() && #[trigger] self.spec_generators()[k].may_fail()
    }

    /// Generates parameters with a random one of the generators and adds the
    /// message they make; skips when nothing could be generated.
    fn mutate(&mut self, state: &mut FuzzState, input: &mut LspInput) -> (r: Result<
        MutationResult,
        libafl_bolts::Error,
    >)
        ensures
            final(input).workspace == old(input).workspace,
            r matches Ok(MutationResult::Skipped) ==> final(input).messages@ == old(input).messages@,
            r is Err ==> final(input).messages@ == old(input).messages@,
            r matches Ok(MutationResult::Mutated) ==> exists|m: LspMessage|
                m.method@ == old(self).spec_method() && m.kind == old(self).spec_kind() && #[trigger] message_added(
                    old(input).messages@,
                    final(input).messages@,
                    m,
                ) && (m.params matches Params::Json(p) && element_may_generate(
                    old(self).spec_generators(),
                    *old(state),
                    *old(input),
                    p,
                )),
            old(self).spec_generators().len() == 0 ==> r matches Ok(MutationResult::Skipped),
            old(self).spec_generators().len() > 0 ==> exists|
                k: int,
                mid: FuzzState,
                generated: Result<serde_json::Value, GenerationError>,
            |
                #![trigger may_return(old(self).spec_generators()[k], mid, *old(input), generated)]
                0 <= k < old(self).spec_generators().len() && same_replies(mid, *old(state)) && may_return(
                    old(self).spec_generators()[k],
                    mid,
                    *old(input),
                    generated,
                ) && applied_outcome(
                    old(self).spec_method(),
                    old(self).spec_kind(),
                    *old(input),
                    *final(input),
                    generated,
                    r,
                ),
            r matches Ok(MutationResult::Skipped) ==> old(self).spec_generators().len() == 0 || exists|
                k: int,
                mid: FuzzState,
            |
                #![trigger old(self).spec_generators()[k].may_give_nothing(mid, *old(input))]
                0 <= k < old(self).spec_generators().len() && same_replies(mid, *old(state)) && old(
                    self,
                ).spec_generators()[k].may_give_nothing(mid, *old(input)),
    {
        let ghost start = *state;
        let generator = match self.choose_generator(&mut state.rand) {
            Some(g) => g,
            None => {
                return Ok(MutationResult::Skipped);
            },
        };
        let ghost mid = *state;
        let ghost k = choose|i: int| 0 <= i < self.spec_generators().len() && *generator == self.spec_generators()[i];
        let generated = generator.generate(state, input);
        let ghost g = generated;
        proof {
            assert(may_return(self.spec_generators()[k], mid, *input, g));
            if g is Ok {
                assert(0 <= k < self.spec_generators().len() && same_replies(mid, start)
                    && self.spec_generators()[k].may_generate(mid, *input, g->Ok_0));
            }
            if g matches Err(GenerationError::NothingGenerated) {
                assert(0 <= k < self.spec_generators().len() && same_replies(mid, start)
                    && self.spec_generators()[k].may_give_nothing(mid, *input));
            }
            if g matches Err(GenerationError::Error(_)) {
                assert(self.spec_generators()[k].may_fail());
            }
        }
        self.apply_generated(&mut state.rand, input, generated)
    }
}

/// An input never grows past `MAX_MESSAGES` messages through `add_message`:
/// one that holds at most that many still does after a message is added.
pub proof fn lemma_add_message_bounded(msgs: Seq<LspMessage>, message: LspMessage, replaced: int)
    requires
        msgs.len() <= MAX_MESSAGES,
        msgs.len() == MAX_MESSAGES ==> 0 <= replaced < msgs.len(),
    ensures
        spec_add_message(msgs, message, replaced).len() <= MAX_MESSAGES,
        msgs.len() < MAX_MESSAGES ==> spec_add_message(msgs, message, replaced) == msgs.push(message),
{
}

/// The ids handed out by `enumerate_messages` are the ids the messages are
/// sent with: message `i` gets the same id from both when requests are
/// numbered from zero.
pub proof fn lemma_enumerated_ids_match_sent_ids(msgs: Seq<LspMessage>, i: int)
    requires
        0 <= i < msgs.len(),
        msgs.len() <= usize::MAX,
    ensures
        spec_message_id(msgs, i) == (match crate::message::spec_json_rpc_all(msgs, 0)[i] {
            crate::json_rpc::JsonRPCMessage::Request { id, .. } => Some(id),
            _ => None::<MessageId>,
        }),
{
    lemma_count_requests_bound(msgs.take(i));
}

} // verus!
