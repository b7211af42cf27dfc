//! Streamed response accumulator.
//!
//! One generation request yields a lazy sequence of driver events: text
//! fragments, tool-call fragments addressed by slot index, a turn-finish
//! signal, and decode errors.  The accumulator folds that sequence into
//! accumulated assistant text plus a table of per-slot tool-call
//! fragments, and finalizes the table into fully assembled records in
//! slot-index order.

use vstd::prelude::*;

use crate::looper::opt_view;

verus! {

/// Why one generation's event stream ended: the model gave a complete
/// textual answer, or it requested that the assembled tool calls be run.
#[derive(Clone, Copy, PartialEq, Eq, Structural, Debug)]
pub enum FinishReason {
    NaturalStop,
    ToolCalls,
}

/// One tool-call fragment from the driver's event stream.  The slot
/// index says which in-flight tool call the fragment belongs to; it is
/// assigned by the driver, not by arrival order of fields.
#[derive(Debug)]
pub struct ToolCallFragmentEvent {
    pub index: usize,
    pub id: Option<String>,
    pub name: Option<String>,
    pub arguments_delta: Option<String>,
}

/// One event of the lazy sequence produced by a generation request.
#[derive(Debug)]
pub enum DriverEvent {
    TextDelta(String),
    ToolCallFragment(ToolCallFragmentEvent),
    TurnFinished(FinishReason),
    StreamError,
}

/// The in-flight state of one tool-call slot.  `id` and `name` are set
/// at most once, by the first non-empty value addressed to the slot;
/// `arguments` grows by appending every delta in arrival order.  A slot
/// that exists only as padding below a higher addressed index is not
/// `allocated`.
#[derive(Debug)]
pub struct ToolCallFragment {
    pub allocated: bool,
    pub id: Option<String>,
    pub name: Option<String>,
    pub arguments: String,
}

/// Mathematical model of a slot.
pub struct FragmentModel {
    pub allocated: bool,
    pub id: Option<Seq<char>>,
    pub name: Option<Seq<char>>,
    pub arguments: Seq<char>,
}

impl View for ToolCallFragment {
    type V = FragmentModel;

    open spec fn view(&self) -> FragmentModel {
        FragmentModel {
            allocated: self.allocated,
            id: opt_view(self.id),
            name: opt_view(self.name),
            arguments: self.arguments@,
        }
    }
}

/// A fully assembled tool call, in the order fixed by its slot index.
/// An id or name that was never supplied stays empty.  `arguments` is
/// the concatenation of every delta addressed to the slot, untouched:
/// whether it parses as structured data is decided at dispatch time.
#[derive(Debug, Clone, PartialEq, Eq)]
pub struct ToolCallRecord {
    pub id: String,
    pub name: String,
    pub arguments: String,
}

/// Mathematical model of an assembled record.
pub struct RecordModel {
    pub id: Seq<char>,
    pub name: Seq<char>,
    pub arguments: Seq<char>,
}

impl View for ToolCallRecord {
    type V = RecordModel;

    open spec fn view(&self) -> RecordModel {
        RecordModel { id: self.id@, name: self.name@, arguments: self.arguments@ }
    }
}

/// Everything one generation's event stream has produced so far.
#[derive(Debug)]
pub struct Accumulator {
    text: String,
    slots: Vec<ToolCallFragment>,
    finish: Option<FinishReason>,
}

/// Mathematical model of the accumulator.
pub struct AccumulatorModel {
    pub text: Seq<char>,
    pub slots: Seq<FragmentModel>,
    pub finish: Option<FinishReason>,
}

impl View for Accumulator {
    type V = AccumulatorModel;

    closed spec fn view(&self) -> AccumulatorModel {
        AccumulatorModel {
            text: self.text@,
            slots: self.slots@.map(|i: int, f: ToolCallFragment| f@),
            finish: self.finish,
        }
    }
}

/// A slot before anything has been addressed to it.
pub open spec fn empty_fragment() -> FragmentModel {
    FragmentModel {
        allocated: false,
        id: Option::None,
        name: Option::None,
        arguments: Seq::empty(),
    }
}

/// The accumulator before any event has arrived.
pub open spec fn initial_model() -> AccumulatorModel {
    AccumulatorModel { text: Seq::empty(), slots: Seq::empty(), finish: Option::None }
}

/// First non-empty value wins: an already-set field keeps its value, an
/// unset one takes the incoming value unless that is absent or empty.
pub open spec fn first_wins(cur: Option<Seq<char>>, incoming: Option<Seq<char>>) -> Option<
    Seq<char>,
> {
    if cur is Some {
        cur
    } else {
        match incoming {
            Option::Some(s) => if s.len() > 0 {
                Option::Some(s)
            } else {
                Option::None
            },
            Option::None => Option::None,
        }
    }
}

/// The argument characters one fragment event contributes.
pub open spec fn delta_of(e: ToolCallFragmentEvent) -> Seq<char> {
    match e.arguments_delta {
        Option::Some(d) => d@,
        Option::None => Seq::empty(),
    }
}

/// How one fragment event changes the slot it addresses.
pub open spec fn fragment_step(f: FragmentModel, e: ToolCallFragmentEvent) -> FragmentModel {
    FragmentModel {
        allocated: true,
        id: first_wins(f.id, opt_view(e.id)),
        name: first_wins(f.name, opt_view(e.name)),
        arguments: f.arguments + delta_of(e),
    }
}

/// Pads the slot table with unallocated slots until `index` exists.
pub open spec fn padded_slots(slots: Seq<FragmentModel>, index: int) -> Seq<FragmentModel> {
    if index < slots.len() {
        slots
    } else {
        slots + Seq::new((index + 1 - slots.len()) as nat, |i: int| empty_fragment())
    }
}

/// How one driver event changes the whole accumulator: text deltas are
/// appended to the text, fragment events are routed to their slot,
/// a turn-finish event records its reason, and a malformed event is
/// skipped with everything kept.
pub open spec fn accum_step(m: AccumulatorModel, e: DriverEvent) -> AccumulatorModel {
    match e {
        DriverEvent::TextDelta(t) => AccumulatorModel {
            text: m.text + t@,
            slots: m.slots,
            finish: m.finish,
        },
        DriverEvent::ToolCallFragment(f) => {
            let padded = padded_slots(m.slots, f.index as int);
            AccumulatorModel {
                text: m.text,
                slots: padded.update(f.index as int, fragment_step(padded[f.index as int], f)),
                finish: m.finish,
            }
        },
        DriverEvent::TurnFinished(r) => AccumulatorModel {
            text: m.text,
            slots: m.slots,
            finish: Option::Some(r),
        },
        DriverEvent::StreamError => m,
    }
}

/// The accumulator state after a whole event sequence, in arrival order.
pub open spec fn accum_fold(m: AccumulatorModel, events: Seq<DriverEvent>) -> AccumulatorModel
    decreases events.len(),
{
    if events.len() == 0 {
        m
    } else {
        accum_step(accum_fold(m, events.drop_last()), events.last())
    }
}

/// The id or name recorded for a slot that never received one: empty.
pub open spec fn or_empty(o: Option<Seq<char>>) -> Seq<char> {
    match o {
        Option::Some(s) => s,
        Option::None => Seq::empty(),
    }
}

/// The assembled record a completed slot turns into.
pub open spec fn record_of(f: FragmentModel) -> RecordModel {
    RecordModel { id: or_empty(f.id), name: or_empty(f.name), arguments: f.arguments }
}

/// The assembled records of a finished accumulation, in slot-index
/// order — the canonical ordering for all downstream correlation.
pub open spec fn records_of(m: AccumulatorModel) -> Seq<RecordModel> {
    m.slots.map(|i: int, f: FragmentModel| record_of(f))
}

/// Every slot index from 0 to the highest addressed one was actually
/// addressed by some fragment event: the assembly has no gaps.
pub open spec fn assembly_complete(m: AccumulatorModel) -> bool {
    forall|i: int| 0 <= i < m.slots.len() ==> (#[trigger] m.slots[i]).allocated
}

/// The models of a vector of assembled records.
pub open spec fn records_view(v: Vec<ToolCallRecord>) -> Seq<RecordModel> {
    v@.map(|i: int, r: ToolCallRecord| r@)
}

/// What one finished generation produced: a complete textual answer,
/// or a batch of assembled tool calls to dispatch.
#[derive(Debug, PartialEq, Eq)]
pub enum GenerationOutcome {
    Text(String),
    ToolCalls(Vec<ToolCallRecord>),
}

/// A finish signal announced tool calls, but some slot index below the
/// highest one was never addressed: the assembly is invalid.  The
/// payload is the lowest missing slot index.
#[derive(Debug, Clone, Copy, PartialEq, Eq, Structural)]
pub enum AccumulatorError {
    IncompleteAssembly(usize),
}

fn opt_or_empty(o: &Option<String>) -> (r: String)
    ensures
        r@ == or_empty(opt_view(*o)),
{
    match o {
        Option::Some(s) => s.clone(),
        Option::None => String::new(),
    }
}

impl Accumulator {
    /// Starts accumulating one generation's event stream.
    pub fn new() -> (r: Accumulator)
        ensures
            r@ == initial_model(),
    {
        let r = Accumulator { text: String::new(), slots: Vec::new(), finish: Option::None };
        proof {
            assert(r@.slots =~= initial_model().slots);
            assert(r@ == initial_model());
        }
        r
    }

    /// Feeds one driver event.  Returns the text fragment to forward to
    /// the presentation boundary, for a text event; forwarding must not
    /// be skipped, so the fragment is handed back verbatim.
    pub fn process_event(&mut self, e: DriverEvent) -> (forward: Option<String>)
        ensures
            final(self)@ == accum_step(old(self)@, e),
            match e {
                DriverEvent::TextDelta(t) => forward == Option::Some(t),
                _ => forward is None,
            },
    {
        match e {
            DriverEvent::TextDelta(t) => {
                self.text.append(t.as_str());
                Option::Some(t)
            },
            DriverEvent::ToolCallFragment(ev) => {
                self.apply_fragment(ev);
                Option::None
            },
            DriverEvent::TurnFinished(r) => {
                self.finish = Option::Some(r);
                Option::None
            },
            DriverEvent::StreamError => Option::None,
        }
    }

    /// Routes one fragment event into the slot table.
    fn apply_fragment(&mut self, ev: ToolCallFragmentEvent)
        ensures
            final(self)@ == accum_step(old(self)@, DriverEvent::ToolCallFragment(ev)),
    {
        let ghost m0 = self@;
        let index = ev.index;
        while self.slots.len() <= index
            invariant
                self.text@ == m0.text,
                self.finish == m0.finish,
                m0.slots.len() <= self@.slots.len(),
                self@.slots =~= m0.slots + Seq::new(
                    (self@.slots.len() - m0.slots.len()) as nat,
                    |i: int| empty_fragment(),
                ),
                self@.slots.len() <= index + 1 || self@.slots.len() == m0.slots.len(),
            decreases index + 1 - self.slots.len(),
        {
            let ghost prev = self@.slots;
            self.slots.push(
                ToolCallFragment {
                    allocated: false,
                    id: Option::None,
                    name: Option::None,
                    arguments: String::new(),
                },
            );
            proof {
                assert(self@.slots =~= prev.push(empty_fragment()));
            }
        }
        proof {
            assert(self@.slots =~= padded_slots(m0.slots, index as int));
        }
        let ghost padded = self@.slots;
        let slot = vstd::std_specs::vec::vec_index_mut(&mut self.slots, index);
        slot.allocated = true;
        if slot.id.is_none() {
            match ev.id {
                Option::Some(id) => {
                    if !id.as_str().is_empty() {
                        slot.id = Option::Some(id);
                    }
                },
                Option::None => {},
            }
        }
        if slot.name.is_none() {
            match ev.name {
                Option::Some(name) => {
                    if !name.as_str().is_empty() {
                        slot.name = Option::Some(name);
                    }
                },
                Option::None => {},
            }
        }
        match ev.arguments_delta {
            Option::Some(d) => {
                slot.arguments.append(d.as_str());
            },
            Option::None => {},
        }
        proof {
            assert(self@.slots =~= padded.update(index as int, fragment_step(
                padded[index as int],
                ev,
            )));
            assert(final(self)@.slots =~= accum_step(
                old(self)@,
                DriverEvent::ToolCallFragment(ev),
            ).slots);
        }
    }

    /// Drains a whole event sequence, in order.  The result is exactly
    /// the fold of the events over the empty accumulator, so any two
    /// runs over the same events agree.
    pub fn accumulate_all(events: Vec<DriverEvent>) -> (r: Accumulator)
        ensures
            r@ == accum_fold(initial_model(), events@),
    {
        let ghost all = events@;
        let mut acc = Accumulator::new();
        let mut rest = events;
        let ghost mut taken: int = 0;
        while rest.len() > 0
            invariant
                taken + rest@.len() == all.len(),
                0 <= taken,
                rest@ =~= all.skip(taken),
                acc@ == accum_fold(initial_model(), all.take(taken)),
            decreases rest@.len(),
        {
            let e = rest.remove(0);
            acc.process_event(e);
            proof {
                taken = taken + 1;
                assert(rest@ =~= all.skip(taken));
                assert(all.take(taken).drop_last() =~= all.take(taken - 1));
                assert(all.take(taken).last() == all[taken - 1]);
            }
        }
        proof {
            assert(all.take(all.len() as int) =~= all);
        }
        acc
    }

    /// Turns a drained stream into its outcome.  A turn-finish with the
    /// tool-call reason finalizes the slot table into records in
    /// slot-index order, and fails if any slot below the highest one
    /// was never addressed.  Every other ending — natural stop, or a
    /// stream that ran out without a terminal event — yields the
    /// accumulated text, preserving whatever was received.
    pub fn finalize(&self) -> (r: Result<GenerationOutcome, AccumulatorError>)
        ensures
            match r {
                Result::Ok(out) => match out {
                    GenerationOutcome::Text(t) => self@.finish != Option::Some(
                        FinishReason::ToolCalls,
                    ) && t@ == self@.text,
                    GenerationOutcome::ToolCalls(rv) => self@.finish == Option::Some(
                        FinishReason::ToolCalls,
                    ) && assembly_complete(self@) && records_view(rv) == records_of(self@),
                },
                Result::Err(e) => match e {
                    AccumulatorError::IncompleteAssembly(i) => self@.finish == Option::Some(
                        FinishReason::ToolCalls,
                    ) && 0 <= i < self@.slots.len() && !self@.slots[i as int].allocated && (forall|
                        j: int,
                    | 0 <= j < i ==> (#[trigger] self@.slots[j]).allocated),
                },
            },
    {
        match self.finish {
            Option::Some(FinishReason::ToolCalls) => {
                let mut records: Vec<ToolCallRecord> = Vec::new();
                let mut i: usize = 0;
                while i < self.slots.len()
                    invariant
                        self@.finish == Option::Some(FinishReason::ToolCalls),
                        i <= self.slots.len(),
                        records_view(records) =~= records_of(self@).take(i as int),
                        forall|j: int| 0 <= j < i ==> (#[trigger] self@.slots[j]).allocated,
                    decreases self.slots.len() - i,
                {
                    let f = &self.slots[i];
                    proof {
                        assert(self@.slots[i as int] == self.slots@[i as int]@);
                    }
                    if !f.allocated {
                        return Result::Err(AccumulatorError::IncompleteAssembly(i));
                    }
                    let ghost before = records_view(records);
                    records.push(
                        ToolCallRecord {
                            id: opt_or_empty(&f.id),
                            name: opt_or_empty(&f.name),
                            arguments: f.arguments.clone(),
                        },
                    );
                    proof {
                        assert(records_view(records) =~= before.push(records_of(self@)[i as int]));
                    }
                    i += 1;
                }
                proof {
                    assert(records_view(records) =~= records_of(self@));
                }
                Result::Ok(GenerationOutcome::ToolCalls(records))
            },
            _ => Result::Ok(GenerationOutcome::Text(self.text.clone())),
        }
    }
}

/// The argument characters that the events address to one slot, in
/// arrival order.
pub open spec fn deltas_for(events: Seq<DriverEvent>, slot: int) -> Seq<char>
    decreases events.len(),
{
    if events.len() == 0 {
        Seq::empty()
    } else {
        let rest = deltas_for(events.drop_last(), slot);
        match events.last() {
            DriverEvent::ToolCallFragment(f) => if f.index == slot {
                rest + delta_of(f)
            } else {
                rest
            },
            _ => rest,
        }
    }
}

/// The arguments a slot holds after a fold, empty if the slot was
/// never created.
pub open spec fn slot_arguments(m: AccumulatorModel, slot: int) -> Seq<char> {
    if 0 <= slot < m.slots.len() {
        m.slots[slot].arguments
    } else {
        Seq::empty()
    }
}

proof fn lemma_slot_arguments(events: Seq<DriverEvent>, slot: int)
    requires
        0 <= slot,
    ensures
        slot_arguments(accum_fold(initial_model(), events), slot) == deltas_for(events, slot),
    decreases events.len(),
{
    if events.len() == 0 {
    } else {
        let prior = accum_fold(initial_model(), events.drop_last());
        lemma_slot_arguments(events.drop_last(), slot);
        match events.last() {
            DriverEvent::ToolCallFragment(f) => {
                let padded = padded_slots(prior.slots, f.index as int);
                assert(slot_arguments(accum_fold(initial_model(), events), slot) == deltas_for(
                    events,
                    slot,
                ));
            },
            _ => {},
        }
    }
}

/// However the driver interleaves tool-call fragment events by slot
/// index, the assembled `arguments` of slot `i` is exactly the
/// concatenation of the `arguments_delta` values addressed to slot
/// `i`, in arrival order.
pub proof fn lemma_arguments_concatenated_in_arrival_order(events: Seq<DriverEvent>, slot: int)
    requires
        0 <= slot < accum_fold(initial_model(), events).slots.len(),
    ensures
        accum_fold(initial_model(), events).slots[slot].arguments == deltas_for(events, slot),
{
    lemma_slot_arguments(events, slot);
}

/// Replaying one fully-specified sequence of driver events is
/// deterministic: any two accumulations of the same events assemble
/// identical record lists.
pub proof fn lemma_replay_yields_identical_records(
    a: AccumulatorModel,
    b: AccumulatorModel,
    events: Seq<DriverEvent>,
)
    requires
        a == accum_fold(initial_model(), events),
        b == accum_fold(initial_model(), events),
    ensures
        records_of(a) == records_of(b),
{
}

} // verus!
