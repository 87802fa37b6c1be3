//! The host's `IEventList`: the events of one block, as the host hands them
//! to a plugin (input) or collects them from it (output).

use vstd::prelude::*;

use crate::constants::K_INVALID_ARGUMENT;
use crate::events::{
    lemma_midi_round_trip, midi1_valid, event_offset, event_size_ok, expression_event, spec_vst3_event_from_midi,
    spec_vst3_to_midi_event, spec_vst3_to_note_expression, vst3_event_from_midi,
    vst3_to_midi_event, vst3_to_note_expression, MidiEvent, NoteExpressionValue, Vst3Event,
};
use crate::inline_lists::{
    expression_list_items, expression_list_new, expression_list_push, midi_list_items,
    midi_list_new, midi_list_push, ExpressionList, MidiList,
};

verus! {

/// Events reserved up front, so typical blocks never grow the list.
pub const RESERVED_EVENTS: usize = 256;

/// Events in non-decreasing order of frame offset.
pub open spec fn offset_sorted(s: Seq<Vst3Event>) -> bool {
    forall|i: int, j: int| 0 <= i < j < s.len() ==> event_offset(s[i]) <= event_offset(s[j])
}

/// Selects the events at frame offset `k`.
pub open spec fn at_offset(k: i32) -> spec_fn(Vst3Event) -> bool {
    |e: Vst3Event| event_offset(e) == k
}

/// `out` is `input` stably sorted by frame offset: ordered by offset, and at
/// every offset holding the same events in the same order as `input`.
pub open spec fn is_stable_sort_by_offset(out: Seq<Vst3Event>, input: Seq<Vst3Event>) -> bool {
    &&& offset_sorted(out)
    &&& forall|k: i32| #[trigger] out.filter(at_offset(k)) == input.filter(at_offset(k))
}

/// The VST3 events that MIDI messages become, in order, skipping messages
/// that are not well-formed channel messages.
pub open spec fn events_of_midi(midi: Seq<MidiEvent>) -> Seq<Vst3Event> {
    midi.filter_map(|e: MidiEvent| spec_vst3_event_from_midi(e))
}

/// The MIDI messages that events convert to, `levels[i]` standing for the
/// scaled level of `events[i]`; events without a MIDI form are skipped.
pub open spec fn midi_of_events(events: Seq<Vst3Event>, levels: Seq<u8>) -> Seq<MidiEvent> {
    Seq::new(events.len(), |i: int| (events[i], levels[i])).filter_map(
        |p: (Vst3Event, u8)| spec_vst3_to_midi_event(p.0, p.1),
    )
}

/// The note-expression values that events carry, in order.
pub open spec fn expressions_of_events(events: Seq<Vst3Event>) -> Seq<NoteExpressionValue> {
    events.filter_map(|e: Vst3Event| spec_vst3_to_note_expression(e))
}

/// No element of `s` is selected by `f`: filtering keeps nothing.
proof fn lemma_filter_none(s: Seq<Vst3Event>, f: spec_fn(Vst3Event) -> bool)
    requires
        forall|i: int| 0 <= i < s.len() ==> !f(s[i]),
    ensures
        s.filter(f) == Seq::<Vst3Event>::empty(),
    decreases s.len(),
{
    reveal(Seq::filter);
    if s.len() > 0 {
        lemma_filter_none(s.drop_last(), f);
    }
}

/// Inserting `x` after every event whose offset is at most its own, and
/// before every event whose offset is greater, extends a stable sort of
/// `pre` to one of `pre.push(x)`.
proof fn lemma_insert_sorted(out: Seq<Vst3Event>, pre: Seq<Vst3Event>, x: Vst3Event, p: int)
    requires
        is_stable_sort_by_offset(out, pre),
        0 <= p <= out.len(),
        forall|j: int| 0 <= j < p ==> event_offset(out[j]) <= event_offset(x),
        forall|j: int| p <= j < out.len() ==> event_offset(out[j]) > event_offset(x),
    ensures
        is_stable_sort_by_offset(out.insert(p, x), pre.push(x)),
{
    let new = out.insert(p, x);
    out.insert_ensures(p, x);
    assert forall|i: int, j: int| 0 <= i < j < new.len() implies event_offset(new[i])
        <= event_offset(new[j]) by {
        if j < p {
        } else if j == p {
        } else if i < p {
        } else if i == p {
        } else {
            assert(new[i] == out[i - 1]);
            assert(new[j] == out[j - 1]);
        }
    }
    let a = out.subrange(0, p);
    let b = out.subrange(p, out.len() as int);
    assert(out =~= a + b);
    assert(new =~= a.push(x) + b);
    assert forall|k: i32| #[trigger] new.filter(at_offset(k)) == pre.push(x).filter(at_offset(k)) by {
        let f = at_offset(k);
        Seq::filter_distributes_over_add(a, b, f);
        Seq::filter_distributes_over_add(a.push(x), b, f);
        a.lemma_filter_push(x, f);
        pre.lemma_filter_push(x, f);
        if event_offset(x) == k {
            assert forall|i: int| 0 <= i < b.len() implies !f(b[i]) by {
                assert(b[i] == out[p + i]);
            }
            lemma_filter_none(b, f);
            assert(new.filter(f) =~= a.filter(f).push(x));
            assert(out.filter(f) =~= a.filter(f));
        }
    }
}

/// The level each message carries in its second data byte.
pub open spec fn midi_levels(midi: Seq<MidiEvent>) -> Seq<u8> {
    midi.map_values(|e: MidiEvent| e.data2)
}

/// MIDI messages survive the trip through an event list: the events that
/// well-formed channel messages become (one per message) convert back, each
/// with its message's own level, to exactly those messages, in order.
pub proof fn lemma_event_list_midi_round_trip(midi: Seq<MidiEvent>)
    requires
        forall|i: int| 0 <= i < midi.len() ==> midi1_valid(#[trigger] midi[i]) && midi[i].frame_offset
            <= i32::MAX,
    ensures
        events_of_midi(midi).len() == midi.len(),
        forall|i: int| 0 <= i < events_of_midi(midi).len() ==> event_size_ok(
            #[trigger] events_of_midi(midi)[i],
        ),
        midi_of_events(events_of_midi(midi), midi_levels(midi)) == midi,
    decreases midi.len(),
{
    if midi.len() > 0 {
        let p = midi.drop_last();
        let x = midi.last();
        assert forall|i: int| 0 <= i < p.len() implies midi1_valid(#[trigger] p[i])
            && p[i].frame_offset <= i32::MAX by {
            assert(p[i] == midi[i]);
        }
        lemma_event_list_midi_round_trip(p);
        assert(midi1_valid(midi[midi.len() - 1]));
        let v = spec_vst3_event_from_midi(x)->0;
        assert(spec_vst3_event_from_midi(x) is Some);
        lemma_midi_round_trip(x, v);
        let ep = events_of_midi(p);
        let e = events_of_midi(midi);
        assert(e == ep + seq![v]);
        let lp = midi_levels(p);
        let l = midi_levels(midi);
        assert(l =~= lp.push(x.data2));
        assert forall|i: int| 0 <= i < e.len() implies event_size_ok(#[trigger] e[i]) by {
            if i < ep.len() {
                assert(e[i] == ep[i]);
            } else {
                assert(e[i] == v);
            }
        }
        let pairs = Seq::new(e.len(), |i: int| (e[i], l[i]));
        let pairs_p = Seq::new(ep.len(), |i: int| (ep[i], lp[i]));
        assert(pairs.drop_last() =~= pairs_p);
        assert(pairs.last() == (v, x.data2));
        assert(midi_of_events(e, l) == midi_of_events(ep, lp) + seq![x]);
        assert(p + seq![x] =~= midi);
    }
}

/// Events listed for a plugin, or collected from it, for one block.
pub struct EventList {
    events: Vec<Vst3Event>,
}

impl View for EventList {
    type V = Seq<Vst3Event>;

    closed spec fn view(&self) -> Seq<Vst3Event> {
        self.events@
    }
}

/// Stable sort by frame offset: each event is inserted after every event
/// already placed whose offset is not greater.
fn sort_by_offset(input: &Vec<Vst3Event>) -> (out: Vec<Vst3Event>)
    ensures
        is_stable_sort_by_offset(out@, input@),
{
    let n = input.len();
    let mut out: Vec<Vst3Event> = Vec::with_capacity(n);
    let mut i: usize = 0;
    proof {
        assert(input@.take(0) =~= Seq::<Vst3Event>::empty());
        assert forall|k: i32| #[trigger] out@.filter(at_offset(k)) == input@.take(0).filter(
            at_offset(k),
        ) by {
            reveal(Seq::filter);
        }
    }
    while i < n
        invariant
            n == input@.len(),
            i <= n,
            out@.len() == i,
            is_stable_sort_by_offset(out@, input@.take(i as int)),
        decreases n - i,
    {
        let x = input[i];
        let key = x.sample_offset();
        let mut p: usize = 0;
        while p < out.len() && out[p].sample_offset() <= key
            invariant
                p <= out@.len(),
                out@.len() == i,
                forall|j: int| 0 <= j < p ==> event_offset(out@[j]) <= key,
            decreases out@.len() - p,
        {
            p = p + 1;
        }
        proof {
            assert forall|j: int| p <= j < out@.len() implies event_offset(out@[j]) > key by {
                assert(event_offset(out@[p as int]) > key);
            }
            lemma_insert_sorted(out@, input@.take(i as int), x, p as int);
            assert(input@.take(i as int).push(x) =~= input@.take(i + 1));
        }
        out.insert(p, x);
        i = i + 1;
    }
    assert(input@.take(n as int) =~= input@);
    out
}

impl EventList {
    /// An empty list with room for a typical block's events.
    pub fn new() -> (l: EventList)
        ensures
            l@ == Seq::<Vst3Event>::empty(),
    {
        EventList { events: Vec::with_capacity(RESERVED_EVENTS) }
    }

    /// Replace the events with those that `midi_events` become, in order
    /// (messages without a VST3 form are skipped).
    pub fn update_from_midi(&mut self, midi_events: &[MidiEvent])
        ensures
            final(self)@ == events_of_midi(midi_events@),
    {
        self.events.clear();
        let n = midi_events.len();
        let mut i: usize = 0;
        while i < n
            invariant
                n == midi_events@.len(),
                i <= n,
                self.events@ == events_of_midi(midi_events@.take(i as int)),
            decreases n - i,
        {
            proof {
                assert(midi_events@.take(i + 1).drop_last() =~= midi_events@.take(i as int));
            }
            if let Some(e) = vst3_event_from_midi(&midi_events[i]) {
                self.events.push(e);
            }
            i = i + 1;
            proof {
                assert(self.events@ =~= events_of_midi(midi_events@.take(i as int)));
            }
        }
        proof {
            assert(midi_events@.take(n as int) =~= midi_events@);
        }
    }

    /// Replace the events with those that `midi_events` become followed by
    /// the note expressions, then order them stably by frame offset.
    pub fn update_from_midi_and_expression(
        &mut self,
        midi_events: &[MidiEvent],
        note_expressions: &[NoteExpressionValue],
    )
        ensures
            is_stable_sort_by_offset(
                final(self)@,
                events_of_midi(midi_events@) + note_expressions@.map_values(
                    |v: NoteExpressionValue| expression_event(v),
                ),
            ),
    {
        self.update_from_midi(midi_events);
        let ghost converted = self.events@;
        let n = note_expressions.len();
        let mut i: usize = 0;
        while i < n
            invariant
                n == note_expressions@.len(),
                i <= n,
                self.events@ == converted + note_expressions@.take(i as int).map_values(
                    |v: NoteExpressionValue| expression_event(v),
                ),
            decreases n - i,
        {
            let e = note_expressions[i].to_vst3_event();
            self.events.push(e);
            i = i + 1;
            proof {
                assert(self.events@ =~= converted + note_expressions@.take(i as int).map_values(
                    |v: NoteExpressionValue| expression_event(v),
                ));
            }
        }
        proof {
            assert(note_expressions@.take(n as int) =~= note_expressions@);
        }
        let sorted = sort_by_offset(&self.events);
        self.events = sorted;
    }

    /// Remove every event.
    pub fn clear(&mut self)
        ensures
            final(self)@ == Seq::<Vst3Event>::empty(),
    {
        self.events.clear();
    }

    /// Number of events.
    pub fn len(&self) -> (n: usize)
        ensures
            n == self@.len(),
    {
        self.events.len()
    }

    /// True if there are no events.
    pub fn is_empty(&self) -> (r: bool)
        ensures
            r == (self@.len() == 0),
    {
        self.events.len() == 0
    }

    /// The event at `index`.
    pub fn event(&self, index: usize) -> (e: Vst3Event)
        requires
            index < self@.len(),
        ensures
            e == self@[index as int],
    {
        self.events[index]
    }

    /// The MIDI messages the events convert to, in order; `levels[i]` is the
    /// level of event `i` scaled to 0..=127 (see
    /// [`crate::events::vst3_to_midi_event`]). Events without a MIDI form
    /// are skipped.
    pub fn to_midi_events(&self, levels: &[u8]) -> (r: MidiList)
        requires
            levels@.len() == self@.len(),
            forall|i: int| 0 <= i < levels@.len() ==> levels@[i] < 128,
            forall|i: int| 0 <= i < self@.len() ==> event_size_ok(#[trigger] self@[i]),
        ensures
            midi_list_items(r) == midi_of_events(self@, levels@),
    {
        let mut out = midi_list_new();
        let n = self.events.len();
        let ghost pairs = Seq::new(self@.len(), |i: int| (self@[i], levels@[i]));
        let mut i: usize = 0;
        while i < n
            invariant
                n == self@.len(),
                levels@.len() == n,
                forall|j: int| 0 <= j < levels@.len() ==> levels@[j] < 128,
                forall|j: int| 0 <= j < n ==> event_size_ok(#[trigger] self@[j]),
                pairs == Seq::new(self@.len(), |j: int| (self@[j], levels@[j])),
                i <= n,
                midi_list_items(out) == pairs.take(i as int).filter_map(
                    |p: (Vst3Event, u8)| spec_vst3_to_midi_event(p.0, p.1),
                ),
            decreases n - i,
        {
            proof {
                assert(pairs.take(i + 1).drop_last() =~= pairs.take(i as int));
                assert(pairs.take(i + 1).last() == (self@[i as int], levels@[i as int]));
            }
            if let Some(m) = vst3_to_midi_event(&self.events[i], levels[i]) {
                midi_list_push(&mut out, m);
            }
            i = i + 1;
        }
        proof {
            assert(pairs.take(n as int) =~= pairs);
        }
        out
    }

    /// The note-expression values the events carry, in order.
    pub fn to_note_expressions(&self) -> (r: ExpressionList)
        ensures
            expression_list_items(r) == expressions_of_events(self@),
    {
        let mut out = expression_list_new();
        let n = self.events.len();
        let mut i: usize = 0;
        while i < n
            invariant
                n == self@.len(),
                i <= n,
                expression_list_items(out) == expressions_of_events(self@.take(i as int)),
            decreases n - i,
        {
            proof {
                assert(self@.take(i + 1).drop_last() =~= self@.take(i as int));
            }
            if let Some(v) = vst3_to_note_expression(&self.events[i]) {
                expression_list_push(&mut out, v);
            }
            i = i + 1;
        }
        proof {
            assert(self@.take(n as int) =~= self@);
        }
        out
    }

    /// `IEventList::getEventCount`: the number of events as the interface's
    /// `int32`.
    pub fn event_count(&self) -> (n: i32)
        ensures
            n == self@.len() as i32,
    {
        self.events.len() as i32
    }

    /// `IEventList::getEvent`: the event at `index`, or `K_INVALID_ARGUMENT`
    /// when `index` is negative or not below the event count.
    pub fn get_event(&self, index: i32) -> (r: Result<Vst3Event, i32>)
        ensures
            0 <= index < self@.len() as i32 ==> r == Ok::<Vst3Event, i32>(self@[index as int]),
            !(0 <= index < self@.len() as i32) ==> r == Err::<Vst3Event, i32>(K_INVALID_ARGUMENT),
    {
        let n = self.events.len();
        if index < 0 || index >= n as i32 {
            return Err(K_INVALID_ARGUMENT);
        }
        proof {
            assert((n as i32) as int <= n) by (bit_vector)
                requires
                    n as int == n,
            ;
        }
        Ok(self.events[index as usize])
    }

    /// `IEventList::addEvent`: append an event the plugin produced.
    pub fn add_event(&mut self, event: Vst3Event)
        ensures
            final(self)@ == old(self)@.push(event),
    {
        self.events.push(event);
    }
}

} // verus!
