//! What a sink was offered, and what it made of it: the model that the
//! contracts of this crate are stated over.

use vstd::prelude::*;

verus! {

/// One thing that can be offered to a sink.
pub enum Event {
    /// The start tag of an element, with its attributes in the order in which
    /// they are to be written.
    Start { name: Seq<char>, attributes: Seq<(Seq<char>, Seq<char>)> },
    /// Character data.
    Characters { text: Seq<char> },
    /// The end tag of the innermost open element.
    End,
    /// Text for the output underneath, past the event writer.
    Raw { text: Seq<char> },
}

/// An event that was offered to a sink, and whether the sink took it.
///
/// A sink that refuses an event may already have written a part of it.
pub struct Offer {
    pub event: Event,
    pub taken: bool,
}

/// The start tag of an element `name` with `attributes`.
pub open spec fn start(name: Seq<char>, attributes: Seq<(Seq<char>, Seq<char>)>) -> Event {
    Event::Start { name, attributes }
}

/// Character data `text`.
pub open spec fn characters(text: Seq<char>) -> Event {
    Event::Characters { text }
}

/// `text` for the output underneath.
pub open spec fn raw(text: Seq<char>) -> Event {
    Event::Raw { text }
}

/// The offer of `event`, taken or not.
pub open spec fn offer(event: Event, taken: bool) -> Offer {
    Offer { event, taken }
}

/// The offer of an event that the sink took.
pub open spec fn taken(event: Event) -> Offer {
    offer(event, true)
}

/// The offer of an event that the sink refused.
pub open spec fn refused(event: Event) -> Offer {
    offer(event, false)
}

/// The offers made when `events` are offered in order and the sink takes
/// `n` of them: the first `n`, taken, and, where an event is left, the next
/// one, refused. Nothing is offered after a refusal.
pub open spec fn offered(events: Seq<Event>, n: nat) -> Seq<Offer>
    recommends
        n <= events.len(),
{
    Seq::new(
        if n < events.len() { n + 1 } else { n },
        |i: int| offer(events[i], i < n),
    )
}

/// The events of one element: its start tag, its content, its end tag.
pub open spec fn element_events(tag: Event, content: Seq<Event>) -> Seq<Event> {
    seq![tag] + content + seq![Event::End]
}

/// The offers of one element that the sink took whole, start tag and end tag,
/// around whatever was offered for its content.
pub open spec fn enclosed(tag: Event, content: Seq<Offer>) -> Seq<Offer> {
    seq![taken(tag)] + content + seq![taken(Event::End)]
}

/// The number of open elements after one more offer, starting from `depth`
/// of them: `None` where an end tag was taken and no element was open.
pub open spec fn step(depth: nat, next: Offer) -> Option<nat> {
    if !next.taken {
        Some(depth)
    } else {
        match next.event {
            Event::Start { .. } => Some(depth + 1),
            Event::End => if depth > 0 {
                Some((depth - 1) as nat)
            } else {
                None
            },
            _ => Some(depth),
        }
    }
}

/// The number of open elements after `offers`, replayed in order from `depth`
/// open elements: `None` where some end tag had no element to close.
pub open spec fn replay(offers: Seq<Offer>, depth: nat) -> Option<nat>
    decreases offers.len(),
{
    if offers.len() == 0 {
        Some(depth)
    } else {
        match replay(offers.drop_last(), depth) {
            Some(d) => step(d, offers.last()),
            None => None,
        }
    }
}

/// Every end tag taken closes a start tag taken before it, and no element is
/// left open.
pub open spec fn well_nested(offers: Seq<Offer>) -> bool {
    replay(offers, 0) == Some(0nat)
}

/// The number of start tags taken.
pub open spec fn starts(offers: Seq<Offer>) -> nat
    decreases offers.len(),
{
    if offers.len() == 0 {
        0
    } else {
        let rest = starts(offers.drop_last());
        if offers.last().taken && offers.last().event is Start {
            rest + 1
        } else {
            rest
        }
    }
}

/// The number of end tags taken.
pub open spec fn ends(offers: Seq<Offer>) -> nat
    decreases offers.len(),
{
    if offers.len() == 0 {
        0
    } else {
        let rest = ends(offers.drop_last());
        if offers.last().taken && offers.last().event is End {
            rest + 1
        } else {
            rest
        }
    }
}

/// No start tag and no end tag among `events`.
pub open spec fn flat(events: Seq<Event>) -> bool {
    forall|i: int| 0 <= i < events.len() ==> !(#[trigger] events[i] is Start) && !(events[i] is End)
}

/// Replaying two runs of offers one after the other is replaying the second
/// from where the first ended.
pub proof fn lemma_replay_concat(first: Seq<Offer>, second: Seq<Offer>, depth: nat)
    ensures
        replay(first + second, depth) == (match replay(first, depth) {
            Some(d) => replay(second, d),
            None => None,
        }),
    decreases second.len(),
{
    if second.len() == 0 {
        assert(first + second =~= first);
    } else {
        assert((first + second).drop_last() =~= first + second.drop_last());
        assert((first + second).last() == second.last());
        lemma_replay_concat(first, second.drop_last(), depth);
    }
}

/// A replay that goes through from some depth goes through from any greater
/// depth, and ends that much deeper.
pub proof fn lemma_replay_deeper(offers: Seq<Offer>, depth: nat, by: nat)
    requires
        replay(offers, depth) is Some,
    ensures
        replay(offers, depth + by) == Some(replay(offers, depth).unwrap() + by),
    decreases offers.len(),
{
    if offers.len() > 0 {
        lemma_replay_deeper(offers.drop_last(), depth, by);
    }
}

/// A replay that goes through ends as many elements deeper as more start tags
/// than end tags were taken.
pub proof fn lemma_replay_counts(offers: Seq<Offer>, depth: nat)
    requires
        replay(offers, depth) is Some,
    ensures
        replay(offers, depth).unwrap() + ends(offers) == depth + starts(offers),
    decreases offers.len(),
{
    if offers.len() > 0 {
        lemma_replay_counts(offers.drop_last(), depth);
    }
}

/// In a well-nested run of offers as many start tags as end tags were taken.
pub proof fn lemma_well_nested_counts(offers: Seq<Offer>)
    requires
        well_nested(offers),
    ensures
        starts(offers) == ends(offers),
{
    lemma_replay_counts(offers, 0);
}

/// Two well-nested runs, one after the other, are well nested.
pub proof fn lemma_well_nested_concat(first: Seq<Offer>, second: Seq<Offer>)
    requires
        well_nested(first),
        well_nested(second),
    ensures
        well_nested(first + second),
{
    lemma_replay_concat(first, second, 0);
}

/// An element taken whole around well-nested content is well nested, and
/// takes one start tag and one end tag more than its content.
pub proof fn lemma_enclosed_well_nested(tag: Event, content: Seq<Offer>)
    requires
        tag is Start,
        well_nested(content),
    ensures
        well_nested(enclosed(tag, content)),
        starts(enclosed(tag, content)) == starts(content) + 1,
        ends(enclosed(tag, content)) == ends(content) + 1,
        starts(enclosed(tag, content)) == ends(enclosed(tag, content)),
{
    let open = seq![taken(tag)];
    let close = seq![taken(Event::End)];
    assert(replay(open, 0) == Some(1nat)) by {
        assert(open.drop_last() =~= Seq::<Offer>::empty());
        assert(replay(open.drop_last(), 0) == Some(0nat));
    }
    lemma_replay_deeper(content, 0, 1);
    lemma_replay_concat(open, content, 0);
    assert(replay(open + content, 0) == Some(1nat));
    assert(enclosed(tag, content).drop_last() =~= open + content);
    lemma_well_nested_counts(enclosed(tag, content));
    lemma_starts_concat(open, content);
    lemma_starts_concat(open + content, close);
    assert(starts(open) == 1) by {
        assert(open.drop_last() =~= Seq::<Offer>::empty());
        assert(starts(open.drop_last()) == 0);
    }
    assert(starts(close) == 0) by {
        assert(close.drop_last() =~= Seq::<Offer>::empty());
        assert(starts(close.drop_last()) == 0);
    }
    lemma_well_nested_counts(content);
}

/// The start tags taken in two runs, one after the other, add up.
pub proof fn lemma_starts_concat(first: Seq<Offer>, second: Seq<Offer>)
    ensures
        starts(first + second) == starts(first) + starts(second),
    decreases second.len(),
{
    if second.len() == 0 {
        assert(first + second =~= first);
    } else {
        assert((first + second).drop_last() =~= first + second.drop_last());
        lemma_starts_concat(first, second.drop_last());
    }
}

/// Events that were all taken are offered as what `enclosed` builds: an
/// element's events, taken whole, enclose its content, taken whole.
pub proof fn lemma_offered_element(tag: Event, content: Seq<Event>)
    ensures
        offered(element_events(tag, content), content.len() + 2) == enclosed(
            tag,
            offered(content, content.len()),
        ),
{
    assert(offered(element_events(tag, content), content.len() + 2) =~= enclosed(
        tag,
        offered(content, content.len()),
    ));
}

/// Offers among which no tag was taken leave the depth as it was.
pub proof fn lemma_tagless_replay(offers: Seq<Offer>, depth: nat)
    requires
        forall|i: int|
            0 <= i < offers.len() && (#[trigger] offers[i]).taken ==> !(offers[i].event is Start)
                && !(offers[i].event is End),
    ensures
        replay(offers, depth) == Some(depth),
        starts(offers) == 0,
        ends(offers) == 0,
    decreases offers.len(),
{
    if offers.len() > 0 {
        let rest = offers.drop_last();
        assert forall|i: int| 0 <= i < rest.len() && (#[trigger] rest[i]).taken implies !(
        rest[i].event is Start) && !(rest[i].event is End) by {
            assert(rest[i] == offers[i]);
        }
        lemma_tagless_replay(rest, depth);
        assert(offers.last() == offers[offers.len() - 1]);
    }
}

/// Content without tags, however much of it the sink took, is well nested.
pub proof fn lemma_flat_well_nested(content: Seq<Event>, n: nat)
    requires
        flat(content),
        n <= content.len(),
    ensures
        well_nested(offered(content, n)),
        starts(offered(content, n)) == 0,
        ends(offered(content, n)) == 0,
{
    let offers = offered(content, n);
    assert forall|i: int| 0 <= i < offers.len() && (#[trigger] offers[i]).taken implies !(
    offers[i].event is Start) && !(offers[i].event is End) by {
        assert(offers[i].event == content[i]);
    }
    lemma_tagless_replay(offers, 0);
}

/// An element whose content holds no tags, taken whole, is well nested:
/// one start tag and one end tag were taken.
pub proof fn lemma_flat_element_well_nested(tag: Event, content: Seq<Event>)
    requires
        tag is Start,
        flat(content),
    ensures
        well_nested(offered(element_events(tag, content), content.len() + 2)),
        starts(offered(element_events(tag, content), content.len() + 2)) == 1,
        ends(offered(element_events(tag, content), content.len() + 2)) == 1,
{
    lemma_offered_element(tag, content);
    lemma_flat_well_nested(content, content.len());
    lemma_enclosed_well_nested(tag, offered(content, content.len()));
}

} // verus!
