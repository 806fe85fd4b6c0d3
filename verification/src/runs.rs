//! Whole runs of a submission: what a sequence of events brings about, and
//! what holds of every run.

use crate::entity::EntityRecord;
use crate::submit::{
    already_stated, cache_after, lookup, moved, transition, ActionView, Event, StageView,
    SubmissionView,
};
use vstd::prelude::*;

verus! {

/// The submission and the cache after one event.
pub open spec fn after_event(
    s: SubmissionView,
    cache: Map<Seq<char>, EntityRecord>,
    event: Event,
) -> (SubmissionView, Map<Seq<char>, EntityRecord>) {
    (moved(s, transition(s, cache, event).0), cache_after(s, cache, event))
}

/// The submission and the cache after the events `events`, in order.
pub open spec fn after_events(
    s: SubmissionView,
    cache: Map<Seq<char>, EntityRecord>,
    events: Seq<Event>,
) -> (SubmissionView, Map<Seq<char>, EntityRecord>)
    decreases events.len(),
{
    if events.len() == 0 {
        (s, cache)
    } else {
        let before = after_events(s, cache, events.drop_last());
        after_event(before.0, before.1, events.last())
    }
}

/// The action that answers the event `j` of `events`.
pub open spec fn action_at(
    s: SubmissionView,
    cache: Map<Seq<char>, EntityRecord>,
    events: Seq<Event>,
    j: int,
) -> ActionView {
    let before = after_events(s, cache, events.take(j));
    transition(before.0, before.1, events[j]).1
}

/// Some event of the run is answered by posting an edit.
pub open spec fn writes(
    s: SubmissionView,
    cache: Map<Seq<char>, EntityRecord>,
    events: Seq<Event>,
) -> bool {
    exists|j: int| 0 <= j < events.len() && #[trigger] action_at(s, cache, events, j) is Post
}

/// How far a stage is along the way.
pub open spec fn rank(stage: StageView) -> int {
    match stage {
        StageView::AwaitPageImage => 0,
        StageView::AwaitArtwork => 1,
        StageView::AwaitPageId => 2,
        StageView::AwaitEntity { .. } => 3,
        StageView::AwaitToken { .. } => 4,
        StageView::AwaitEdit { .. } => 5,
        StageView::Finished => 6,
    }
}

/// A submission only moves forward. It posts an edit only on the move from
/// waiting for the token to waiting for the edit, and it has the pair
/// recorded in the log exactly where the edit that it waits for is accepted.
pub proof fn lemma_step_forward(
    s: SubmissionView,
    cache: Map<Seq<char>, EntityRecord>,
    event: Event,
)
    ensures
        rank(transition(s, cache, event).0) >= rank(s.stage),
        rank(transition(s, cache, event).0) > rank(s.stage) || s.stage is Finished,
        transition(s, cache, event).1 is Post ==> s.stage is AwaitToken && transition(
            s,
            cache,
            event,
        ).0 is AwaitEdit,
        transition(s, cache, event).1 is Record <==> s.stage is AwaitEdit && event
            == Event::Edited(true),
{
}

/// The stage never falls back in a run.
pub proof fn lemma_run_forward(
    s: SubmissionView,
    cache: Map<Seq<char>, EntityRecord>,
    events: Seq<Event>,
    j: int,
)
    requires
        0 <= j <= events.len(),
    ensures
        rank(after_events(s, cache, events.take(j)).0.stage) <= rank(
            after_events(s, cache, events).0.stage,
        ),
    decreases events.len() - j,
{
    if j == events.len() {
        assert(events.take(j) =~= events);
    } else {
        let before = after_events(s, cache, events.take(j));
        assert(events.take(j + 1).drop_last() =~= events.take(j));
        assert(events.take(j + 1).last() == events[j]);
        lemma_step_forward(before.0, before.1, events[j]);
        lemma_run_forward(s, cache, events, j + 1);
    }
}

/// Once an event ends the work before an edit was posted, no event of the
/// whole run, before or after, is answered by posting an edit.
pub proof fn lemma_stopped_run_never_writes(
    s: SubmissionView,
    cache: Map<Seq<char>, EntityRecord>,
    events: Seq<Event>,
    j: int,
)
    requires
        0 <= j < events.len(),
        rank(after_events(s, cache, events.take(j)).0.stage) <= 4,
        ({
            let at_j = after_events(s, cache, events.take(j));
            transition(at_j.0, at_j.1, events[j]).0 is Finished
        }),
    ensures
        !writes(s, cache, events),
{
    let at_j = after_events(s, cache, events.take(j));
    lemma_step_forward(at_j.0, at_j.1, events[j]);
    assert(events.take(j + 1).drop_last() =~= events.take(j));
    assert(events.take(j + 1).last() == events[j]);
    let past_j = after_events(s, cache, events.take(j + 1));
    assert(past_j.0.stage is Finished);
    assert forall|k: int| 0 <= k < events.len() implies !(#[trigger] action_at(s, cache, events, k)
        is Post) by {
        let at_k = after_events(s, cache, events.take(k));
        lemma_step_forward(at_k.0, at_k.1, events[k]);
        if k < j {
            assert(events.take(k + 1).drop_last() =~= events.take(k));
            assert(events.take(k + 1).last() == events[k]);
            assert(events.take(j).take(k + 1) =~= events.take(k + 1));
            lemma_run_forward(s, cache, events.take(j), k + 1);
        } else if k > j {
            assert(events.take(k).take(j + 1) =~= events.take(j + 1));
            lemma_run_forward(s, cache, events.take(k), j + 1);
        }
    }
}

/// A file flagged as an artwork gets no statement: where the answer to the
/// artwork check is yes, no event of the run is answered by posting an edit.
pub proof fn lemma_artwork_never_written(
    s: SubmissionView,
    cache: Map<Seq<char>, EntityRecord>,
    events: Seq<Event>,
    j: int,
)
    requires
        0 <= j < events.len(),
        after_events(s, cache, events.take(j)).0.stage is AwaitArtwork,
        events[j] == Event::Artwork(true),
    ensures
        !writes(s, cache, events),
{
    lemma_stopped_run_never_writes(s, cache, events, j);
}

/// A candidate of the structured query gets a statement only where the
/// article's free page image is exactly the image that the item declares:
/// where the article has none, or another one, no event of the run is
/// answered by posting an edit.
pub proof fn lemma_mismatch_never_written(
    s: SubmissionView,
    cache: Map<Seq<char>, EntityRecord>,
    events: Seq<Event>,
    j: int,
    found: Option<String>,
)
    requires
        0 <= j < events.len(),
        after_events(s, cache, events.take(j)).0.stage is AwaitPageImage,
        events[j] == Event::PageImage(found),
        !(found matches Some(image) && image@ == s.image),
    ensures
        !writes(s, cache, events),
{
    lemma_same_candidate(s, cache, events.take(j));
    lemma_stopped_run_never_writes(s, cache, events, j);
}

/// The item, the image and the property of a submission never change.
pub proof fn lemma_same_candidate(
    s: SubmissionView,
    cache: Map<Seq<char>, EntityRecord>,
    events: Seq<Event>,
)
    ensures
        after_events(s, cache, events).0.item == s.item,
        after_events(s, cache, events).0.image == s.image,
        after_events(s, cache, events).0.property == s.property,
        after_events(s, cache, events).0.is_bot == s.is_bot,
    decreases events.len(),
{
    if events.len() > 0 {
        lemma_same_candidate(s, cache, events.drop_last());
    }
}

/// Where the metadata entity, as the cache holds it once it is loaded, has
/// the statement already, nothing is written: no event of the run is answered
/// by posting an edit.
pub proof fn lemma_stated_never_written(
    s: SubmissionView,
    cache: Map<Seq<char>, EntityRecord>,
    events: Seq<Event>,
    j: int,
    loaded: Option<EntityRecord>,
)
    requires
        0 <= j < events.len(),
        events[j] == Event::Entity(loaded),
        ({
            let at_j = after_events(s, cache, events.take(j));
            &&& at_j.0.stage matches StageView::AwaitEntity { media_id }
            &&& already_stated(s, lookup(cache_after(at_j.0, at_j.1, events[j]), media_id))
        }),
    ensures
        !writes(s, cache, events),
{
    lemma_same_candidate(s, cache, events.take(j));
    lemma_stopped_run_never_writes(s, cache, events, j);
}

/// Where the cache holds the metadata entity when its page identifier comes
/// in, and the entity has the statement already, nothing is written.
pub proof fn lemma_cached_stated_never_written(
    s: SubmissionView,
    cache: Map<Seq<char>, EntityRecord>,
    events: Seq<Event>,
    j: int,
    page_id: i64,
)
    requires
        0 <= j < events.len(),
        events[j] == Event::PageId(Ok::<i64, crate::responses::PageIdError>(page_id)),
        ({
            let at_j = after_events(s, cache, events.take(j));
            &&& at_j.0.stage is AwaitPageId
            &&& already_stated(s, lookup(at_j.1, crate::claim::media_id_text(page_id as int)))
        }),
    ensures
        !writes(s, cache, events),
{
    lemma_same_candidate(s, cache, events.take(j));
    lemma_stopped_run_never_writes(s, cache, events, j);
}

/// A pair that nothing stands against is written and recorded: where the
/// file is no artwork, has the page identifier `page_id`, its metadata entity
/// is not in the cache and, once loaded, lacks the statement, a token is had
/// and the edit is accepted, the fourth answer posts the edit and the fifth
/// has the pair recorded in the log.
pub proof fn lemma_clear_run_writes(
    s: SubmissionView,
    cache: Map<Seq<char>, EntityRecord>,
    page_id: i64,
    loaded: Option<EntityRecord>,
    token: String,
)
    requires
        s.stage is AwaitArtwork,
        !cache.contains_key(crate::claim::media_id_text(page_id as int)),
        !already_stated(
            s,
            lookup(
                match loaded {
                    Some(record) => cache.insert(record.id@, record),
                    None => cache,
                },
                crate::claim::media_id_text(page_id as int),
            ),
        ),
    ensures
        ({
            let events = seq![
                Event::Artwork(false),
                Event::PageId(Ok::<i64, crate::responses::PageIdError>(page_id)),
                Event::Entity(loaded),
                Event::Token(Some(token)),
                Event::Edited(true),
            ];
            let media_id = crate::claim::media_id_text(page_id as int);
            &&& action_at(s, cache, events, 0) == (ActionView::QueryPageId {
                title: s.image,
                namespace: 6,
            })
            &&& action_at(s, cache, events, 1) == (ActionView::LoadEntity { id: media_id })
            &&& action_at(s, cache, events, 2) == ActionView::FetchToken
            &&& action_at(s, cache, events, 3) == (ActionView::Post {
                params: crate::submit::post_params(s, media_id, token@),
            })
            &&& action_at(s, cache, events, 4) == (ActionView::Record {
                line: crate::log::record_line(s.item, s.image),
            })
            &&& !after_events(s, cache, events).1.contains_key(media_id)
        }),
{
    let events = seq![
        Event::Artwork(false),
        Event::PageId(Ok::<i64, crate::responses::PageIdError>(page_id)),
        Event::Entity(loaded),
        Event::Token(Some(token)),
        Event::Edited(true),
    ];
    let e0 = events.take(0);
    let e1 = events.take(1);
    let e2 = events.take(2);
    let e3 = events.take(3);
    let e4 = events.take(4);
    assert(e1.drop_last() =~= e0 && e1.last() == events[0]);
    assert(e2.drop_last() =~= e1 && e2.last() == events[1]);
    assert(e3.drop_last() =~= e2 && e3.last() == events[2]);
    assert(e4.drop_last() =~= e3 && e4.last() == events[3]);
    assert(events.drop_last() =~= e4 && events.last() == events[4]);
    let s0 = after_events(s, cache, e0);
    assert(s0 == (s, cache));
    let s1 = after_events(s, cache, e1);
    assert(s1 == after_event(s0.0, s0.1, events[0]));
    let s2 = after_events(s, cache, e2);
    assert(s2 == after_event(s1.0, s1.1, events[1]));
    let s3 = after_events(s, cache, e3);
    assert(s3 == after_event(s2.0, s2.1, events[2]));
    let s4 = after_events(s, cache, e4);
    assert(s4 == after_event(s3.0, s3.1, events[3]));
    assert(after_events(s, cache, events) == after_event(s4.0, s4.1, events[4]));
}

/// An accepted edit drops the edited entity from the cache, so that the next
/// submission for the same file has it loaded again, and has the pair
/// recorded in the log.
pub proof fn lemma_written_entity_is_dropped(
    s: SubmissionView,
    cache: Map<Seq<char>, EntityRecord>,
)
    requires
        s.stage is AwaitEdit,
    ensures
        transition(s, cache, Event::Edited(true)).1 == (ActionView::Record {
            line: crate::log::record_line(s.item, s.image),
        }),
        !cache_after(s, cache, Event::Edited(true)).contains_key(s.stage->AwaitEdit_media_id),
{
}

} // verus!
